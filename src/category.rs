//! The kind of service that a catalog endpoint belongs to.

use vstd::prelude::*;
use vstd::string::*;

verus! {

#[derive(Clone, Copy, Debug, Default, PartialEq, Eq, Structural)]
pub enum Category {
    #[default]
    Identity,
    Compute,
}

/// The category named by a service-type string: "compute" is Compute, and
/// every other type, "identity" included, is Identity.
pub open spec fn category_of(service_type: Seq<char>) -> Category {
    if service_type == "compute"@ {
        Category::Compute
    } else {
        Category::Identity
    }
}

impl Category {
    pub fn from_type(type_: &str) -> (r: Category)
        ensures
            r == category_of(type_@),
    {
        proof { reveal_strlit("compute"); }
        if String::from_str(type_) == String::from_str("compute") {
            Category::Compute
        } else {
            Category::Identity
        }
    }
}

} // verus!
