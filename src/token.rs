//! The identity service: the token request and what its response yields.

use vstd::prelude::*;
use vstd::string::*;
use crate::category::{Category, category_of};
use crate::text::{json_quoted, quote_json, trimmed, trim_str, strip_trailing, trim_end_char, decimal, push_decimal};

verus! {

/// One endpoint of the service catalog.
pub struct Endpoint {
    pub url: String,
    pub category: Category,
}

impl View for Endpoint {
    type V = (Seq<char>, Category);

    open spec fn view(&self) -> (Seq<char>, Category) {
        (self.url@, self.category)
    }
}

/// A scoped token and the endpoints of the catalog issued with it.
pub struct TokenResponse {
    pub token: String,
    pub endpoints: Vec<Endpoint>,
}

/// One entry of the service catalog as the identity service sends it: a
/// service type and the URLs of its endpoints.
pub struct ServiceEntry {
    pub service_type: String,
    pub urls: Vec<String>,
}

/// Why no token could be issued.
pub enum AuthError {
    /// The request could not be sent or its answer not received.
    Transport(String),
    /// The service answered with a status other than 201.
    UnexpectedStatus(u16),
    /// The answer carried no `X-Subject-Token` header.
    MissingToken,
    /// The body of the answer is not a token document.
    Decode(String),
}

pub open spec fn status_message(code: u16) -> Seq<char> {
    "Unexpected status: "@ + decimal(code as nat)
}

pub open spec fn auth_error_message(e: AuthError) -> Seq<char> {
    match e {
        AuthError::Transport(m) => "Request failed: "@ + m@,
        AuthError::UnexpectedStatus(code) => status_message(code),
        AuthError::MissingToken => "Missing X-Subject-Token header"@,
        AuthError::Decode(m) => "Invalid response: "@ + m@,
    }
}

impl AuthError {
    /// The text shown to the user for this error.
    pub fn message(&self) -> (r: String)
        ensures
            r@ == auth_error_message(*self),
    {
        proof {
            reveal_strlit("Request failed: ");
            reveal_strlit("Unexpected status: ");
            reveal_strlit("Missing X-Subject-Token header");
            reveal_strlit("Invalid response: ");
        }
        match self {
            AuthError::Transport(m) => String::from_str("Request failed: ").concat(m.as_str()),
            AuthError::UnexpectedStatus(code) => {
                let mut s = String::from_str("Unexpected status: ");
                push_decimal(&mut s, *code);
                s
            },
            AuthError::MissingToken => String::from_str("Missing X-Subject-Token header"),
            AuthError::Decode(m) => String::from_str("Invalid response: ").concat(m.as_str()),
        }
    }
}

/// The address of the token resource under an identity URL: the URL with
/// surrounding white space and trailing slashes removed, then the path.
pub open spec fn token_url_of(identity_url: Seq<char>) -> Seq<char> {
    strip_trailing(trimmed(identity_url), '/') + "/v3/auth/tokens"@
}

/// Builds the address that the token request is posted to.
pub fn token_url(identity_url: &str) -> (r: String)
    ensures
        r@ == token_url_of(identity_url@),
{
    proof { reveal_strlit("/v3/auth/tokens"); }
    let base = trim_end_char(trim_str(identity_url), '/');
    base.concat("/v3/auth/tokens")
}

/// The password-scoped authentication document, in compact JSON with its
/// keys in sorted order.
pub open spec fn auth_body_of(userid: Seq<char>, password: Seq<char>, tenantid: Seq<char>) -> Seq<char> {
    "{\"auth\":{\"identity\":{\"methods\":[\"password\"],\"password\":{\"user\":{\"id\":"@
        + json_quoted(userid)
        + ",\"password\":"@
        + json_quoted(password)
        + "}}},\"scope\":{\"project\":{\"id\":"@
        + json_quoted(tenantid)
        + "}}}}"@
}

/// Builds the body of the token request.
pub fn auth_request_body(userid: &str, password: &str, tenantid: &str) -> (r: String)
    ensures
        r@ == auth_body_of(userid@, password@, tenantid@),
{
    proof {
        reveal_strlit("{\"auth\":{\"identity\":{\"methods\":[\"password\"],\"password\":{\"user\":{\"id\":");
        reveal_strlit(",\"password\":");
        reveal_strlit("}}},\"scope\":{\"project\":{\"id\":");
        reveal_strlit("}}}}");
    }
    let mut body = String::from_str("{\"auth\":{\"identity\":{\"methods\":[\"password\"],\"password\":{\"user\":{\"id\":");
    body.append(quote_json(userid).as_str());
    body.append(",\"password\":");
    body.append(quote_json(password).as_str());
    body.append("}}},\"scope\":{\"project\":{\"id\":");
    body.append(quote_json(tenantid).as_str());
    body.append("}}}}");
    body
}

/// The endpoints of one catalog entry, each with the entry's category.
pub open spec fn entry_endpoints(e: ServiceEntry) -> Seq<(Seq<char>, Category)> {
    e.urls@.map_values(|u: String| (u@, category_of(e.service_type@)))
}

/// The endpoints of a catalog: those of each entry in turn, in order.
pub open spec fn catalog_endpoints(catalog: Seq<ServiceEntry>) -> Seq<(Seq<char>, Category)>
    decreases catalog.len(),
{
    if catalog.len() == 0 {
        Seq::empty()
    } else {
        catalog_endpoints(catalog.drop_last()) + entry_endpoints(catalog.last())
    }
}

pub open spec fn endpoint_views(v: Seq<Endpoint>) -> Seq<(Seq<char>, Category)> {
    v.map_values(|e: Endpoint| e@)
}

/// Turns every (service type, URL) pair of the catalog into one endpoint.
pub fn endpoints_from_catalog(catalog: &Vec<ServiceEntry>) -> (r: Vec<Endpoint>)
    ensures
        endpoint_views(r@) == catalog_endpoints(catalog@),
{
    let mut out: Vec<Endpoint> = Vec::new();
    let mut i: usize = 0;
    while i < catalog.len()
        invariant
            i <= catalog@.len(),
            endpoint_views(out@) == catalog_endpoints(catalog@.subrange(0, i as int)),
        decreases catalog@.len() - i,
    {
        let entry = &catalog[i];
        let category = Category::from_type(entry.service_type.as_str());
        let ghost before = out@;
        let mut j: usize = 0;
        while j < entry.urls.len()
            invariant
                i < catalog@.len(),
                *entry == catalog@[i as int],
                category == category_of(entry.service_type@),
                j <= entry.urls@.len(),
                endpoint_views(out@) == endpoint_views(before)
                    + entry_endpoints(*entry).subrange(0, j as int),
            decreases entry.urls@.len() - j,
        {
            let ghost prev = out@;
            let url = entry.urls[j].clone();
            out.push(Endpoint { url, category });
            assert(endpoint_views(out@) =~= endpoint_views(prev).push((entry.urls@[j as int]@, category)));
            assert(entry_endpoints(*entry).subrange(0, j + 1) =~= entry_endpoints(*entry).subrange(0, j as int).push((entry.urls@[j as int]@, category)));
            assert(endpoint_views(out@) =~= endpoint_views(before)
                + entry_endpoints(*entry).subrange(0, j + 1));
            j = j + 1;
        }
        assert(entry_endpoints(*entry).subrange(0, j as int) =~= entry_endpoints(*entry));
        assert(catalog@.subrange(0, i + 1).drop_last() =~= catalog@.subrange(0, i as int));
        i = i + 1;
    }
    assert(catalog@.subrange(0, i as int) =~= catalog@);
    out
}

/// What a token request yields, given the answer's status, its
/// `X-Subject-Token` header and its decoded catalog (or why it could not
/// be decoded): the status must be 201, then the header must be there,
/// then the body must have decoded.
pub open spec fn token_outcome_ok(
    status: u16,
    subject_token: Option<String>,
    catalog: Result<Vec<ServiceEntry>, String>,
) -> bool {
    status == 201 && subject_token is Some && catalog is Ok
}

/// Whether the body of a token answer is looked at: only when the status
/// is 201 and the `X-Subject-Token` header is there.
pub fn token_body_needed(status: u16, has_subject_token: bool) -> (r: bool)
    ensures
        r == (status == 201 && has_subject_token),
{
    status == 201 && has_subject_token
}

/// Decides the outcome of a token request from what the identity service
/// answered.
pub fn token_response(
    status: u16,
    subject_token: Option<String>,
    catalog: Result<Vec<ServiceEntry>, String>,
) -> (r: Result<TokenResponse, AuthError>)
    ensures
        status != 201 ==> r == Err::<TokenResponse, AuthError>(AuthError::UnexpectedStatus(status)),
        status == 201 && subject_token is None ==> r == Err::<TokenResponse, AuthError>(AuthError::MissingToken),
        status == 201 && subject_token is Some && catalog is Err ==> r == Err::<TokenResponse, AuthError>(
            AuthError::Decode(catalog->Err_0),
        ),
        r is Ok <==> token_outcome_ok(status, subject_token, catalog),
        r is Ok ==> r->Ok_0.token == subject_token->Some_0
            && endpoint_views(r->Ok_0.endpoints@) == catalog_endpoints(catalog->Ok_0@),
{
    if status != 201 {
        return Err(AuthError::UnexpectedStatus(status));
    }
    let token = match subject_token {
        Some(t) => t,
        None => return Err(AuthError::MissingToken),
    };
    match catalog {
        Ok(entries) => {
            let endpoints = endpoints_from_catalog(&entries);
            Ok(TokenResponse { token, endpoints })
        },
        Err(m) => Err(AuthError::Decode(m)),
    }
}

} // verus!
