use stack_view::category::Category;
use stack_view::token::{auth_request_body, endpoints_from_catalog, token_response, token_url, AuthError, ServiceEntry};

fn catalog_from_json(text: &str) -> Vec<ServiceEntry> {
    let doc: serde_json::Value = serde_json::from_str(text).expect("deserialize IssueTokenResponse");
    let mut out = Vec::new();
    for entry in doc["token"]["catalog"].as_array().unwrap() {
        let urls = entry["endpoints"]
            .as_array()
            .unwrap()
            .iter()
            .map(|e| e["url"].as_str().unwrap().to_string())
            .collect();
        out.push(ServiceEntry { service_type: entry["type"].as_str().unwrap().to_string(), urls });
    }
    out
}

const SAMPLE: &str = r#"
        {
            "token": {
                "catalog": [
                    {
                        "endpoints": [
                            { "url": "http://example.com" }
                        ],
                        "type": "compute"
                    }
                ]
            }
        }
        "#;

#[test]
fn test_tokenresponse_deserialize() {
    let endpoints = endpoints_from_catalog(&catalog_from_json(SAMPLE));
    let token_response = stack_view::token::TokenResponse { token: "dummy_token".to_string(), endpoints };
    assert_eq!(token_response.token, "dummy_token");
    assert_eq!(token_response.endpoints.len(), 1);
    assert_eq!(token_response.endpoints[0].url, "http://example.com");
}

#[test]
fn created_with_token_and_compute_endpoint() {
    let r = token_response(201, Some("abc123".to_string()), Ok(catalog_from_json(SAMPLE)));
    let t = match r {
        Ok(t) => t,
        Err(e) => panic!("unexpected error: {}", e.message()),
    };
    assert_eq!(t.token, "abc123");
    assert_eq!(t.endpoints.len(), 1);
    assert_eq!(t.endpoints[0].url, "http://example.com");
    assert_eq!(t.endpoints[0].category, Category::Compute);
}

#[test]
fn created_without_token_header() {
    let r = token_response(201, None, Ok(catalog_from_json(SAMPLE)));
    assert!(matches!(r, Err(AuthError::MissingToken)));
    assert_eq!(r.err().unwrap().message(), "Missing X-Subject-Token header");
}

#[test]
fn bad_request_status() {
    let r = token_response(400, Some("abc".to_string()), Ok(Vec::new()));
    assert!(matches!(r, Err(AuthError::UnexpectedStatus(400))));
    assert_eq!(r.err().unwrap().message(), "Unexpected status: 400");
}

#[test]
fn undecodable_token_body() {
    let r = token_response(201, Some("abc".to_string()), Err("eof".to_string()));
    match r {
        Err(AuthError::Decode(m)) => assert_eq!(m, "eof"),
        _ => panic!("expected a decode error"),
    }
    assert_eq!(AuthError::Transport("down".to_string()).message(), "Request failed: down");
    assert_eq!(AuthError::Decode("eof".to_string()).message(), "Invalid response: eof");
}

#[test]
fn catalog_flattens_in_order() {
    let catalog = vec![
        ServiceEntry { service_type: "identity".to_string(), urls: vec!["http://a".to_string(), "http://b".to_string()] },
        ServiceEntry { service_type: "compute".to_string(), urls: vec![] },
        ServiceEntry { service_type: "compute".to_string(), urls: vec!["http://c".to_string()] },
        ServiceEntry { service_type: "image".to_string(), urls: vec!["http://d".to_string()] },
    ];
    let eps = endpoints_from_catalog(&catalog);
    let got: Vec<(String, Category)> = eps.into_iter().map(|e| (e.url, e.category)).collect();
    assert_eq!(
        got,
        vec![
            ("http://a".to_string(), Category::Identity),
            ("http://b".to_string(), Category::Identity),
            ("http://c".to_string(), Category::Compute),
            ("http://d".to_string(), Category::Identity),
        ]
    );
}

#[test]
fn category_from_type_strings() {
    assert_eq!(Category::from_type("compute"), Category::Compute);
    assert_eq!(Category::from_type("identity"), Category::Identity);
    assert_eq!(Category::from_type("network"), Category::Identity);
    assert_eq!(Category::from_type("Compute"), Category::Identity);
}

#[test]
fn token_url_trims_space_and_slashes() {
    assert_eq!(token_url("  http://localhost:5000// \n"), "http://localhost:5000/v3/auth/tokens");
    assert_eq!(token_url("http://h/identity"), "http://h/identity/v3/auth/tokens");
    assert_eq!(token_url(""), "/v3/auth/tokens");
}

#[test]
fn auth_body_is_password_scoped_document() {
    let body = auth_request_body("u\"1", "p", "t");
    let v: serde_json::Value = serde_json::from_str(&body).unwrap();
    assert_eq!(v["auth"]["identity"]["methods"][0], "password");
    assert_eq!(v["auth"]["identity"]["password"]["user"]["id"], "u\"1");
    assert_eq!(v["auth"]["identity"]["password"]["user"]["password"], "p");
    assert_eq!(v["auth"]["scope"]["project"]["id"], "t");
    assert_eq!(
        auth_request_body("u", "p", "t"),
        r#"{"auth":{"identity":{"methods":["password"],"password":{"user":{"id":"u","password":"p"}}},"scope":{"project":{"id":"t"}}}}"#
    );
}

#[test]
fn body_is_read_only_after_created_with_token() {
    assert!(stack_view::token::token_body_needed(201, true));
    assert!(!stack_view::token::token_body_needed(201, false));
    assert!(!stack_view::token::token_body_needed(400, true));
    assert!(stack_view::server::list_body_needed(200));
    assert!(!stack_view::server::list_body_needed(500));
}
