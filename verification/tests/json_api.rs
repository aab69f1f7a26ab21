use paykit::json_api::{ApiError, ApiRequest, HttpMethod, JsonApi, TokenGen};

#[test]
fn test_json_api_new() {
    let api = JsonApi::new("https://api.example.com").unwrap();
    assert_eq!(api.base().as_str(), "https://api.example.com/");
}

#[test]
fn test_json_api_new_invalid_url() {
    let result = JsonApi::new("not a valid url");
    assert!(result.is_err());
}

#[test]
fn test_json_api_token() {
    let api = JsonApi::token("https://api.example.com", "Bearer token123", false).unwrap();
    assert_eq!(api.base().as_str(), "https://api.example.com/");
}

#[test]
fn test_json_api_base() {
    let api = JsonApi::new("https://api.example.com/v1/").unwrap();
    assert_eq!(api.base().as_str(), "https://api.example.com/v1/");
}

#[test]
fn test_json_api_build_req_get() {
    let api = JsonApi::new("https://api.example.com").unwrap();
    let req = api.build_req(HttpMethod::Get, "/test", None).unwrap();
    assert_eq!(req.method, HttpMethod::Get);
    assert_eq!(req.url.as_str(), "https://api.example.com/test");
}

#[test]
fn test_json_api_build_req_post_with_body() {
    let api = JsonApi::new("https://api.example.com").unwrap();
    let body = "{\"key\":\"value\"}";
    let req = api.build_req(HttpMethod::Post, "/test", Some(body)).unwrap();
    assert_eq!(req.method, HttpMethod::Post);
    assert!(req.headers.iter().any(|h| h.0 == "content-type"));
}

struct TestTokenGen;

impl TokenGen for TestTokenGen {
    fn generate_token(
        &self,
        _method: HttpMethod,
        _url: &str,
        _body: Option<&str>,
        mut req: ApiRequest,
    ) -> Result<ApiRequest, ApiError> {
        req.headers.push(("X-Custom-Token".to_string(), "test123".to_string()));
        Ok(req)
    }
}

#[test]
fn test_json_api_token_gen() {
    let api = JsonApi::token_gen("https://api.example.com", false, TestTokenGen).unwrap();
    assert_eq!(api.base().as_str(), "https://api.example.com/");
}

#[test]
fn test_json_api_build_req_with_token_gen() {
    let api = JsonApi::token_gen("https://api.example.com", false, TestTokenGen).unwrap();
    let req = api.build_req(HttpMethod::Get, "/test", None).unwrap();
    let found = req
        .headers
        .iter()
        .find(|h| h.0 == "X-Custom-Token")
        .expect("custom token header");
    assert_eq!(found.1.as_str(), "test123");
}

#[test]
fn test_json_api_build_req_with_token_gen_and_body() {
    let api = JsonApi::token_gen("https://api.example.com", false, TestTokenGen).unwrap();
    let body = "{\"test\":true}";
    let req = api.build_req(HttpMethod::Post, "/test", Some(body)).unwrap();
    let found = req
        .headers
        .iter()
        .find(|h| h.0 == "X-Custom-Token")
        .expect("custom token header");
    assert_eq!(found.1.as_str(), "test123");
}

// A client without a signing strategy adds no authorization header to a
// prepared request.
#[test]
fn test_build_req_no_auth_header_without_strategy() {
    let api = JsonApi::new("https://api.example.com").unwrap();
    let req = api.build_req(HttpMethod::Get, "/test", None).unwrap();
    assert!(req.headers.iter().all(|h| h.0 != "authorization"));
    assert_eq!(req.body, None);
}

#[test]
fn test_build_req_bad_path() {
    let api = JsonApi::new("https://api.example.com").unwrap();
    let r = api.build_req(HttpMethod::Get, "http://[bad", None);
    assert!(matches!(r, Err(ApiError::UrlJoin { .. })));
}

#[test]
fn test_classify_response() {
    let ok = paykit::json_api::classify_response(
        HttpMethod::Get,
        "/x",
        200,
        "{\"a\":1}".to_string(),
    );
    assert_eq!(ok.unwrap(), "{\"a\":1}");
    let err = paykit::json_api::classify_response(
        HttpMethod::Get,
        "/x",
        404,
        "missing".to_string(),
    );
    match err {
        Err(ApiError::Status { method, path, status, body }) => {
            assert_eq!(method, HttpMethod::Get);
            assert_eq!(path.as_str(), "/x");
            assert_eq!(status, 404);
            assert_eq!(body.as_str(), "missing");
        }
        _ => panic!("expected a status error"),
    }
}

#[test]
fn test_classify_status() {
    assert_eq!(
        paykit::json_api::classify_status(HttpMethod::Delete, "/x", 204, String::new()).unwrap(),
        204
    );
    assert!(paykit::json_api::classify_status(HttpMethod::Delete, "/x", 500, String::new())
        .is_err());
}
