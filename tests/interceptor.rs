use std::cell::Cell;

use blog_auth::auth::{authorize, bearer_token, Auth, Request, Response};
use blog_auth::token::{generate_jwt, JwtConfig, TokenError};

const NOW: u64 = 1_700_000_000;

fn config() -> JwtConfig {
    JwtConfig::new(b"interceptor-secret".to_vec())
}

fn ok_response() -> Response {
    Response { status: 200, body: b"done".to_vec() }
}

#[test]
fn bearer_prefix_is_stripped_once() {
    assert_eq!(bearer_token("Bearer abc.def.ghi"), Some("abc.def.ghi".to_string()));
    assert_eq!(bearer_token("Bearer Bearer x"), Some("Bearer x".to_string()));
    assert_eq!(bearer_token("Bearer "), Some(String::new()));
    assert_eq!(bearer_token("Bearer ñ"), Some("ñ".to_string()));
}

#[test]
fn other_schemes_present_no_token() {
    assert_eq!(bearer_token("bearer abc"), None);
    assert_eq!(bearer_token("Basic abc"), None);
    assert_eq!(bearer_token("Bearer"), None);
    assert_eq!(bearer_token("abc.def.ghi"), None);
    assert_eq!(bearer_token(""), None);
}

#[test]
fn authorize_without_header_is_missing_credential() {
    assert_eq!(authorize(&config(), None, NOW).err(), Some(TokenError::MissingCredential));
    assert_eq!(authorize(&config(), Some("Token x"), NOW).err(), Some(TokenError::MissingCredential));
}

#[test]
fn authorize_valid_bearer_gives_claims() {
    let cfg = config();
    let token = generate_jwt(&cfg, "eve@example.com", NOW).unwrap();
    let header = format!("Bearer {}", token);
    let claims = authorize(&cfg, Some(&header), NOW + 5).unwrap();
    assert_eq!(claims.subject(), "eve@example.com");
    assert_eq!(authorize(&cfg, Some(&token), NOW + 5).err(), Some(TokenError::MissingCredential));
}

#[test]
fn missing_header_never_reaches_handler() {
    let calls = Cell::new(0u32);
    let mw = Auth::new(config()).new_transform(|_req: Request| {
        calls.set(calls.get() + 1);
        ok_response()
    });
    let res = mw.call(Request::new(None), NOW);
    assert_eq!(res.status, 401);
    assert!(res.body.is_empty());
    assert_eq!(calls.get(), 0);
}

#[test]
fn valid_token_reaches_handler_once_with_identity() {
    let cfg = config();
    let token = generate_jwt(&cfg, "frank@example.com", NOW).unwrap();
    let calls = Cell::new(0u32);
    let seen = std::cell::RefCell::new(String::new());
    let mw = Auth::new(cfg).new_transform(|req: Request| {
        calls.set(calls.get() + 1);
        let identity = req.identity.expect("an admitted request carries its identity");
        *seen.borrow_mut() = identity.subject().to_string();
        Response { status: 201, body: b"created".to_vec() }
    });
    let res = mw.call(Request::new(Some(format!("Bearer {}", token))), NOW + 60);
    assert_eq!(calls.get(), 1);
    assert_eq!(seen.borrow().as_str(), "frank@example.com");
    assert_eq!(res.status, 201);
    assert_eq!(res.body, b"created".to_vec());
}

#[test]
fn expired_token_gets_same_response_as_missing_header() {
    let cfg = config();
    let token = generate_jwt(&cfg, "grace@example.com", NOW).unwrap();
    let calls = Cell::new(0u32);
    let mw = Auth::new(cfg).new_transform(|_req: Request| {
        calls.set(calls.get() + 1);
        ok_response()
    });
    let expired = mw.call(Request::new(Some(format!("Bearer {}", token))), NOW + 3600);
    let missing = mw.call(Request::new(None), NOW + 3600);
    assert_eq!(calls.get(), 0);
    assert_eq!(expired.status, missing.status);
    assert_eq!(expired.body, missing.body);
    assert_eq!(expired.status, 401);
}

#[test]
fn bad_tokens_and_schemes_are_refused_alike() {
    let other = JwtConfig::new(b"other".to_vec());
    let foreign = generate_jwt(&other, "henry@example.com", NOW).unwrap();
    let calls = Cell::new(0u32);
    let mw = Auth::new(config()).new_transform(|_req: Request| {
        calls.set(calls.get() + 1);
        ok_response()
    });
    let headers = [
        format!("Bearer {}", foreign),
        "Bearer garbage".to_string(),
        format!("bearer {}", foreign),
        foreign.clone(),
    ];
    for h in headers {
        let res = mw.call(Request::new(Some(h)), NOW + 1);
        assert_eq!(res.status, 401);
        assert!(res.body.is_empty());
    }
    assert_eq!(calls.get(), 0);
}

#[test]
fn unauthorized_response_is_empty_401() {
    let r = Response::unauthorized();
    assert_eq!(r.status, 401);
    assert!(r.body.is_empty());
}
