use yawp::APIError;
use yawp::check_status;

#[test]
fn bad_request_is_400() {
    let r = check_status(400);
    match r {
        Err(APIError::BadRequest(m)) => {
            assert_eq!(m, "Bad request: did you provide API credentials as env values?");
        }
        _ => panic!("expected BadRequest"),
    }
}

#[test]
fn unauthorized_is_401() {
    let r = check_status(401);
    match r {
        Err(APIError::Unauthorized(m)) => {
            assert_eq!(m, "Unauthorized: check your credentials are correct");
        }
        _ => panic!("expected Unauthorized"),
    }
}

#[test]
fn forbidden_is_403() {
    let r = check_status(403);
    match r {
        Err(APIError::Forbidden(m)) => {
            assert_eq!(m, "Access forbidden: have you been banned?");
        }
        _ => panic!("expected Forbidden"),
    }
}

#[test]
fn too_many_requests_is_423() {
    let r = check_status(423);
    match r {
        Err(APIError::TooManyRequests(m)) => {
            assert_eq!(m, "Too many requests error");
        }
        _ => panic!("expected TooManyRequests"),
    }
}

#[test]
fn every_5xx_is_a_server_error() {
    for code in [500u16, 502, 550, 599] {
        let r = check_status(code);
        match r {
            Err(APIError::ServerError(m)) => {
                assert_eq!(m, "Server error: it's not you, it's them");
            }
            _ => panic!("expected ServerError for {}", code),
        }
    }
}

#[test]
fn other_codes_are_unknown() {
    for code in [200u16, 201, 404, 418, 429, 499, 600] {
        let r = check_status(code);
        assert!(matches!(r, Err(APIError::Unknown)), "expected Unknown for {}", code);
    }
}

#[test]
fn unknown_error_message() {
    let e = APIError::Unknown;
    assert_eq!(e.message(), "Unknown error");
}

#[test]
fn error_message_carries_its_text() {
    let e = APIError::ServerError(String::from("Server error: it's not you, it's them"));
    assert_eq!(e.message(), "Server error: it's not you, it's them");
}
