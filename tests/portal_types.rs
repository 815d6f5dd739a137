use factorio_mods::auth::LoginError;
use factorio_mods::catalog::ErrorResponse;

#[test]
fn login_error_keeps_fields() {
    let e = LoginError::new("login-failed".to_string(), "Bad password".to_string());
    assert_eq!(e.error(), "login-failed");
    assert_eq!(e.message(), "Bad password");
}

#[test]
fn error_response_keeps_fields() {
    let e = ErrorResponse::new("UnknownMod".to_string(), "Mod not found".to_string());
    assert_eq!(e.error(), "UnknownMod");
    assert_eq!(e.message(), "Mod not found");
}
