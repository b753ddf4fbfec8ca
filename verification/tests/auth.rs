use risk_management::control::error::Error;
use risk_management::AccessControl;

#[test]
fn test_whitelist() {
    let auth = AccessControl::new().with_whitelist(vec![123, 456]);
    assert!(auth.is_authorized(123));
    assert!(auth.is_authorized(456));
    assert!(!auth.is_authorized(789));
}

#[test]
fn test_no_whitelist() {
    let auth = AccessControl::new();
    assert!(auth.is_authorized(123));
    assert!(auth.is_authorized(999));
}

#[test]
fn test_admins() {
    let auth = AccessControl::new().with_admins(vec![123]);
    assert!(auth.is_admin(123));
    assert!(!auth.is_admin(456));
}

#[test]
fn test_authorize_error_names_user() {
    let auth = AccessControl::new().with_whitelist(vec![1]);
    assert!(auth.authorize(1).is_ok());
    match auth.authorize(42) {
        Err(Error::Unauthorized(id)) => assert_eq!(id, 42),
        _ => panic!("expected an unauthorized error"),
    }
}

#[test]
fn test_whitelist_does_not_grant_admin() {
    let auth = AccessControl::new().with_whitelist(vec![5]).with_admins(vec![6]);
    assert!(auth.is_authorized(5));
    assert!(!auth.is_admin(5));
    assert!(auth.is_admin(6));
    assert!(!auth.is_authorized(6));
}
