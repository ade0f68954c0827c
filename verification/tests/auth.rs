//! The authorization step and the token service: login errors, bearer
//! extraction, and the failure modes of token validation.

use cart_token::cart_model::{CartDraft, UpdateCart};
use cart_token::repo::Repo;
use cart_token::response_model::{error_response, success_response, ApiError};
use cart_token::token::{current_timestamp, extract_bearer, issue_token, verify_token};
use cart_token::user_model::{LoginUserSchema, RegisterUserSchema};

fn test_repo() -> Repo {
    Repo::init(b"secret".to_vec())
}

fn register(repo: &mut Repo, name: &str, email: &str, password: &str) {
    repo.register_user(RegisterUserSchema {
        name: name.to_owned(),
        email: email.to_owned(),
        password: password.to_owned(),
    })
    .expect("registration should succeed");
}

fn creds(email: &str, password: &str) -> LoginUserSchema {
    LoginUserSchema { email: email.to_owned(), password: password.to_owned() }
}

#[test]
fn login_failure_is_uniform() {
    let mut repo = test_repo();
    register(&mut repo, "Ann", "ann@example.com", "pw1");

    // Unknown email and wrong credential fail with the very same error.
    let unknown = repo.login_user(&creds("nobody@example.com", "pw1"));
    let wrong = repo.login_user(&creds("ann@example.com", "bad"));
    assert_eq!(unknown.as_ref().err(), Some(&ApiError::InvalidCredentials));
    assert_eq!(unknown.err(), wrong.err());
}

#[test]
fn issued_token_carries_its_claims() {
    let now = current_timestamp();
    let token = issue_token(42, now, b"secret");
    let claims = verify_token(&token, b"secret").expect("fresh token should verify");
    assert_eq!(claims.sub, 42);
    assert_eq!(claims.iat, now);
    assert_eq!(claims.exp, now + 3600);
}

#[test]
fn token_with_wrong_secret_does_not_verify() {
    let now = current_timestamp();
    let token = issue_token(42, now, b"secret");
    assert!(verify_token(&token, b"another-secret").is_none());
}

#[test]
fn extract_bearer_strips_scheme_and_spaces() {
    assert_eq!(extract_bearer("Bearer abc.def.ghi").unwrap(), "abc.def.ghi");
    assert_eq!(extract_bearer("Bearer    tok").unwrap(), "tok");
    assert!(extract_bearer("bearer tok").is_none());
    assert!(extract_bearer("Basic dXNlcjpwdw==").is_none());
    assert!(extract_bearer("").is_none());
    assert!(extract_bearer("Bearer").is_none());
}

#[test]
fn malformed_headers_are_unauthorized_everywhere() {
    let mut repo = test_repo();
    register(&mut repo, "Ann", "ann@example.com", "pw1");
    for header in ["", "garbage", "Bearer ", "Bearer not-a-token", "Token abc"] {
        assert_eq!(
            repo.create_cart(header, CartDraft {
                product_name: "P".to_owned(),
                price: 1,
                qty: 1,
            }).err(),
            Some(ApiError::Unauthorized),
            "header {:?}",
            header,
        );
        assert_eq!(repo.list_all_carts_by_user(header).err(), Some(ApiError::Unauthorized));
        assert_eq!(repo.finding_cart(header, 0).err(), Some(ApiError::Unauthorized));
        assert_eq!(
            repo.update_cart(header, UpdateCart { qty: 2 }, 0).err(),
            Some(ApiError::Unauthorized),
        );
        assert_eq!(repo.delete_cart(header, 0).err(), Some(ApiError::Unauthorized));
    }
}

#[test]
fn expired_token_is_unauthorized() {
    let mut repo = test_repo();
    register(&mut repo, "Ann", "ann@example.com", "pw1");
    // A token issued far in the past is expired at validation time.
    let (_, token) = repo
        .login_user_at(&creds("ann@example.com", "pw1"), 1000)
        .expect("login should succeed");
    let header = format!("Bearer {}", token);
    assert_eq!(repo.list_all_carts_by_user(&header).err(), Some(ApiError::Unauthorized));
    assert_eq!(repo.finding_cart(&header, 0).err(), Some(ApiError::Unauthorized));
}

#[test]
fn token_signed_with_other_secret_is_unauthorized() {
    let mut repo = test_repo();
    register(&mut repo, "Ann", "ann@example.com", "pw1");

    let mut other = Repo::init(b"other-secret".to_vec());
    register(&mut other, "Ann", "ann@example.com", "pw1");
    let (_, foreign_token) =
        other.login_user(&creds("ann@example.com", "pw1")).expect("login should succeed");

    let header = format!("Bearer {}", foreign_token);
    assert_eq!(repo.list_all_carts_by_user(&header).err(), Some(ApiError::Unauthorized));
}

#[test]
fn token_for_unknown_subject_is_unauthorized() {
    let mut repo = test_repo();
    register(&mut repo, "Ann", "ann@example.com", "pw1");
    // Well signed, fresh, but its subject resolves to no stored user.
    let token = issue_token(9999, current_timestamp(), b"secret");
    let header = format!("Bearer {}", token);
    assert_eq!(repo.list_all_carts_by_user(&header).err(), Some(ApiError::Unauthorized));
}

#[test]
fn login_token_authorizes_its_user() {
    let mut repo = test_repo();
    register(&mut repo, "Ann", "ann@example.com", "pw1");
    register(&mut repo, "Bob", "bob@example.com", "pw2");
    let (bob, token) =
        repo.login_user(&creds("bob@example.com", "pw2")).expect("login should succeed");
    let header = format!("Bearer {}", token);
    let validated = repo.validate_user(&header).expect("validation should succeed");
    assert_eq!(validated.id, bob.id);
    assert_eq!(validated.email, "bob@example.com");
}

#[test]
fn response_shells_carry_status_and_message() {
    let e = error_response(ApiError::EmailTaken);
    assert!(!e.status);
    assert_eq!(e.message, "Email already exists");
    let e = error_response(ApiError::InvalidCredentials);
    assert_eq!(e.message, "Invalid username or password");
    let e = error_response(ApiError::Unauthorized);
    assert_eq!(e.message, "Invalid token");
    let e = error_response(ApiError::NotFound);
    assert_eq!(e.message, "Cart item not found");
    let s = success_response("Registration Successfull".to_owned());
    assert!(s.status);
    assert_eq!(s.message, "Registration Successfull");
}
