//! End-to-end flows through the store: registration, login, and the
//! token-guarded cart operations.

use cart_token::cart_model::{CartDraft, UpdateCart};
use cart_token::repo::Repo;
use cart_token::response_model::ApiError;
use cart_token::user_model::{LoginUserSchema, RegisterUserSchema};

fn test_repo() -> Repo {
    Repo::init(b"secret".to_vec())
}

fn register(repo: &mut Repo, name: &str, email: &str, password: &str) -> u64 {
    let r = repo.register_user(RegisterUserSchema {
        name: name.to_owned(),
        email: email.to_owned(),
        password: password.to_owned(),
    });
    r.expect("registration should succeed").id
}

fn login_header(repo: &Repo, email: &str, password: &str) -> String {
    let (_, token) = repo
        .login_user(&LoginUserSchema { email: email.to_owned(), password: password.to_owned() })
        .expect("login should succeed");
    format!("Bearer {}", token)
}

fn draft(name: &str, price: u32, qty: u32) -> CartDraft {
    CartDraft { product_name: name.to_owned(), price, qty }
}

#[test]
fn register_login_create_roundtrip() {
    let mut repo = test_repo();
    let uid = register(&mut repo, "Ann", "ann@example.com", "pw1");
    let header = login_header(&repo, "ann@example.com", "pw1");

    let created = repo.create_cart(&header, draft("Pen", 2, 3)).expect("create should succeed");
    assert_eq!(created.user_id, uid);
    assert_eq!(created.product_name, "Pen");
    assert_eq!(created.price, 2);
    assert_eq!(created.qty, 3);
    assert_eq!(created.total, 6);

    let fetched = repo
        .finding_cart(&header, created.id)
        .expect("get should be authorized")
        .expect("item should be present");
    assert_eq!(fetched.id, created.id);
    assert_eq!(fetched.user_id, uid);
    assert_eq!(fetched.product_name, "Pen");
    assert_eq!(fetched.price, 2);
    assert_eq!(fetched.qty, 3);
    assert_eq!(fetched.total, 6);
    assert_eq!(fetched.created_at, created.created_at);
}

#[test]
fn create_update_delete_example() {
    let mut repo = test_repo();
    register(&mut repo, "Ann", "ann@example.com", "pw1");
    let header = login_header(&repo, "ann@example.com", "pw1");

    let created = repo.create_cart(&header, draft("Pen", 2, 3)).expect("create should succeed");
    assert_eq!(created.total, 6);

    let outcome = repo
        .update_cart(&header, UpdateCart { qty: 5 }, created.id)
        .expect("update should succeed");
    assert!(outcome.matched);
    assert!(outcome.modified);

    let fetched = repo
        .finding_cart(&header, created.id)
        .expect("get should be authorized")
        .expect("item should be present");
    assert_eq!(fetched.qty, 5);
    assert_eq!(fetched.total, 10);
    assert_eq!(fetched.price, 2);

    let deleted = repo.delete_cart(&header, created.id).expect("delete should succeed");
    assert_eq!(deleted.deleted_count, 1);

    let gone = repo.finding_cart(&header, created.id).expect("get should be authorized");
    assert!(gone.is_none());
}

#[test]
fn update_with_same_qty_reports_unmodified() {
    let mut repo = test_repo();
    register(&mut repo, "Ann", "ann@example.com", "pw1");
    let header = login_header(&repo, "ann@example.com", "pw1");
    let created = repo.create_cart(&header, draft("Pen", 7, 4)).expect("create should succeed");

    let outcome = repo
        .update_cart(&header, UpdateCart { qty: 4 }, created.id)
        .expect("update should succeed");
    assert!(outcome.matched);
    assert!(!outcome.modified);

    let fetched = repo.finding_cart(&header, created.id).unwrap().unwrap();
    assert_eq!(fetched.qty, 4);
    assert_eq!(fetched.total, 28);
}

#[test]
fn totals_derived_after_create_and_update() {
    let mut repo = test_repo();
    register(&mut repo, "Ann", "ann@example.com", "pw1");
    let header = login_header(&repo, "ann@example.com", "pw1");

    let a = repo.create_cart(&header, draft("A", 199, 3)).unwrap();
    assert_eq!(a.total, 597);
    let b = repo.create_cart(&header, draft("B", 1000, 0)).unwrap();
    assert_eq!(b.total, 0);

    repo.update_cart(&header, UpdateCart { qty: 11 }, a.id).unwrap();
    let fetched = repo.finding_cart(&header, a.id).unwrap().unwrap();
    assert_eq!(fetched.total, 199 * 11);

    let largest = repo.create_cart(&header, draft("Max", u32::MAX, u32::MAX)).unwrap();
    assert_eq!(largest.total, u32::MAX as u64 * u32::MAX as u64);
}

#[test]
fn list_for_user_sums_stored_totals() {
    let mut repo = test_repo();
    register(&mut repo, "Ann", "ann@example.com", "pw1");
    register(&mut repo, "Bob", "bob@example.com", "pw2");
    let ann = login_header(&repo, "ann@example.com", "pw1");
    let bob = login_header(&repo, "bob@example.com", "pw2");

    repo.create_cart(&ann, draft("A", 2, 3)).unwrap();
    repo.create_cart(&bob, draft("X", 100, 100)).unwrap();
    repo.create_cart(&ann, draft("B", 5, 5)).unwrap();
    repo.create_cart(&ann, draft("C", 1, 0)).unwrap();

    let (items, grand) = repo.list_all_carts_by_user(&ann).expect("list should be authorized");
    assert_eq!(items.len(), 3);
    assert_eq!(items[0].product_name, "A");
    assert_eq!(items[1].product_name, "B");
    assert_eq!(items[2].product_name, "C");
    let sum: u128 = items.iter().map(|c| c.total as u128).sum();
    assert_eq!(grand, sum);
    assert_eq!(grand, 6 + 25 + 0);
}

#[test]
fn list_for_user_empty_is_zero() {
    let mut repo = test_repo();
    register(&mut repo, "Ann", "ann@example.com", "pw1");
    let header = login_header(&repo, "ann@example.com", "pw1");
    let (items, grand) = repo.list_all_carts_by_user(&header).unwrap();
    assert!(items.is_empty());
    assert_eq!(grand, 0);
}

#[test]
fn cross_user_access_looks_like_not_found() {
    let mut repo = test_repo();
    register(&mut repo, "Ann", "ann@example.com", "pw1");
    register(&mut repo, "Bob", "bob@example.com", "pw2");
    let ann = login_header(&repo, "ann@example.com", "pw1");
    let bob = login_header(&repo, "bob@example.com", "pw2");

    let item = repo.create_cart(&ann, draft("Secret", 9, 9)).unwrap();
    let missing_id = item.id + 1000;

    // For Bob, Ann's item id behaves exactly like a nonexistent id.
    assert!(repo.finding_cart(&bob, item.id).unwrap().is_none());
    assert!(repo.finding_cart(&bob, missing_id).unwrap().is_none());
    assert_eq!(
        repo.update_cart(&bob, UpdateCart { qty: 1 }, item.id),
        repo.update_cart(&bob, UpdateCart { qty: 1 }, missing_id),
    );
    assert_eq!(repo.update_cart(&bob, UpdateCart { qty: 1 }, item.id), Err(ApiError::NotFound));
    assert_eq!(repo.delete_cart(&bob, item.id), Err(ApiError::NotFound));
    assert_eq!(repo.delete_cart(&bob, missing_id), Err(ApiError::NotFound));

    // Ann's item is untouched.
    let still = repo.finding_cart(&ann, item.id).unwrap().unwrap();
    assert_eq!(still.qty, 9);
    assert_eq!(still.total, 81);
}

#[test]
fn second_registration_with_same_email_fails() {
    let mut repo = test_repo();
    register(&mut repo, "Ann", "ann@example.com", "pw1");
    let again = repo.register_user(RegisterUserSchema {
        name: "Imposter".to_owned(),
        email: "ann@example.com".to_owned(),
        password: "other".to_owned(),
    });
    assert_eq!(again.err(), Some(ApiError::EmailTaken));
}

#[test]
fn email_comparison_is_exact() {
    let mut repo = test_repo();
    register(&mut repo, "Ann", "ann@example.com", "pw1");
    // A differently-cased email is a different email: registration succeeds.
    let r = repo.register_user(RegisterUserSchema {
        name: "Ann2".to_owned(),
        email: "Ann@example.com".to_owned(),
        password: "pw2".to_owned(),
    });
    assert!(r.is_ok());
}
