//! The library-wide laws: properties that relate several operations, each
//! proved from the contracts and definitions in the other modules.

use vstd::prelude::*;

use crate::cart_model::Cart;
use crate::lookup::{lemma_first_match_none, lemma_first_match_push};
use crate::repo::{
    cart_pred, cart_scoped, carts_of_user, email_pred, login_failure_error, sum_totals,
    user_with_email, user_with_email_pwd, Repo,
};
use crate::response_model::ApiError;
use crate::user_model::User;

verus! {

/// Once a registration has stored a user, the email is taken: the
/// directory then finds a user with it, so a second registration with the
/// same email fails — `register_user_at` returns `Err(EmailTaken)`
/// exactly when the email finds a stored user.
pub proof fn lemma_second_registration_fails(users: Seq<User>, u: User)
    ensures
        user_with_email(users.push(u), u.email@) is Some,
{
    lemma_first_match_push(users, email_pred(u.email@), u);
}

/// An unknown email fails the credential lookup outright, whatever the
/// credential: no stored user matches the pair.
pub proof fn lemma_unknown_email_fails_login(users: Seq<User>, email: Seq<char>, pwd: Seq<char>)
    requires
        user_with_email(users, email) is None,
    ensures
        user_with_email_pwd(users, email, pwd) is None,
    decreases users.len(),
{
    if users.len() > 0 {
        lemma_unknown_email_fails_login(users.drop_first(), email, pwd);
    }
}

/// A failed login reveals nothing about why it failed: an unknown email
/// in one directory and a wrong credential against another yield the very
/// same error.
pub proof fn lemma_login_failure_uniform(
    users1: Seq<User>,
    email1: Seq<char>,
    pwd1: Seq<char>,
    users2: Seq<User>,
    email2: Seq<char>,
    pwd2: Seq<char>,
)
    requires
        user_with_email(users1, email1) is None,
        user_with_email_pwd(users2, email2, pwd2) is None,
    ensures
        login_failure_error(users1, email1, pwd1) == login_failure_error(users2, email2, pwd2),
        login_failure_error(users1, email1, pwd1) == Some(ApiError::InvalidCredentials),
{
    lemma_unknown_email_fails_login(users1, email1, pwd1);
}

/// Every stored cart item of a well-formed store carries the derived
/// total `price * qty` — immediately after creation and after any
/// successful update, since both leave the store well-formed.
pub proof fn lemma_totals_derived(repo: Repo)
    requires
        repo.wf(),
    ensures
        forall|i: int| 0 <= i < repo.carts@.len() ==> repo.carts@[i].total_derived(),
{
}

/// An item id owned by a different user behaves exactly like a
/// nonexistent id: the scoped lookup that `finding_cart`, `update_cart`
/// and `delete_cart` go through finds nothing, so another user's data is
/// never returned, updated or deleted.
pub proof fn lemma_cross_user_scoping(carts: Seq<Cart>, cart_id: u64, user_id: u64)
    requires
        forall|i: int|
            0 <= i < carts.len() && carts[i].id == cart_id ==> carts[i].user_id != user_id,
    ensures
        cart_scoped(carts, cart_id, user_id) is None,
{
    lemma_first_match_none(carts, cart_pred(cart_id, user_id));
}

/// Round trip: once a creation has pushed an item with a fresh id, the
/// scoped lookup for its id and owner returns exactly that item — so a
/// `create_cart_at` followed by `finding_cart` hands back the stored item,
/// whose fields `create_cart_at` pins to the creation input.
pub proof fn lemma_create_then_get(pre: Repo, post: Repo, c: Cart)
    requires
        pre.wf(),
        c.id == pre.next_cart_id,
        post.carts@ == pre.carts@.push(c),
    ensures
        cart_scoped(post.carts@, c.id, c.user_id) == Some(c),
{
    assert(forall|i: int|
        0 <= i < pre.carts@.len() ==> !(cart_pred(c.id, c.user_id)(pre.carts@[i])));
    lemma_first_match_none(pre.carts@, cart_pred(c.id, c.user_id));
    lemma_first_match_push(pre.carts@, cart_pred(c.id, c.user_id), c);
}

/// A malformed header or a token that is not well signed under the
/// store's secret authorizes nobody, so every cart operation refuses it
/// with `Unauthorized`.
pub proof fn lemma_bad_token_unauthorized(repo: Repo, header: Seq<char>)
    requires
        crate::token::spec_bearer_token(header) matches Some(tok) ==> crate::token::token_claims(
            tok,
            repo.secret@,
        ) is None,
    ensures
        repo.authorized_user(header) is None,
{
}

/// The grand total of a listing is the sum of the stored totals of
/// exactly the returned items, and every stored item of the user is
/// among them: appending an item for the user grows the listing and its
/// sum by exactly that item.
pub proof fn lemma_listing_sum(carts: Seq<Cart>, c: Cart, user_id: u64)
    requires
        c.user_id == user_id,
    ensures
        carts_of_user(carts.push(c), user_id) == carts_of_user(carts, user_id).push(c),
        sum_totals(carts_of_user(carts.push(c), user_id)) == sum_totals(
            carts_of_user(carts, user_id),
        ) + c.total,
{
    assert(carts.push(c).drop_last() =~= carts);
    let grown = carts_of_user(carts, user_id).push(c);
    assert(grown.drop_last() =~= carts_of_user(carts, user_id));
}

} // verus!
