//! The store and the operations on it: user registration and login, the
//! authorization step, and the token-guarded cart operations.

use vstd::prelude::*;

use crate::cart_model::{Cart, CartDraft, DeleteOutcome, UpdateCart, UpdateOutcome};
use crate::lookup::{first_match, lemma_first_match_at, lemma_first_match_none};
use crate::response_model::ApiError;
use crate::token::{
    current_timestamp, extract_bearer, issue_token, spec_bearer_token, token_claims, verify_token,
    TOKEN_TTL_SECONDS,
};
use crate::user_model::{LoginUserSchema, RegisterUserSchema, User};

verus! {

/// Matches a user by exact email.
pub open spec fn email_pred(email: Seq<char>) -> spec_fn(User) -> bool {
    |u: User| u.email@ == email
}

/// Matches a user by exact email and credential pair.
pub open spec fn email_pwd_pred(email: Seq<char>, pwd: Seq<char>) -> spec_fn(User) -> bool {
    |u: User| u.email@ == email && u.password@ == pwd
}

/// Matches a user by id.
pub open spec fn id_pred(id: u64) -> spec_fn(User) -> bool {
    |u: User| u.id == id
}

/// Matches a cart item by its id AND its owning user's id: the scoped
/// lookup every read and mutation of a cart item goes through.
pub open spec fn cart_pred(cart_id: u64, user_id: u64) -> spec_fn(Cart) -> bool {
    |c: Cart| c.id == cart_id && c.user_id == user_id
}

/// The stored user with the given email, if any.
pub open spec fn user_with_email(users: Seq<User>, email: Seq<char>) -> Option<User> {
    first_match(users, email_pred(email))
}

/// The stored user with the given email and credential pair, if any.
pub open spec fn user_with_email_pwd(users: Seq<User>, email: Seq<char>, pwd: Seq<char>) -> Option<
    User,
> {
    first_match(users, email_pwd_pred(email, pwd))
}

/// The stored user with the given id, if any.
pub open spec fn user_with_id(users: Seq<User>, id: u64) -> Option<User> {
    first_match(users, id_pred(id))
}

/// The stored cart item with the given id owned by the given user, if
/// any: an item owned by a different user is not found here, by design.
pub open spec fn cart_scoped(carts: Seq<Cart>, cart_id: u64, user_id: u64) -> Option<Cart> {
    first_match(carts, cart_pred(cart_id, user_id))
}

/// The error mandated for a failed login, regardless of whether the email
/// was unknown or the credential wrong.
pub open spec fn login_failure_error(users: Seq<User>, email: Seq<char>, pwd: Seq<char>) -> Option<
    ApiError,
> {
    if user_with_email_pwd(users, email, pwd) is None {
        Some(ApiError::InvalidCredentials)
    } else {
        None
    }
}

/// The stored total an item carries after its quantity is updated.
pub open spec fn derived_total(price: u32, qty: u32) -> u64 {
    (price as int * qty as int) as u64
}

/// A cart item after an update of its quantity: the new quantity, the
/// recomputed total, everything else kept.
pub open spec fn updated_cart(c: Cart, qty: u32) -> Cart {
    Cart { qty, total: derived_total(c.price, qty), ..c }
}

/// The cart items owned by the given user, in stored order.
pub open spec fn carts_of_user(carts: Seq<Cart>, user_id: u64) -> Seq<Cart>
    decreases carts.len(),
{
    if carts.len() == 0 {
        Seq::empty()
    } else if carts.last().user_id == user_id {
        carts_of_user(carts.drop_last(), user_id).push(carts.last())
    } else {
        carts_of_user(carts.drop_last(), user_id)
    }
}

/// The sum of the stored totals of the given items — stored, not
/// recomputed from prices and quantities.
pub open spec fn sum_totals(carts: Seq<Cart>) -> int
    decreases carts.len(),
{
    if carts.len() == 0 {
        0
    } else {
        sum_totals(carts.drop_last()) + carts.last().total
    }
}

/// The product of two `u32` values fits in a `u64`.
proof fn lemma_u32_product_fits(a: u32, b: u32)
    ensures
        0 <= a as int * b as int,
        (a as int * b as int) < (u64::MAX as int),
{
    assert(a as int * b as int <= u32::MAX as int * u32::MAX as int) by (nonlinear_arith)
        requires
            0 <= a as int <= u32::MAX as int,
            0 <= b as int <= u32::MAX as int,
    ;
}

/// The store: the user directory, the cart items, the signing secret, and
/// the id counters that keep fresh ids unique.
pub struct Repo {
    pub users: Vec<User>,
    pub carts: Vec<Cart>,
    pub secret: Vec<u8>,
    pub next_user_id: u64,
    pub next_cart_id: u64,
}

impl Repo {
    /// Well-formedness: emails and user ids are unique, cart ids are
    /// unique, ids stay below the counters that mint them, and every
    /// stored total is the derived product of its price and quantity.
    pub open spec fn wf(self) -> bool {
        &&& forall|i: int, j: int|
            0 <= i < j < self.users@.len() ==> self.users@[i].email@ != self.users@[j].email@
        &&& forall|i: int, j: int|
            0 <= i < j < self.users@.len() ==> self.users@[i].id != self.users@[j].id
        &&& forall|i: int|
            0 <= i < self.users@.len() ==> self.users@[i].id < self.next_user_id
        &&& forall|i: int, j: int|
            0 <= i < j < self.carts@.len() ==> self.carts@[i].id != self.carts@[j].id
        &&& forall|i: int|
            0 <= i < self.carts@.len() ==> self.carts@[i].id < self.next_cart_id
        &&& forall|i: int|
            0 <= i < self.carts@.len() ==> self.carts@[i].total_derived()
    }

    /// The user the presented `Authorization` header speaks for: the
    /// header must carry a bearer token, the token must be well signed
    /// under the store's secret, and its subject must resolve to a stored
    /// user.  Expiry is checked by the verifier at its clock and is not
    /// visible here.
    pub open spec fn authorized_user(self, header: Seq<char>) -> Option<User> {
        match spec_bearer_token(header) {
            Some(tok) => match token_claims(tok, self.secret@) {
                Some(c) => user_with_id(self.users@, c.0),
                None => None,
            },
            None => None,
        }
    }

    /// An empty store signing tokens with the given secret.
    pub fn init(secret: Vec<u8>) -> (r: Repo)
        ensures
            r.wf(),
            r.users@ == Seq::<User>::empty(),
            r.carts@ == Seq::<Cart>::empty(),
            r.secret == secret,
            r.next_user_id == 0,
            r.next_cart_id == 0,
    {
        Repo { users: Vec::new(), carts: Vec::new(), secret, next_user_id: 0, next_cart_id: 0 }
    }

    /// Looks a user up by exact email.
    pub fn find_by_email(&self, email: &String) -> (r: Option<User>)
        ensures
            r == user_with_email(self.users@, email@),
            r is None ==> forall|i: int|
                0 <= i < self.users@.len() ==> self.users@[i].email@ != email@,
    {
        let n = self.users.len();
        let mut i: usize = 0;
        while i < n
            invariant
                0 <= i <= n,
                n == self.users@.len(),
                forall|j: int| 0 <= j < i ==> self.users@[j].email@ != email@,
            decreases n - i,
        {
            if self.users[i].email == *email {
                proof {
                    lemma_first_match_at(self.users@, email_pred(email@), i as int);
                }
                return Some(self.users[i].clone());
            }
            i += 1;
        }
        proof {
            lemma_first_match_none(self.users@, email_pred(email@));
        }
        None
    }

    /// Looks a user up by the exact email and credential pair; no match on
    /// either field finds nothing.
    pub fn find_by_email_pwd(&self, email: &String, pwd: &String) -> (r: Option<User>)
        ensures
            r == user_with_email_pwd(self.users@, email@, pwd@),
            r is None ==> forall|i: int|
                0 <= i < self.users@.len() ==> !(self.users@[i].email@ == email@
                    && self.users@[i].password@ == pwd@),
    {
        let n = self.users.len();
        let mut i: usize = 0;
        while i < n
            invariant
                0 <= i <= n,
                n == self.users@.len(),
                forall|j: int|
                    0 <= j < i ==> !(self.users@[j].email@ == email@ && self.users@[j].password@
                        == pwd@),
            decreases n - i,
        {
            if self.users[i].email == *email && self.users[i].password == *pwd {
                proof {
                    lemma_first_match_at(self.users@, email_pwd_pred(email@, pwd@), i as int);
                }
                return Some(self.users[i].clone());
            }
            i += 1;
        }
        proof {
            lemma_first_match_none(self.users@, email_pwd_pred(email@, pwd@));
        }
        None
    }

    /// Looks a user up by id.
    pub fn find_user_by_id(&self, id: u64) -> (r: Option<User>)
        ensures
            r == user_with_id(self.users@, id),
            r is None ==> forall|i: int| 0 <= i < self.users@.len() ==> self.users@[i].id != id,
    {
        let n = self.users.len();
        let mut i: usize = 0;
        while i < n
            invariant
                0 <= i <= n,
                n == self.users@.len(),
                forall|j: int| 0 <= j < i ==> self.users@[j].id != id,
            decreases n - i,
        {
            if self.users[i].id == id {
                proof {
                    lemma_first_match_at(self.users@, id_pred(id), i as int);
                }
                return Some(self.users[i].clone());
            }
            i += 1;
        }
        proof {
            lemma_first_match_none(self.users@, id_pred(id));
        }
        None
    }

    /// Registers a new user at the given creation time: fails with
    /// `EmailTaken` exactly when the email is already stored; otherwise
    /// stores and returns a record with a fresh id, the given fields and
    /// the given timestamp, the credential kept verbatim.
    pub fn register_user_at(&mut self, new_user: RegisterUserSchema, now: u64) -> (r: Result<
        User,
        ApiError,
    >)
        requires
            old(self).wf(),
            old(self).next_user_id < u64::MAX,
        ensures
            final(self).wf(),
            final(self).carts == old(self).carts,
            final(self).secret == old(self).secret,
            final(self).next_cart_id == old(self).next_cart_id,
            match r {
                Ok(u) => {
                    &&& user_with_email(old(self).users@, new_user.email@) is None
                    &&& u == (User {
                        id: old(self).next_user_id,
                        name: new_user.name,
                        email: new_user.email,
                        password: new_user.password,
                        created_at: now,
                    })
                    &&& final(self).users@ == old(self).users@.push(u)
                    &&& final(self).next_user_id == old(self).next_user_id + 1
                },
                Err(e) => {
                    &&& e == ApiError::EmailTaken
                    &&& user_with_email(old(self).users@, new_user.email@) is Some
                    &&& *final(self) == *old(self)
                },
            },
    {
        match self.find_by_email(&new_user.email) {
            Some(_) => Err(ApiError::EmailTaken),
            None => {
                let u = User {
                    id: self.next_user_id,
                    name: new_user.name,
                    email: new_user.email,
                    password: new_user.password,
                    created_at: now,
                };
                let stored = u.clone();
                self.users.push(stored);
                self.next_user_id += 1;
                Ok(u)
            },
        }
    }

    /// Registers a new user, stamped with the current time; otherwise
    /// exactly [`Repo::register_user_at`].
    pub fn register_user(&mut self, new_user: RegisterUserSchema) -> (r: Result<User, ApiError>)
        requires
            old(self).wf(),
            old(self).next_user_id < u64::MAX,
        ensures
            final(self).wf(),
            final(self).carts == old(self).carts,
            final(self).secret == old(self).secret,
            final(self).next_cart_id == old(self).next_cart_id,
            match r {
                Ok(u) => {
                    &&& user_with_email(old(self).users@, new_user.email@) is None
                    &&& u.id == old(self).next_user_id
                    &&& u.name == new_user.name
                    &&& u.email == new_user.email
                    &&& u.password == new_user.password
                    &&& final(self).users@ == old(self).users@.push(u)
                    &&& final(self).next_user_id == old(self).next_user_id + 1
                },
                Err(e) => {
                    &&& e == ApiError::EmailTaken
                    &&& user_with_email(old(self).users@, new_user.email@) is Some
                    &&& *final(self) == *old(self)
                },
            },
    {
        let now = current_timestamp();
        self.register_user_at(new_user, now)
    }

    /// Logs a user in at the given clock reading: on an exact email and
    /// credential match, returns the user and a signed token asserting
    /// their id, issued at `now` and expiring `TOKEN_TTL_SECONDS` later.
    /// Any failure is the one same `InvalidCredentials`, so a caller
    /// cannot tell an unknown email from a wrong credential.
    pub fn login_user_at(&self, user: &LoginUserSchema, now: u64) -> (r: Result<
        (User, String),
        ApiError,
    >)
        requires
            now + TOKEN_TTL_SECONDS <= u64::MAX,
        ensures
            match r {
                Ok((u, tok)) => {
                    &&& user_with_email_pwd(self.users@, user.email@, user.password@) == Some(u)
                    &&& token_claims(tok@, self.secret@) == Some(
                        (u.id, now, (now + TOKEN_TTL_SECONDS) as u64),
                    )
                },
                Err(e) => login_failure_error(self.users@, user.email@, user.password@) == Some(e),
            },
            r is Err <==> user_with_email_pwd(self.users@, user.email@, user.password@) is None,
    {
        match self.find_by_email_pwd(&user.email, &user.password) {
            Some(u) => {
                let token = issue_token(u.id, now, self.secret.as_slice());
                Ok((u, token))
            },
            None => Err(ApiError::InvalidCredentials),
        }
    }

    /// Logs a user in at the current time; the token's issued-at is the
    /// clock's reading, and its expiry `TOKEN_TTL_SECONDS` later.
    pub fn login_user(&self, user: &LoginUserSchema) -> (r: Result<(User, String), ApiError>)
        ensures
            match r {
                Ok((u, tok)) => {
                    &&& user_with_email_pwd(self.users@, user.email@, user.password@) == Some(u)
                    &&& token_claims(tok@, self.secret@) matches Some(c) && c.0 == u.id && c.2
                        == c.1 + TOKEN_TTL_SECONDS
                },
                Err(e) => login_failure_error(self.users@, user.email@, user.password@) == Some(e),
            },
            r is Err <==> user_with_email_pwd(self.users@, user.email@, user.password@) is None,
    {
        let now = current_timestamp();
        self.login_user_at(user, now)
    }

    /// The mandatory authorization step of every cart operation: resolves
    /// a raw `Authorization` header value to the stored user it speaks
    /// for, or fails with `Unauthorized` —
    /// when the header is absent the bearer scheme, the token is
    /// malformed, wrongly signed or expired, or the token's subject no
    /// longer resolves to a user.
    pub fn validate_user(&self, header: &str) -> (r: Result<User, ApiError>)
        ensures
            r matches Ok(u) ==> self.authorized_user(header@) == Some(u),
            r matches Err(e) ==> e == ApiError::Unauthorized,
            self.authorized_user(header@) is None ==> r is Err,
    {
        let token = match extract_bearer(header) {
            Some(t) => t,
            None => {
                return Err(ApiError::Unauthorized);
            },
        };
        let claims = match verify_token(token.as_str(), self.secret.as_slice()) {
            Some(c) => c,
            None => {
                return Err(ApiError::Unauthorized);
            },
        };
        match self.find_user_by_id(claims.sub) {
            Some(u) => Ok(u),
            None => Err(ApiError::Unauthorized),
        }
    }

    /// The index of the cart item with the given id owned by the given
    /// user, if any: the executable side of the scoped lookup.
    fn find_cart_index(&self, cart_id: u64, user_id: u64) -> (r: Option<usize>)
        ensures
            match r {
                Some(i) => {
                    &&& i < self.carts@.len()
                    &&& cart_scoped(self.carts@, cart_id, user_id) == Some(self.carts@[i as int])
                    &&& self.carts@[i as int].id == cart_id
                    &&& self.carts@[i as int].user_id == user_id
                },
                None => cart_scoped(self.carts@, cart_id, user_id) is None,
            },
    {
        let n = self.carts.len();
        let mut i: usize = 0;
        while i < n
            invariant
                0 <= i <= n,
                n == self.carts@.len(),
                forall|j: int|
                    0 <= j < i ==> !(self.carts@[j].id == cart_id && self.carts@[j].user_id
                        == user_id),
            decreases n - i,
        {
            if self.carts[i].id == cart_id && self.carts[i].user_id == user_id {
                proof {
                    lemma_first_match_at(self.carts@, cart_pred(cart_id, user_id), i as int);
                }
                return Some(i);
            }
            i += 1;
        }
        proof {
            lemma_first_match_none(self.carts@, cart_pred(cart_id, user_id));
        }
        None
    }

    /// Creates a cart item at the given creation time for the user the
    /// header authorizes: the owning user id is stamped from the
    /// authorized user, never from the caller; the stored total is the
    /// derived product `price * qty`; the item gets a fresh id.  When the
    /// authorization fails, the operation returns `Unauthorized` and the
    /// store is left untouched.
    pub fn create_cart_at(&mut self, header: &str, new_cart: CartDraft, now: u64) -> (r: Result<
        Cart,
        ApiError,
    >)
        requires
            old(self).wf(),
            old(self).next_cart_id < u64::MAX,
        ensures
            final(self).wf(),
            final(self).users == old(self).users,
            final(self).secret == old(self).secret,
            final(self).next_user_id == old(self).next_user_id,
            match r {
                Ok(c) => old(self).authorized_user(header@) matches Some(u) && c == (Cart {
                    id: old(self).next_cart_id,
                    user_id: u.id,
                    product_name: new_cart.product_name,
                    price: new_cart.price,
                    qty: new_cart.qty,
                    total: derived_total(new_cart.price, new_cart.qty),
                    created_at: now,
                }) && final(self).carts@ == old(self).carts@.push(c) && final(self).next_cart_id
                    == old(self).next_cart_id + 1,
                Err(e) => e == ApiError::Unauthorized && *final(self) == *old(self),
            },
            old(self).authorized_user(header@) is None ==> r is Err,
    {
        let user = match self.validate_user(header) {
            Ok(u) => u,
            Err(_) => {
                return Err(ApiError::Unauthorized);
            },
        };
        proof {
            lemma_u32_product_fits(new_cart.price, new_cart.qty);
        }
        let total = (new_cart.price as u64) * (new_cart.qty as u64);
        let c = Cart {
            id: self.next_cart_id,
            user_id: user.id,
            product_name: new_cart.product_name,
            price: new_cart.price,
            qty: new_cart.qty,
            total,
            created_at: now,
        };
        let stored = c.clone();
        self.carts.push(stored);
        self.next_cart_id += 1;
        Ok(c)
    }

    /// Creates a cart item stamped with the current time; otherwise
    /// exactly [`Repo::create_cart_at`].
    pub fn create_cart(&mut self, header: &str, new_cart: CartDraft) -> (r: Result<Cart, ApiError>)
        requires
            old(self).wf(),
            old(self).next_cart_id < u64::MAX,
        ensures
            final(self).wf(),
            final(self).users == old(self).users,
            final(self).secret == old(self).secret,
            final(self).next_user_id == old(self).next_user_id,
            match r {
                Ok(c) => {
                    &&& old(self).authorized_user(header@) matches Some(u) && c.user_id == u.id
                    &&& c.id == old(self).next_cart_id
                    &&& c.product_name == new_cart.product_name
                    &&& c.price == new_cart.price
                    &&& c.qty == new_cart.qty
                    &&& c.total == derived_total(new_cart.price, new_cart.qty)
                    &&& final(self).carts@ == old(self).carts@.push(c)
                    &&& final(self).next_cart_id == old(self).next_cart_id + 1
                },
                Err(e) => e == ApiError::Unauthorized && *final(self) == *old(self),
            },
            old(self).authorized_user(header@) is None ==> r is Err,
    {
        let now = current_timestamp();
        self.create_cart_at(header, new_cart, now)
    }

    /// Fetches the cart item with the given id for the user the header
    /// authorizes, through the scoped lookup: an absent item and one
    /// owned by a different user are both `None`, indistinguishably.
    pub fn finding_cart(&self, header: &str, cart_id: u64) -> (r: Result<Option<Cart>, ApiError>)
        ensures
            match r {
                Ok(opt) => self.authorized_user(header@) matches Some(u) && opt == cart_scoped(
                    self.carts@,
                    cart_id,
                    u.id,
                ),
                Err(e) => e == ApiError::Unauthorized,
            },
            self.authorized_user(header@) is None ==> r is Err,
    {
        let user = match self.validate_user(header) {
            Ok(u) => u,
            Err(_) => {
                return Err(ApiError::Unauthorized);
            },
        };
        match self.find_cart_index(cart_id, user.id) {
            Some(i) => Ok(Some(self.carts[i].clone())),
            None => Ok(None),
        }
    }

    /// Lists the cart items owned by the user the header authorizes, in
    /// stored order, together with the grand total: the sum of the
    /// returned items' stored totals.
    pub fn list_all_carts_by_user(&self, header: &str) -> (r: Result<(Vec<Cart>, u128), ApiError>)
        ensures
            match r {
                Ok(listing) => {
                    &&& self.authorized_user(header@) matches Some(u) && listing.0@
                        == carts_of_user(self.carts@, u.id)
                    &&& listing.1 as int == sum_totals(listing.0@)
                },
                Err(e) => e == ApiError::Unauthorized,
            },
            self.authorized_user(header@) is None ==> r is Err,
    {
        let user = match self.validate_user(header) {
            Ok(u) => u,
            Err(_) => {
                return Err(ApiError::Unauthorized);
            },
        };
        let n = self.carts.len();
        let mut items: Vec<Cart> = Vec::new();
        let mut grand: u128 = 0;
        let mut i: usize = 0;
        while i < n
            invariant
                0 <= i <= n,
                n == self.carts@.len(),
                items@ == carts_of_user(self.carts@.take(i as int), user.id),
                grand as int == sum_totals(items@),
                sum_totals(items@) <= items@.len() * (u64::MAX as int),
                items@.len() <= i,
            decreases n - i,
        {
            proof {
                assert(self.carts@.take(i + 1 as int).drop_last() =~= self.carts@.take(i as int));
            }
            if self.carts[i].user_id == user.id {
                let c = self.carts[i].clone();
                proof {
                    let len = items@.len() as int;
                    assert((len + 1) * (u64::MAX as int) == len * (u64::MAX as int) + (
                    u64::MAX as int)) by (nonlinear_arith);
                    assert((len + 1) * (u64::MAX as int) <= (u64::MAX as int) * (u64::MAX as int))
                        by (nonlinear_arith)
                        requires
                            0 <= len + 1 <= u64::MAX as int,
                    ;
                    assert((u64::MAX as int) * (u64::MAX as int) < u128::MAX as int) by (nonlinear_arith);
                    assert(items@.push(c).drop_last() =~= items@);
                }
                grand = grand + (c.total as u128);
                items.push(c);
            }
            i += 1;
        }
        proof {
            assert(self.carts@.take(n as int) =~= self.carts@);
        }
        Ok((items, grand))
    }

    /// Updates the quantity of the cart item with the given id for the
    /// user the header authorizes: the scoped lookup must find the item
    /// (else `NotFound`), and the stored total is recomputed from the
    /// stored price and the new quantity.  The outcome reports a match,
    /// and a modification exactly when the quantity changed.
    pub fn update_cart(&mut self, header: &str, cart_data: UpdateCart, cart_id: u64) -> (r: Result<
        UpdateOutcome,
        ApiError,
    >)
        requires
            old(self).wf(),
        ensures
            final(self).wf(),
            final(self).users == old(self).users,
            final(self).secret == old(self).secret,
            final(self).next_user_id == old(self).next_user_id,
            final(self).next_cart_id == old(self).next_cart_id,
            match r {
                Ok(o) => {
                    &&& old(self).authorized_user(header@) matches Some(u) && cart_scoped(
                        old(self).carts@,
                        cart_id,
                        u.id,
                    ) matches Some(c) && o.modified == (cart_data.qty != c.qty) && (exists|i: int|
                        0 <= i < old(self).carts@.len() && old(self).carts@[i] == c && final(self).carts@ == old(self).carts@.update(i, updated_cart(c, cart_data.qty)))
                    &&& o.matched
                },
                Err(e) => {
                    &&& *final(self) == *old(self)
                    &&& (e == ApiError::Unauthorized || e == ApiError::NotFound)
                    &&& (e == ApiError::NotFound ==> (old(self).authorized_user(header@) matches Some(u)
                        && cart_scoped(old(self).carts@, cart_id, u.id) is None))
                },
            },
            old(self).authorized_user(header@) is None ==> r == Err::<UpdateOutcome, ApiError>(
                ApiError::Unauthorized,
            ),
    {
        let user = match self.validate_user(header) {
            Ok(u) => u,
            Err(_) => {
                return Err(ApiError::Unauthorized);
            },
        };
        let idx = match self.find_cart_index(cart_id, user.id) {
            Some(i) => i,
            None => {
                return Err(ApiError::NotFound);
            },
        };
        let existing = self.carts[idx].clone();
        proof {
            lemma_u32_product_fits(existing.price, cart_data.qty);
        }
        let total = (existing.price as u64) * (cart_data.qty as u64);
        let modified = cart_data.qty != existing.qty;
        let replacement = Cart { qty: cart_data.qty, total, ..existing };
        proof {
            assert(replacement == updated_cart(old(self).carts@[idx as int], cart_data.qty));
        }
        self.carts[idx] = replacement;
        Ok(UpdateOutcome { matched: true, modified })
    }

    /// Deletes the cart item with the given id for the user the header
    /// authorizes: the scoped lookup must find the item (else
    /// `NotFound`), and exactly that item is removed.
    pub fn delete_cart(&mut self, header: &str, cart_id: u64) -> (r: Result<DeleteOutcome, ApiError>)
        requires
            old(self).wf(),
        ensures
            final(self).wf(),
            final(self).users == old(self).users,
            final(self).secret == old(self).secret,
            final(self).next_user_id == old(self).next_user_id,
            final(self).next_cart_id == old(self).next_cart_id,
            match r {
                Ok(o) => {
                    &&& old(self).authorized_user(header@) matches Some(u) && cart_scoped(
                        old(self).carts@,
                        cart_id,
                        u.id,
                    ) matches Some(c) && (exists|i: int|
                        0 <= i < old(self).carts@.len() && old(self).carts@[i] == c && final(self).carts@ == old(self).carts@.remove(i))
                    &&& o.deleted_count == 1
                },
                Err(e) => {
                    &&& *final(self) == *old(self)
                    &&& (e == ApiError::Unauthorized || e == ApiError::NotFound)
                    &&& (e == ApiError::NotFound ==> (old(self).authorized_user(header@) matches Some(u)
                        && cart_scoped(old(self).carts@, cart_id, u.id) is None))
                },
            },
            old(self).authorized_user(header@) is None ==> r == Err::<DeleteOutcome, ApiError>(
                ApiError::Unauthorized,
            ),
    {
        let user = match self.validate_user(header) {
            Ok(u) => u,
            Err(_) => {
                return Err(ApiError::Unauthorized);
            },
        };
        let idx = match self.find_cart_index(cart_id, user.id) {
            Some(i) => i,
            None => {
                return Err(ApiError::NotFound);
            },
        };
        self.carts.remove(idx);
        Ok(DeleteOutcome { deleted_count: 1 })
    }
}

} // verus!
