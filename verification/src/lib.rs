//! An authenticated shopping-cart library.
//!
//! Users register and log in against a user directory; a login issues a
//! signed, time-bounded bearer token.  Every cart operation first resolves
//! the presented `Authorization` header to an owning user and then acts on
//! that user's cart items alone: items are created with a derived total
//! (`total == price * qty`), listed with a grand total, and fetched,
//! updated or deleted only through a lookup scoped by both the item id and
//! the owning user's id.

pub mod cart_model;
pub mod laws;
pub mod lookup;
pub mod repo;
pub mod response_model;
pub mod token;
pub mod user_model;
