//! The remote-client protocol: failure taxonomy, status-code
//! classification, and the arithmetic of paginated fetches.
//!
//! The HTTP calls themselves are I/O and stay outside the library.
//! What a response means — which statuses count as success, which
//! force a logout, how a page is stamped with its starred order and
//! whether a further page is owed — is decided and verified here.

use vstd::prelude::*;
use crate::numfmt::{spec_decimal, u32_to_decimal};
use crate::repository::Repository;

verus! {

/// Highest page number a fetch-everything loop will ask for.
pub const MAX_FETCH_PAGES: u32 = 500;

/// Error indicating the credential has expired or is invalid.
#[derive(Debug, Clone, Copy)]
pub struct TokenExpiredError;

impl TokenExpiredError {
    /// The description this error carries.
    pub fn message(&self) -> (r: String)
        ensures
            r@ == "Token expired or invalid"@,
    {
        "Token expired or invalid".to_owned()
    }
}

/// A failed remote call, classified.
#[derive(Debug, Clone)]
pub enum ApiError {
    /// The remote reported the credential invalid or expired.
    TokenExpired,
    /// The remote answered with a status that is neither success nor
    /// an authentication failure.
    Remote(u16),
    /// The call never got a usable answer: network or connection
    /// failure.  Carries the transport's own description.
    Transport(String),
    /// No call was made: the client could not be built from the
    /// credential.  Carries the builder's own description.
    Config(String),
}

/// The description `ApiError::message` returns.
pub open spec fn spec_message(e: ApiError) -> Seq<char> {
    match e {
        ApiError::TokenExpired => "Token expired or invalid"@,
        ApiError::Remote(status) => "HTTP "@ + spec_decimal(status as nat),
        ApiError::Transport(text) => text@,
        ApiError::Config(text) => text@,
    }
}

impl ApiError {
    /// Human-readable description of the failure.
    pub fn message(&self) -> (r: String)
        ensures
            r@ == spec_message(*self),
    {
        match self {
            ApiError::TokenExpired => TokenExpiredError.message(),
            ApiError::Remote(status) => {
                let mut r = "HTTP ".to_owned();
                r.append(u32_to_decimal(*status as u32).as_str());
                r
            },
            ApiError::Transport(text) => text.clone(),
            ApiError::Config(text) => text.clone(),
        }
    }
}

/// Whether a failure means the credential has expired, so that the
/// state layer must force a logout.
pub fn is_token_expired_error(e: &ApiError) -> (r: bool)
    ensures
        r == (e is TokenExpired),
{
    match e {
        ApiError::TokenExpired => true,
        _ => false,
    }
}

/// How the unstar endpoint's status code is read: 204 and 200 are
/// success, 401 is an expired credential, anything else is surfaced
/// with its status.
pub open spec fn spec_classify_unstar_status(status: u16) -> Result<(), ApiError> {
    if status == 204 || status == 200 {
        Ok(())
    } else if status == 401 {
        Err(ApiError::TokenExpired)
    } else {
        Err(ApiError::Remote(status))
    }
}

/// Classify the status code an unstar request came back with.
pub fn classify_unstar_status(status: u16) -> (r: Result<(), ApiError>)
    ensures
        r == spec_classify_unstar_status(status),
{
    if status == 204 || status == 200 {
        Ok(())
    } else if status == 401 {
        Err(ApiError::TokenExpired)
    } else {
        Err(ApiError::Remote(status))
    }
}

/// The starred-order ordinal of the item at `index` on page `page`
/// when pages hold `per_page` items: pages before it contribute
/// `(page - 1) * per_page` items.
pub open spec fn starred_order_of(page: nat, per_page: nat, index: nat) -> nat {
    (((page - 1) * per_page) + index) as nat
}

/// `r` with its starred order set to `order`.
pub open spec fn with_order(r: Repository, order: nat) -> Repository {
    Repository { starred_order: order as u32, ..r }
}

/// From a starred-order ordinal, the page and in-page index that
/// produced it are recovered exactly: the stamping loses nothing.
pub proof fn lemma_starred_order_round_trip(page: nat, per_page: nat, index: nat)
    requires
        1 <= page,
        0 < per_page,
        index < per_page,
    ensures
        starred_order_of(page, per_page, index) / per_page == page - 1,
        starred_order_of(page, per_page, index) % per_page == index,
{
    let order = starred_order_of(page, per_page, index);
    assert(order == (page - 1) * per_page + index);
    assert(order / per_page == page - 1 && order % per_page == index) by (nonlinear_arith)
        requires
            order == (page - 1) * per_page + index,
            1 <= page,
            0 < per_page,
            index < per_page,
    ;
}

/// Whether a fetch-everything loop asks for a further page after page
/// `page` returned `fetched` items: it stops on an empty page, when no
/// further page is owed, and past the page cap.
pub fn keep_fetching(fetched: usize, has_more: bool, page: u32) -> (r: bool)
    ensures
        r == (fetched > 0 && has_more && page <= MAX_FETCH_PAGES),
{
    fetched > 0 && has_more && page <= MAX_FETCH_PAGES
}

/// Stamp one fetched page: give the item at index `i` the starred
/// order `(page - 1) * per_page + i`, and report whether a further
/// page is owed.  A full page means more may follow; the absence of a
/// further page cannot be told apart from a page that is exactly
/// full, so one trailing empty page is tolerated by the callers.
pub fn stamp_page(items: Vec<Repository>, page: u32, per_page: u8) -> (r: (Vec<Repository>, bool))
    requires
        1 <= page,
        (page - 1) * (per_page as int) + items@.len() <= u32::MAX,
    ensures
        r.0@.len() == items@.len(),
        forall|i: int| 0 <= i < items@.len() ==> r.0@[i] == with_order(
            items@[i],
            starred_order_of(page as nat, per_page as nat, i as nat),
        ),
        r.1 == (items@.len() == per_page as int),
{
    let ghost orig = items@;
    let mut items = items;
    let has_more = items.len() == per_page as usize;
    let base: u32 = (page - 1) * (per_page as u32);
    proof {
        assert((page - 1) * (per_page as int) >= 0) by (nonlinear_arith)
            requires
                1 <= page,
                0 <= per_page,
        ;
    }
    let mut stamped: Vec<Repository> = Vec::new();
    while items.len() > 0
        invariant
            stamped@.len() + items@.len() == orig.len(),
            items@ == orig.skip(stamped@.len() as int),
            base == (page - 1) * (per_page as int),
            (page - 1) * (per_page as int) + orig.len() <= u32::MAX,
            forall|i: int| 0 <= i < stamped@.len() ==> stamped@[i] == with_order(
                orig[i],
                starred_order_of(page as nat, per_page as nat, i as nat),
            ),
        decreases items@.len(),
    {
        let ghost k = stamped@.len() as int;
        let mut item = items.remove(0);
        proof {
            assert(orig.skip(k)[0] == orig[k]);
            assert(orig.skip(k).remove(0) =~= orig.skip(k + 1));
        }
        item.starred_order = base + stamped.len() as u32;
        stamped.push(item);
    }
    (stamped, has_more)
}

} // verus!
