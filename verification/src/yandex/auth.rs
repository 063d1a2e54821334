//! The access token of the speech service: the claims of the signed
//! assertion it is obtained with, and the cache that serves it until it
//! expires.
//!
//! Signing the assertion and exchanging it for a token need the network.
//! The cache decides: [`TokenCache::get_token`] says whether the cached
//! token can be served or an exchange is due, and [`TokenCache::complete`]
//! takes what the exchange gave.

use crate::clock::{unix_elapsed, utc_now, Instant};
use vstd::prelude::*;

verus! {

/// The key that signs the assertion, as the token endpoint knows it.
pub const KEY_ID: &'static str = "aje04ppj0e85d7njj0sf";

/// The account in whose name the assertion is made.
pub const ISSUER: &'static str = "ajede2r7i8dtgcgehtdl";

/// The token endpoint, which is also the audience of the assertion.
pub const TOKEN_ENDPOINT: &'static str = "https://iam.api.cloud.yandex.net/iam/v1/tokens";

/// How the assertion is signed: RSA with a probabilistic signature and
/// SHA-256.
pub const ASSERTION_ALGORITHM: &'static str = "PS256";

/// For how many seconds an assertion is valid.
pub const ASSERTION_LIFETIME: u64 = 3600;

/// The claim set of a signed assertion.
#[derive(Clone, Copy, Debug, PartialEq, Eq)]
pub struct Claims<'t> {
    pub iss: &'t str,
    pub aud: &'t str,
    pub iat: u64,
    pub exp: u64,
}

impl Claims<'static> {
    /// The claims of an assertion issued at `now`, in seconds since the
    /// epoch: it names the issuer and the token endpoint and expires an hour
    /// later. There are none if that hour does not fit the clock.
    pub fn issued_at(now: u64) -> (claims: Option<Claims<'static>>)
        ensures
            claims is Some <==> now + ASSERTION_LIFETIME <= u64::MAX,
            claims matches Some(c) ==> {
                &&& c.iss@ == ISSUER@
                &&& c.aud@ == TOKEN_ENDPOINT@
                &&& c.iat == now
                &&& c.exp == now + ASSERTION_LIFETIME
            },
    {
        match now.checked_add(ASSERTION_LIFETIME) {
            Some(exp) => Some(Claims { iss: ISSUER, aud: TOKEN_ENDPOINT, iat: now, exp }),
            None => None,
        }
    }

    /// The claims of an assertion issued at the time the system clock
    /// shows. There are none if the clock stands before the epoch or within
    /// an hour of its end.
    pub fn issue() -> (claims: Option<Claims<'static>>)
        ensures
            claims matches Some(c) ==> {
                &&& c.iss@ == ISSUER@
                &&& c.aud@ == TOKEN_ENDPOINT@
                &&& c.exp == c.iat + ASSERTION_LIFETIME
            },
    {
        match unix_elapsed() {
            Some((now, _)) => Claims::issued_at(now),
            None => None,
        }
    }
}

/// Why no token could be had.
#[derive(Clone, Copy, Debug, PartialEq, Eq)]
pub enum AuthError {
    /// The assertion could not be signed.
    Signing,
    /// The token endpoint did not answer with a token.
    Exchange,
}

/// An access token and the moment it stops being valid.
#[derive(Debug, PartialEq, Eq)]
pub struct AccessToken {
    pub iam_token: String,
    pub expires_at: Instant,
}

impl AccessToken {
    /// Whether the token can still be used at `now`, keeping `margin`
    /// seconds clear of its expiry.
    pub open spec fn fresh_at(self, now: Instant, margin: u64) -> bool {
        self.expires_at.value() - margin * 1_000_000_000 > now.value()
    }

    pub fn is_fresh_at(&self, now: Instant, margin: u64) -> (fresh: bool)
        ensures
            fresh == self.fresh_at(now, margin),
    {
        self.expires_at.to_nanos() - margin as i128 * 1_000_000_000 > now.to_nanos()
    }
}

/// What a caller who asked for a token has to do.
#[derive(Debug, PartialEq, Eq)]
pub enum TokenAction {
    /// Use this token: it is still valid.
    Serve(String),
    /// Sign an assertion, exchange it, and hand the answer to
    /// [`TokenCache::complete`].
    Exchange,
}

/// The mathematical content of a [`TokenCache`].
pub struct CacheModel {
    /// The token that was published last, if any.
    pub slot: Option<AccessToken>,
    /// The safety margin, in seconds.
    pub margin: u64,
}

/// What one request for a token comes to.
pub struct Served {
    /// The cache afterwards.
    pub cache: CacheModel,
    /// What the caller gets.
    pub outcome: Result<String, AuthError>,
    /// How many exchanges with the token endpoint were made.
    pub exchanges: nat,
}

impl CacheModel {
    /// Whether the cache holds a token that can be served at `now`.
    pub open spec fn fresh_at(self, now: Instant) -> bool {
        self.slot matches Some(token) && token.fresh_at(now, self.margin)
    }

    /// What a caller who asks for a token at `now` is told: to use the
    /// cached token if it can be served, else to make an exchange.
    pub open spec fn answer(self, now: Instant) -> TokenAction {
        if self.fresh_at(now) {
            TokenAction::Serve(self.slot->0.iam_token)
        } else {
            TokenAction::Exchange
        }
    }

    /// The cache after an exchange that answered with `reply`, and what the
    /// caller gets: a new token replaces the old one, a failure leaves the
    /// cache as it was.
    pub open spec fn complete(self, reply: Result<AccessToken, AuthError>) -> (
        CacheModel,
        Result<String, AuthError>,
    ) {
        match reply {
            Ok(token) => (CacheModel { slot: Some(token), ..self }, Ok(token.iam_token)),
            Err(error) => (self, Err(error)),
        }
    }

    /// One request for a token at `now`, where an exchange, if one is made,
    /// answers with `reply`.
    pub open spec fn serve(self, now: Instant, reply: Result<AccessToken, AuthError>) -> Served {
        if self.fresh_at(now) {
            Served { cache: self, outcome: Ok(self.slot->0.iam_token), exchanges: 0 }
        } else {
            let (cache, outcome) = self.complete(reply);
            Served { cache, outcome, exchanges: 1 }
        }
    }
}

/// The token cache: one slot, replaced as a whole on each refresh.
pub struct TokenCache {
    slot: Option<AccessToken>,
    margin: u64,
}

impl View for TokenCache {
    type V = CacheModel;

    closed spec fn view(&self) -> CacheModel {
        CacheModel { slot: self.slot, margin: self.margin }
    }
}

impl TokenCache {
    /// An empty cache that stops serving a token `margin` seconds before it
    /// expires.
    pub fn new(margin: u64) -> (cache: TokenCache)
        ensures
            cache@ == (CacheModel { slot: None, margin }),
    {
        TokenCache { slot: None, margin }
    }

    /// Serves the cached token if it is still valid at `now`; asks for an
    /// exchange if there is none or it has expired.
    pub fn get_token(&self, now: Instant) -> (action: TokenAction)
        ensures
            action == self@.answer(now),
    {
        match &self.slot {
            Some(token) => {
                if token.is_fresh_at(now, self.margin) {
                    TokenAction::Serve(token.iam_token.clone())
                } else {
                    TokenAction::Exchange
                }
            },
            None => TokenAction::Exchange,
        }
    }

    /// As [`TokenCache::get_token`], at the time the system clock shows,
    /// whatever that time is. There is no answer if the clock shows no
    /// time.
    pub fn get_token_now(&self) -> (action: Option<TokenAction>)
        ensures
            action matches Some(told) ==> exists|now: Instant| told == #[trigger] self@.answer(now),
    {
        match utc_now() {
            Some(now) => Some(self.get_token(now)),
            None => None,
        }
    }

    /// Takes the answer of an exchange: a token is published in place of the
    /// old one and returned; a failure is passed on and the cache is left as
    /// it was, so that the next request tries again.
    pub fn complete(&mut self, reply: Result<AccessToken, AuthError>) -> (outcome: Result<
        String,
        AuthError,
    >)
        ensures
            final(self)@ == old(self)@.complete(reply).0,
            outcome == old(self)@.complete(reply).1,
    {
        match reply {
            Ok(token) => {
                let served = token.iam_token.clone();
                self.slot = Some(token);
                Ok(served)
            },
            Err(error) => Err(error),
        }
    }
}

/// A token that is still valid when the later of two requests is made is
/// served to both without any exchange, and the cache stays as it is.
pub proof fn lemma_valid_token_is_not_refetched(
    cache: CacheModel,
    first: Instant,
    second: Instant,
    first_reply: Result<AccessToken, AuthError>,
    second_reply: Result<AccessToken, AuthError>,
)
    requires
        first.value() <= second.value(),
        cache.fresh_at(second),
    ensures
        ({
            let one = cache.serve(first, first_reply);
            let two = one.cache.serve(second, second_reply);
            &&& one.exchanges + two.exchanges == 0
            &&& one.outcome == Ok::<String, AuthError>(cache.slot->0.iam_token)
            &&& two.outcome == one.outcome
            &&& two.cache == cache
        }),
{
}

/// Two requests make at most one exchange if the token that the cache
/// holds after the first is still valid at the second.
pub proof fn lemma_one_exchange_serves_the_window(
    cache: CacheModel,
    first: Instant,
    second: Instant,
    first_reply: Result<AccessToken, AuthError>,
    second_reply: Result<AccessToken, AuthError>,
)
    requires
        cache.serve(first, first_reply).cache.fresh_at(second),
    ensures
        ({
            let one = cache.serve(first, first_reply);
            let two = one.cache.serve(second, second_reply);
            &&& one.exchanges + two.exchanges <= 1
            &&& two.exchanges == 0
            &&& two.outcome == Ok::<String, AuthError>(one.cache.slot->0.iam_token)
        }),
{
}

/// A token whose expiry has passed is never served: the request makes an
/// exchange and returns what the exchange gave, and a token that it gave is
/// the one the cache holds afterwards.
pub proof fn lemma_expired_token_is_refetched(
    cache: CacheModel,
    now: Instant,
    reply: Result<AccessToken, AuthError>,
)
    requires
        cache.slot matches Some(token) ==> token.expires_at.value() <= now.value(),
    ensures
        ({
            let served = cache.serve(now, reply);
            &&& served.exchanges == 1
            &&& reply matches Ok(token) ==> served.outcome == Ok::<String, AuthError>(
                token.iam_token,
            ) && served.cache.slot == Some(token)
            &&& reply matches Err(error) ==> served.outcome == Err::<String, AuthError>(error)
                && served.cache == cache
        }),
{
}

} // verus!
