use cloud_bridge::clock::{instant_from, utc_now, Instant};
use cloud_bridge::yandex::auth::{
    AccessToken, AuthError, Claims, TokenAction, TokenCache, ASSERTION_ALGORITHM,
    ASSERTION_LIFETIME, ISSUER, KEY_ID, TOKEN_ENDPOINT,
};

fn token(name: &str, expires: i64) -> AccessToken {
    AccessToken { iam_token: name.to_string(), expires_at: Instant::new(expires, 0) }
}

/// Asks for a token the way a caller does: an exchange is made only where
/// the cache asks for one, and `exchanges` counts them.
fn get_token(
    cache: &mut TokenCache,
    now: Instant,
    reply: Result<AccessToken, AuthError>,
    exchanges: &mut u32,
) -> Result<String, AuthError> {
    match cache.get_token(now) {
        TokenAction::Serve(token) => Ok(token),
        TokenAction::Exchange => {
            *exchanges += 1;
            cache.complete(reply)
        }
    }
}

#[test]
fn instant_orders_by_seconds_then_nanoseconds() {
    assert!(Instant::new(2, 0).is_after(Instant::new(1, 999_999_999)));
    assert!(Instant::new(1, 1).is_after(Instant::new(1, 0)));
    assert!(!Instant::new(1, 0).is_after(Instant::new(1, 0)));
    assert!(Instant::new(0, 0).is_after(Instant::new(-1, 999_999_999)));
    assert_eq!(Instant::new(3, 5).to_nanos(), 3_000_000_005);
    assert_eq!(Instant::new(-1, 1).to_nanos(), -999_999_999);
    assert_eq!(
        Instant::new(i64::MIN, 0).to_nanos(),
        -9_223_372_036_854_775_808_000_000_000i128
    );
}

#[test]
fn claims_expire_an_hour_after_issue() {
    let claims = Claims::issued_at(1_600_000_000).unwrap();
    assert_eq!(
        claims,
        Claims {
            iss: "ajede2r7i8dtgcgehtdl",
            aud: "https://iam.api.cloud.yandex.net/iam/v1/tokens",
            iat: 1_600_000_000,
            exp: 1_600_003_600,
        }
    );
    assert_eq!(claims.iss, ISSUER);
    assert_eq!(claims.aud, TOKEN_ENDPOINT);
    assert_eq!(ASSERTION_LIFETIME, 3600);
    assert_eq!(KEY_ID, "aje04ppj0e85d7njj0sf");
    assert_eq!(ASSERTION_ALGORITHM, "PS256");
}

#[test]
fn claims_at_the_end_of_the_clock() {
    assert_eq!(Claims::issued_at(u64::MAX - 3600).unwrap().exp, u64::MAX);
    assert_eq!(Claims::issued_at(u64::MAX - 3599), None);
    assert_eq!(Claims::issued_at(u64::MAX), None);
}

#[test]
fn token_freshness_is_strict() {
    let held = token("t", 100);
    assert!(held.is_fresh_at(Instant::new(99, 999_999_999), 0));
    assert!(!held.is_fresh_at(Instant::new(100, 0), 0));
    assert!(!held.is_fresh_at(Instant::new(101, 0), 0));
    assert!(held.is_fresh_at(Instant::new(89, 999_999_999), 10));
    assert!(!held.is_fresh_at(Instant::new(90, 0), 10));
    assert!(!held.is_fresh_at(Instant::new(0, 0), u64::MAX));
}

#[test]
fn empty_cache_asks_for_an_exchange() {
    let cache = TokenCache::new(0);
    assert_eq!(cache.get_token(Instant::new(0, 0)), TokenAction::Exchange);
    assert_eq!(cache.get_token_now(), Some(TokenAction::Exchange));
}

#[test]
fn two_requests_within_a_second_make_one_exchange() {
    let mut cache = TokenCache::new(0);
    let mut exchanges = 0;
    let now = Instant::new(1_000, 0);
    assert_eq!(
        get_token(&mut cache, Instant::new(0, 0), Ok(token("held", 1_000 + 3600)), &mut exchanges),
        Ok("held".to_string())
    );
    assert_eq!(exchanges, 1);
    assert_eq!(
        get_token(&mut cache, now, Ok(token("other", 9_000)), &mut exchanges),
        Ok("held".to_string())
    );
    assert_eq!(
        get_token(&mut cache, Instant::new(1_000, 900_000_000), Err(AuthError::Exchange), &mut exchanges),
        Ok("held".to_string())
    );
    assert_eq!(exchanges, 1);
}

#[test]
fn expired_token_is_fetched_again() {
    let mut cache = TokenCache::new(0);
    let mut exchanges = 0;
    assert_eq!(cache.complete(Ok(token("old", 500))), Ok("old".to_string()));
    let now = Instant::new(501, 0);
    assert_eq!(cache.get_token(now), TokenAction::Exchange);
    let fresh = token("new", 501 + 3600);
    assert!(fresh.expires_at.is_after(now));
    assert_eq!(get_token(&mut cache, now, Ok(fresh), &mut exchanges), Ok("new".to_string()));
    assert_eq!(exchanges, 1);
    assert_eq!(cache.get_token(now), TokenAction::Serve("new".to_string()));
    assert_eq!(cache.get_token(Instant::new(501 + 3600, 0)), TokenAction::Exchange);
}

#[test]
fn token_is_not_served_inside_the_margin() {
    let mut cache = TokenCache::new(60);
    assert_eq!(cache.complete(Ok(token("t", 1_000))), Ok("t".to_string()));
    assert_eq!(cache.get_token(Instant::new(939, 999_999_999)), TokenAction::Serve("t".to_string()));
    assert_eq!(cache.get_token(Instant::new(940, 0)), TokenAction::Exchange);
    assert_eq!(cache.get_token(Instant::new(999, 0)), TokenAction::Exchange);
}

#[test]
fn failed_exchange_does_not_poison_the_cache() {
    let mut cache = TokenCache::new(0);
    let mut exchanges = 0;
    let now = Instant::new(10, 0);
    assert_eq!(
        get_token(&mut cache, now, Err(AuthError::Exchange), &mut exchanges),
        Err(AuthError::Exchange)
    );
    assert_eq!(
        get_token(&mut cache, now, Err(AuthError::Signing), &mut exchanges),
        Err(AuthError::Signing)
    );
    assert_eq!(get_token(&mut cache, now, Ok(token("t", 100)), &mut exchanges), Ok("t".to_string()));
    assert_eq!(exchanges, 3);
    assert_eq!(
        get_token(&mut cache, now, Err(AuthError::Exchange), &mut exchanges),
        Ok("t".to_string())
    );
    assert_eq!(exchanges, 3);
}

#[test]
fn failed_refresh_keeps_the_old_token_in_the_slot() {
    let mut cache = TokenCache::new(0);
    assert_eq!(cache.complete(Ok(token("old", 100))), Ok("old".to_string()));
    assert_eq!(cache.complete(Err(AuthError::Exchange)), Err(AuthError::Exchange));
    assert_eq!(cache.get_token(Instant::new(50, 0)), TokenAction::Serve("old".to_string()));
}

#[test]
fn last_refresh_wins() {
    let mut cache = TokenCache::new(0);
    assert_eq!(cache.complete(Ok(token("first", 100))), Ok("first".to_string()));
    assert_eq!(cache.complete(Ok(token("second", 90))), Ok("second".to_string()));
    assert_eq!(cache.get_token(Instant::new(50, 0)), TokenAction::Serve("second".to_string()));
    assert_eq!(cache.get_token(Instant::new(95, 0)), TokenAction::Exchange);
}

#[test]
fn cache_with_a_token_far_in_the_future_serves_it_now() {
    let mut cache = TokenCache::new(0);
    assert_eq!(cache.complete(Ok(token("t", i64::MAX))), Ok("t".to_string()));
    assert_eq!(cache.get_token_now(), Some(TokenAction::Serve("t".to_string())));
}

#[test]
fn a_reading_of_the_clock_becomes_a_time() {
    assert_eq!(instant_from(None), None);
    assert_eq!(instant_from(Some((0, 0))), Some(Instant::new(0, 0)));
    assert_eq!(instant_from(Some((5, 999_999_999))), Some(Instant::new(5, 999_999_999)));
    assert_eq!(instant_from(Some((i64::MAX as u64, 1))), Some(Instant::new(i64::MAX, 1)));
    assert_eq!(instant_from(Some((i64::MAX as u64 + 1, 0))), None);
    assert_eq!(instant_from(Some((u64::MAX, 0))), None);
}

#[test]
fn the_clock_shows_a_time_after_2020() {
    let now = utc_now().unwrap();
    assert!(now.is_after(Instant::new(1_600_000_000, 0)));
    assert!(now.nanos < 1_000_000_000);
}
