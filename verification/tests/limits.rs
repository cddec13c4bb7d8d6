use rs_pixel_backend::ratelimit::{cache_probe_path, CachingKeyExtractor};
use rs_pixel_backend::response::{bad_request, error_response, ok, Reply, WebError};

#[test]
fn cached_request_gets_the_exempt_key() {
    let extractor = CachingKeyExtractor;
    let k = extractor.extract(true, Some("203.0.113.9".to_string()));
    assert_eq!(k, Ok(String::new()));
    // the caller's address plays no part for a cached request
    let k = extractor.extract(true, None);
    assert_eq!(k, Ok(String::new()));
}

#[test]
fn cached_request_stays_exempt_across_repeats() {
    let extractor = CachingKeyExtractor;
    for _ in 0..3 {
        let k = extractor.extract(true, Some("203.0.113.9".to_string()));
        assert_eq!(k, Ok(String::new()));
        assert!(extractor.whitelisted_keys().contains(k.as_ref().unwrap()));
    }
}

#[test]
fn uncached_request_is_keyed_by_its_caller() {
    let extractor = CachingKeyExtractor;
    let k = extractor.extract(false, Some("203.0.113.9".to_string()));
    assert_eq!(k, Ok("203.0.113.9".to_string()));
}

#[test]
fn uncached_request_without_address_is_rejected() {
    let extractor = CachingKeyExtractor;
    let k = extractor.extract(false, None);
    assert_eq!(
        k,
        Err("Could not extract peer IP address from request".to_string())
    );
}

#[test]
fn whitelist_holds_exactly_the_exempt_key() {
    let extractor = CachingKeyExtractor;
    assert_eq!(extractor.whitelisted_keys(), vec![String::new()]);
}

#[test]
fn probe_path_strips_the_leading_separator() {
    assert_eq!(cache_probe_path(&"/skyblock/auctions".to_string()), "skyblock/auctions");
    assert_eq!(cache_probe_path(&"/".to_string()), "");
}

#[test]
fn replies_carry_their_status_and_shape() {
    let success = ok("{\"success\":true}".to_string());
    assert_eq!(success, Reply::Success("{\"success\":true}".to_string()));
    assert_eq!(success.status(), 200);

    let upstream = error_response("Key throttle".to_string());
    assert_eq!(
        upstream,
        Reply::Failure(WebError { success: false, cause: "Key throttle".to_string() })
    );
    assert_eq!(upstream.status(), 400);

    let validation = bad_request("Missing one or more fields [profile]");
    assert_eq!(
        validation,
        Reply::Failure(WebError {
            success: false,
            cause: "Missing one or more fields [profile]".to_string()
        })
    );
    assert_eq!(validation.status(), 400);
}
