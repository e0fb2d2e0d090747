use dyndns::cache::ZoneCache;
use dyndns::errors::ApiError;

#[test]
fn diagnostic_lines_match_the_taxonomy() {
    assert_eq!(ApiError::RequestError.describe(), "Request error");
    assert_eq!(
        ApiError::Unauthorized.describe(),
        "Unauthorized: Invalid API token"
    );
    assert_eq!(ApiError::Forbidden.describe(), "Forbidden: Access denied");
    assert_eq!(
        ApiError::NotFound.describe(),
        "Not Found: Record or zone not found"
    );
    assert_eq!(ApiError::Conflict.describe(), "Conflict: Record conflict");
    assert_eq!(
        ApiError::UnprocessableEntity.describe(),
        "Unprocessable Entity: Invalid data"
    );
    assert_eq!(
        ApiError::UnknownStatus(503, "down".to_string()).describe(),
        "Unknown status 503: down"
    );
}

#[test]
fn cache_answers_from_what_was_inserted() {
    let mut cache = ZoneCache::new();
    assert!(cache.lookup("z1").is_none());
    cache.insert("z1", "example.com");
    assert_eq!(cache.lookup("z1").unwrap(), "example.com");
    assert!(cache.lookup("z2").is_none());
    cache.insert("z2", "example.org");
    assert_eq!(cache.lookup("z1").unwrap(), "example.com");
    assert_eq!(cache.lookup("z2").unwrap(), "example.org");
}
