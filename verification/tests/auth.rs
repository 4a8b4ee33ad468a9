use auth_client::model;
use auth_client::{AuthClient, AuthError, ClientId, Permission, Role};

#[test]
fn validate_vendor_sourcing_token() {
    let client = AuthClient::new();
    let header = format!("Bearer {}", model::VENDOR_SOURCING);
    let identity = client.validate(&header).unwrap();
    assert_eq!(identity.client_id, ClientId::VendorSourcing);
    assert!(identity.permissions.contains(&Permission::FetchUrl));
}

#[test]
fn validate_retriever_token() {
    let client = AuthClient::new();
    let header = format!("Bearer {}", model::RETRIEVER);
    let identity = client.validate(&header).unwrap();
    assert_eq!(identity.client_id, ClientId::Retriever);
}

#[test]
fn validate_crawler_token() {
    let client = AuthClient::new();
    let header = format!("Bearer {}", model::CRAWLER);
    let identity = client.validate(&header).unwrap();
    assert_eq!(identity.client_id, ClientId::Crawler);
    assert!(identity.permissions.contains(&Permission::TestPermission));
    assert!(identity.roles.contains(&Role::TestRole));
}

#[test]
fn validate_valid_token_lowercase_bearer() {
    let client = AuthClient::new();
    let header = format!("bearer {}", model::VENDOR_SOURCING);
    let identity = client.validate(&header).unwrap();
    assert_eq!(identity.client_id, ClientId::VendorSourcing);
}

#[test]
fn validate_invalid_token() {
    let client = AuthClient::new();
    let result = client.validate("Bearer invalid-token");
    assert!(matches!(result, Err(AuthError::InvalidToken)));
}

#[test]
fn validate_unregistered_token_value() {
    let client = AuthClient::new();
    let result = client.validate("Bearer invalid-token-value");
    assert!(matches!(result, Err(AuthError::InvalidToken)));
}

#[test]
fn validate_missing_bearer_prefix() {
    let client = AuthClient::new();
    let result = client.validate(model::CRAWLER);
    assert!(matches!(result, Err(AuthError::InvalidFormat)));
}

#[test]
fn validate_empty_token() {
    let client = AuthClient::new();
    let result = client.validate("Bearer ");
    assert!(matches!(result, Err(AuthError::InvalidFormat)));
}

#[test]
fn validate_token_directly() {
    let client = AuthClient::new();
    let identity = client.validate_token(model::RETRIEVER).unwrap();
    assert_eq!(identity.client_id, ClientId::Retriever);
}

#[test]
fn validate_bearer_with_extra_whitespace() {
    let client = AuthClient::new();

    // Multiple spaces after Bearer - the extra space becomes part of the token
    // which then gets trimmed
    let header = format!("Bearer  {}", model::VENDOR_SOURCING);
    let identity = client.validate(&header).unwrap();
    assert_eq!(identity.client_id, ClientId::VendorSourcing);

    // Trailing whitespace on token gets trimmed
    let header = format!("Bearer {}  ", model::VENDOR_SOURCING);
    let identity = client.validate(&header).unwrap();
    assert_eq!(identity.client_id, ClientId::VendorSourcing);

    // Leading and trailing whitespace on token gets trimmed
    let header = format!("Bearer   {}   ", model::VENDOR_SOURCING);
    let identity = client.validate(&header).unwrap();
    assert_eq!(identity.client_id, ClientId::VendorSourcing);
}

#[test]
fn validate_mixed_case_bearer_prefix() {
    let client = AuthClient::new();

    // Mixed case "BeArEr" should be accepted (case-insensitive matching)
    let header = format!("BeArEr {}", model::VENDOR_SOURCING);
    let identity = client.validate(&header).unwrap();
    assert_eq!(identity.client_id, ClientId::VendorSourcing);

    // All uppercase "BEARER" should be accepted
    let header = format!("BEARER {}", model::RETRIEVER);
    let identity = client.validate(&header).unwrap();
    assert_eq!(identity.client_id, ClientId::Retriever);
}

#[test]
fn validate_empty_authorization_header() {
    let client = AuthClient::new();

    // Empty string should return InvalidFormat
    let result = client.validate("");
    assert!(matches!(result, Err(AuthError::InvalidFormat)));

    // Whitespace-only should also return InvalidFormat
    let result = client.validate("   ");
    assert!(matches!(result, Err(AuthError::InvalidFormat)));
}

#[test]
fn validate_entry_points_agree() {
    // The direct-token entry point and header validation give the same
    // identity for a registered token.
    let client = AuthClient::new();
    let direct = client.validate_token(model::CRAWLER).unwrap();
    let header = format!("Bearer {}", model::CRAWLER);
    let via_header = client.validate(&header).unwrap();
    assert_eq!(direct.client_id, via_header.client_id);
    assert_eq!(direct.permissions, via_header.permissions);
    assert_eq!(direct.roles, via_header.roles);
}

#[test]
fn validate_is_repeatable() {
    // Two calls with the same input give identical results.
    let client = AuthClient::new();
    let header = format!("Bearer {}", model::VENDOR_SOURCING);
    let first = client.validate(&header).unwrap();
    let second = client.validate(&header).unwrap();
    assert_eq!(first.client_id, second.client_id);
    assert_eq!(first.permissions, second.permissions);
    assert_eq!(first.roles, second.roles);

    let e1 = client.validate("Bearer nope");
    let e2 = client.validate("Bearer nope");
    assert!(matches!(e1, Err(AuthError::InvalidToken)));
    assert!(matches!(e2, Err(AuthError::InvalidToken)));
}

#[test]
fn validate_token_is_case_sensitive() {
    // The token itself is matched exactly; only the scheme is
    // case-insensitive.
    let client = AuthClient::new();
    let header = format!("Bearer {}", model::VENDOR_SOURCING.to_uppercase());
    let result = client.validate(&header);
    assert!(matches!(result, Err(AuthError::InvalidToken)));
}

#[test]
fn validate_splits_on_first_space_only() {
    // Interior spaces stay part of the token, which then matches nothing.
    let client = AuthClient::new();
    let result = client.validate("Bearer a b");
    assert!(matches!(result, Err(AuthError::InvalidToken)));
}
