//! Agent cards, capabilities and security schemes.

use a2a_client::agent::{AgentCapabilities, AgentCard, ApiKeySecurityScheme, EndpointConfig,
    HttpAuthSecurityScheme, SecurityScheme};
use a2a_client::agentcodec::{card_to_value, value_to_card};
use a2a_client::jsontext::{parse_json, print_json};

#[test]
fn test_agent_card_creation() {
    let capabilities = AgentCapabilities::new().with_streaming().with_task_management();

    let card = AgentCard::new("Test Agent", "A test agent", capabilities)
        .with_version("1.0.0")
        .with_endpoint(
            "http",
            EndpointConfig::new("https://example.com", "http+json").preferred(),
        );

    assert_eq!(card.name, "Test Agent");
    assert!(card.capabilities.streaming);
    assert!(card.capabilities.task_management);
    assert_eq!(card.version, Some("1.0.0".to_string()));
    assert_eq!(card.endpoints.len(), 1);
}

#[test]
fn test_agent_capabilities() {
    let mut caps = AgentCapabilities::new();
    assert!(!caps.streaming);
    assert!(!caps.task_management);

    caps = caps.with_streaming().with_multi_turn();
    assert!(caps.streaming);
    assert!(caps.multi_turn);
}

#[test]
fn test_security_schemes() {
    let http_auth = SecurityScheme::HttpAuth(HttpAuthSecurityScheme {
        description: None,
        scheme: "bearer".to_string(),
        bearer_format: None,
    });
    let api_key = SecurityScheme::ApiKey(ApiKeySecurityScheme {
        description: None,
        location: "header".to_string(),
        name: "X-API-Key".to_string(),
    });

    assert!(matches!(http_auth, SecurityScheme::HttpAuth(_)));
    assert!(matches!(api_key, SecurityScheme::ApiKey(_)));
}

#[test]
fn test_agent_card_serialization() {
    let capabilities = AgentCapabilities::new().with_streaming();
    let card = AgentCard::new("Test", "Description", capabilities);

    let json = print_json(&card_to_value(&card));
    assert!(json.contains("\"name\":\"Test\""));

    let v = parse_json(&json).expect("valid JSON");
    let deserialized = value_to_card(&v).expect("valid card");
    assert_eq!(card, deserialized);
}

#[test]
fn test_agent_card_serialization_with_schemes() {
    let capabilities = AgentCapabilities::new().with_streaming();
    let card = AgentCard::new("Test", "Description", capabilities)
        .with_endpoint("http", EndpointConfig::new("https://example.com", "http+json"))
        .with_authentication(vec![
            SecurityScheme::HttpAuth(HttpAuthSecurityScheme {
                description: None,
                scheme: "bearer".to_string(),
                bearer_format: Some("JWT".to_string()),
            }),
            SecurityScheme::ApiKey(ApiKeySecurityScheme {
                description: Some("key auth".to_string()),
                location: "header".to_string(),
                name: "X-API-Key".to_string(),
            }),
        ])
        .with_version("2.0");

    let json = print_json(&card_to_value(&card));
    let v = parse_json(&json).expect("valid JSON");
    let deserialized = value_to_card(&v).expect("valid card");
    assert_eq!(card, deserialized);
}
