//! Assembling clients with the builder.

use a2a_client::builder::A2AClientBuilder;
use a2a_client::jsoncodec::JsonCodec;
use a2a_client::transport::MockTransport;

fn mock() -> MockTransport {
    MockTransport::new(vec![])
}

#[test]
fn test_builder_with_memory_transport() {
    let client = A2AClientBuilder::new("https://example.com")
        .with_transport(mock())
        .with_codec(JsonCodec::new())
        .build();

    assert!(client.is_ok());
}

#[test]
fn test_builder_with_auth() {
    let client = A2AClientBuilder::new("https://example.com")
        .with_transport(mock())
        .with_codec(JsonCodec::new())
        .with_bearer_auth("test-token")
        .build();

    assert!(client.is_ok());
}

#[test]
fn test_builder_with_timeout() {
    let client = A2AClientBuilder::new("https://example.com")
        .with_transport(mock())
        .with_codec(JsonCodec::new())
        .with_timeout(60000)
        .build();

    assert!(client.is_ok());
}

#[test]
fn test_builder_all_options() {
    let client = A2AClientBuilder::new("https://example.com")
        .with_transport(mock())
        .with_codec(JsonCodec::new())
        .with_bearer_auth("token")
        .with_timeout(45000)
        .with_max_retries(5)
        .with_validation(true)
        .build();

    assert!(client.is_ok());
}

#[test]
fn test_builder_without_transport_fails() {
    let client = A2AClientBuilder::<MockTransport, JsonCodec>::new("https://example.com")
        .with_codec(JsonCodec::new())
        .build();

    assert!(client.is_err());
}
