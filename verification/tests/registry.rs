use std::cell::Cell;
use std::rc::Rc;

use just_llm_client::chat::ChatMessage;
use just_llm_client::client::{ChatClientOptions, ProviderEntry, ProviderRegistry};
use just_llm_client::error::LlmError;

#[derive(Clone, Debug, PartialEq)]
struct TestBackend {
    family: &'static str,
}

struct TestProvider {
    id: String,
    connect_count: Rc<Cell<usize>>,
}

impl TestProvider {
    fn new(id: &str, connect_count: Rc<Cell<usize>>) -> Self {
        Self { id: id.to_owned(), connect_count }
    }
}

impl ProviderEntry<TestBackend> for TestProvider {
    fn instance_id(&self) -> &str {
        &self.id
    }

    fn connect(&self) -> Result<TestBackend, LlmError> {
        self.connect_count.set(self.connect_count.get() + 1);
        Ok(TestBackend { family: "test-provider" })
    }
}

struct FailingProvider;

impl ProviderEntry<TestBackend> for FailingProvider {
    fn instance_id(&self) -> &str {
        "broken"
    }

    fn connect(&self) -> Result<TestBackend, LlmError> {
        Err(LlmError::invalid_request("no credentials"))
    }
}

#[test]
fn chat_client_request_injects_model_and_system_prompt() {
    let connect_count = Rc::new(Cell::new(0));
    let mut registry = ProviderRegistry::new();
    registry.register(TestProvider::new("alpha", connect_count));

    let client = registry
        .chat("alpha", ChatClientOptions::new("test-model").with_system_prompt("Be concise."))
        .unwrap();
    let request = client.create_request(vec![ChatMessage::user("hello")]);

    assert_eq!(client.instance_id(), "alpha");
    assert_eq!(client.model(), "test-model");
    assert_eq!(client.system_prompt(), Some("Be concise."));
    assert_eq!(request.model, "test-model");
    assert_eq!(request.messages.len(), 2);
    assert_eq!(request.messages[0].role(), "system");
    assert_eq!(request.messages[0].content(), Some("Be concise."));
    assert_eq!(request.messages[1].role(), "user");
    assert_eq!(request.messages[1].content(), Some("hello"));
}

#[test]
fn provider_registry_reuses_connected_backend() {
    let connect_count = Rc::new(Cell::new(0));
    let mut registry = ProviderRegistry::new();
    registry.register(TestProvider::new("alpha", connect_count.clone()));

    let first = registry.chat("alpha", ChatClientOptions::new("model-a")).unwrap();
    let second = registry.chat("alpha", ChatClientOptions::new("model-b")).unwrap();

    assert_eq!(connect_count.get(), 1);
    assert_eq!(first.instance_id(), "alpha");
    assert_eq!(second.instance_id(), "alpha");
    assert_eq!(first.model(), "model-a");
    assert_eq!(second.model(), "model-b");
}

#[test]
fn provider_registry_replaces_existing_provider_with_same_id() {
    let first_count = Rc::new(Cell::new(0));
    let second_count = Rc::new(Cell::new(0));
    let mut registry = ProviderRegistry::new();
    registry.register(TestProvider::new("alpha", first_count.clone()));
    registry.register(TestProvider::new("alpha", second_count.clone()));

    let client = registry.chat("alpha", ChatClientOptions::new("model")).unwrap();

    assert_eq!(client.instance_id(), "alpha");
    assert_eq!(first_count.get(), 0);
    assert_eq!(second_count.get(), 1);
}

#[test]
fn provider_registry_rejects_unknown_instance_id() {
    let mut registry: ProviderRegistry<TestProvider, TestBackend> = ProviderRegistry::new();
    let error = registry.chat("missing", ChatClientOptions::new("model")).unwrap_err();

    assert!(matches!(error, LlmError::InvalidRequest(_)));
    assert_eq!(error.message(), "invalid request: unknown instance id: missing");
}

#[test]
fn registry_lists_ids_in_registration_order_and_reports_connect_errors() {
    let count = Rc::new(Cell::new(0));
    let mut registry = ProviderRegistry::new();
    registry.register(TestProvider::new("b", count.clone()));
    registry.register(TestProvider::new("a", count.clone()));
    registry.register(TestProvider::new("b", count));
    assert_eq!(registry.instance_ids(), vec!["b".to_owned(), "a".to_owned()]);

    let mut broken = ProviderRegistry::new();
    broken.register(FailingProvider);
    let err = broken.chat("broken", ChatClientOptions::new("m")).unwrap_err();
    assert_eq!(err.message(), "invalid request: no credentials");
}

#[test]
fn register_returns_the_registry_for_chaining() {
    let first = Rc::new(Cell::new(0));
    let second = Rc::new(Cell::new(0));
    let mut registry = ProviderRegistry::new();
    registry
        .register(TestProvider::new("x", first.clone()))
        .register(TestProvider::new("y", first.clone()))
        .register(TestProvider::new("x", second.clone()));
    assert_eq!(registry.instance_ids(), vec!["x".to_owned(), "y".to_owned()]);
    registry.chat("x", ChatClientOptions::new("m")).unwrap();
    assert_eq!(first.get(), 0);
    assert_eq!(second.get(), 1);
}
