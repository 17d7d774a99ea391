use just_llm_client::capability::{Balance, CapabilityNegotiation, Identifiable, ModelCatalog};
use just_llm_client::error::{Capability, LlmError};
use just_llm_client::tools::{LlmTool, RenamedTool};
use just_llm_client::types::{BalanceSnapshot, ModelCatalogResponse};

struct Echo;

impl LlmTool for Echo {
    fn name(&self) -> &str {
        "echo"
    }
    fn description(&self) -> &str {
        "Echoes its input."
    }
    fn parameters_schema(&self) -> String {
        "{\"type\":\"object\"}".to_owned()
    }
    fn call(&self, args_json: &str) -> Result<String, String> {
        Ok(args_json.to_owned())
    }
}

#[test]
fn renamed_tool_overrides_name_and_optionally_description() {
    let t = RenamedTool::new(Echo, "say", None);
    assert_eq!(t.name(), "say");
    assert_eq!(t.description(), "Echoes its input.");
    assert_eq!(t.parameters_schema(), "{\"type\":\"object\"}");
    assert_eq!(t.call("{}"), Ok("{}".to_owned()));
    let t = RenamedTool::new(Echo, "say", Some("Repeats."));
    assert_eq!(t.description(), "Repeats.");
}

struct Plain;

impl Identifiable for Plain {
    fn backend_id(&self) -> &'static str {
        "plain"
    }
}

impl ModelCatalog for Plain {
    fn list_models(&self) -> Result<ModelCatalogResponse, LlmError> {
        Ok(ModelCatalogResponse { data: vec![] })
    }
}

impl Balance for Plain {
    fn get_balance(&self) -> Result<BalanceSnapshot, LlmError> {
        Ok(BalanceSnapshot { is_available: true, entries: vec![] })
    }
}

impl CapabilityNegotiation for Plain {
    type Catalog = Plain;
    type Accounts = Plain;
}

#[test]
fn negotiation_defaults_to_unsupported() {
    let p = Plain;
    let e = p.model_catalog().err().unwrap();
    assert_eq!(e, LlmError::unsupported("plain", Capability::ModelCatalog));
    assert_eq!(e.message(), "plain does not support model catalog");
    assert_eq!(p.balance().err().unwrap(), LlmError::unsupported("plain", Capability::Balance));
}
