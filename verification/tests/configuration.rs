use sentry_mcp::configuration::ContextServerConfiguration;
use sentry_mcp::extension::SentryMcpExtension;

const INSTRUCTIONS: &str = "# Sentry MCP\n\nCreate a token, then paste it below.\n";
const SCHEMA: &str = "{\"type\":\"object\",\"required\":[\"sentry_access_token\"]}";
const DEFAULTS: &str = "{\n  // your token\n  \"sentry_access_token\": \"\"\n}\n";

#[test]
fn supported_server_gets_the_three_texts_unchanged() {
    let extension = SentryMcpExtension::new();
    assert_eq!(
        extension.context_server_configuration("sentry-mcp", INSTRUCTIONS, SCHEMA, DEFAULTS),
        Some(ContextServerConfiguration {
            installation_instructions: INSTRUCTIONS.to_string(),
            settings_schema: SCHEMA.to_string(),
            default_settings: DEFAULTS.to_string(),
        })
    );
}

#[test]
fn texts_are_not_interpreted() {
    let extension = SentryMcpExtension::new();
    assert_eq!(
        extension.context_server_configuration("sentry-mcp", "", " \u{0} \r\n", "not json"),
        Some(ContextServerConfiguration {
            installation_instructions: String::new(),
            settings_schema: " \u{0} \r\n".to_string(),
            default_settings: "not json".to_string(),
        })
    );
}

#[test]
fn unsupported_server_has_no_configuration() {
    let extension = SentryMcpExtension::new();
    assert_eq!(
        extension.context_server_configuration("other-server", INSTRUCTIONS, SCHEMA, DEFAULTS),
        None
    );
    assert_eq!(extension.context_server_configuration("", INSTRUCTIONS, SCHEMA, DEFAULTS), None);
    assert_eq!(
        extension.context_server_configuration("Sentry-MCP", INSTRUCTIONS, SCHEMA, DEFAULTS),
        None
    );
    assert_eq!(
        extension.context_server_configuration("sentry-mcp ", INSTRUCTIONS, SCHEMA, DEFAULTS),
        None
    );
}
