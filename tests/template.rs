use moltis_sessions::template::{default_config_template, TEMPLATE_HEAD, TEMPLATE_TAIL};

#[test]
fn template_holds_the_port() {
    let text = default_config_template(18789);
    assert!(text.contains("port = 18789                 # Port"));
    assert!(text.starts_with("# Moltis Configuration\n"));
    assert!(text.ends_with("# CUSTOM_VAR = \"value\"\n"));
    assert_eq!(text.len(), TEMPLATE_HEAD.len() + 5 + TEMPLATE_TAIL.len());
}

#[test]
fn template_port_edges() {
    assert!(default_config_template(0).contains("\nport = 0 "));
    assert!(default_config_template(65535).contains("\nport = 65535 "));
    assert!(default_config_template(7).contains("\nport = 7 "));
}
