use sendgrid_amqp_bridge::config::{
    empty_consumer_name, empty_vhost, EmailTemplate, SendGrid,
};
use sendgrid_amqp_bridge::log::Output;

fn entry(name: &str, template_id: &str, required: Option<Vec<&str>>) -> (String, EmailTemplate) {
    (
        name.to_string(),
        EmailTemplate {
            template_id: template_id.to_string(),
            required_fields: required.map(|v| v.into_iter().map(|s| s.to_string()).collect()),
        },
    )
}

fn registry(entries: Vec<(String, EmailTemplate)>) -> Result<SendGrid, String> {
    SendGrid::from_entries(
        "key".to_string(),
        "Sender".to_string(),
        "sender@example.com".to_string(),
        entries,
    )
    .map_err(|e| e.name)
}

#[test]
fn duplicate_template_names_are_rejected() {
    let r = registry(vec![
        entry("payment_confirm", "d-1", Some(vec!["owner_uid"])),
        entry("welcome", "d-2", None),
        entry("payment_confirm", "d-3", None),
    ]);
    assert_eq!(r.unwrap_err(), "payment_confirm");
}

#[test]
fn unique_template_names_load() {
    let r = registry(vec![
        entry("payment_confirm", "d-1", Some(vec!["owner_uid"])),
        entry("welcome", "d-2", None),
    ]);
    assert!(r.is_ok());
}

#[test]
fn required_fields_for_known_template() {
    let cfg = registry(vec![entry("t", "d-1", Some(vec!["a", "b"]))]).unwrap();
    assert_eq!(
        cfg.required_fields_for_email("t").unwrap(),
        vec!["a".to_string(), "b".to_string()]
    );
}

#[test]
fn absent_required_fields_mean_none() {
    let cfg = registry(vec![entry("t", "d-1", None)]).unwrap();
    assert_eq!(cfg.required_fields_for_email("t").unwrap(), Vec::<String>::new());
}

#[test]
fn unknown_template_is_an_error() {
    let cfg = registry(vec![entry("t", "d-1", None)]).unwrap();
    assert_eq!(cfg.required_fields_for_email("nope").unwrap_err().template, "nope");
    assert_eq!(cfg.template_id("nope").unwrap_err().template, "nope");
}

#[test]
fn template_id_for_known_template() {
    let cfg = registry(vec![entry("t", "d-123", None), entry("u", "d-456", None)]).unwrap();
    assert_eq!(cfg.template_id("t").unwrap(), "d-123");
    assert_eq!(cfg.template_id("u").unwrap(), "d-456");
}

#[test]
fn all_names_lists_the_table() {
    let cfg = registry(vec![entry("t", "d-1", None), entry("u", "d-2", None)]).unwrap();
    assert_eq!(cfg.all_names(), vec!["t".to_string(), "u".to_string()]);
}

#[test]
fn log_output_parses() {
    assert_eq!(Output::from_str("human").unwrap(), Output::Human);
    assert_eq!(Output::from_str("json").unwrap(), Output::Json);
    assert_eq!(Output::from_str("verbose").unwrap_err(), "verbose");
}

#[test]
fn default_names() {
    assert_eq!(empty_vhost(), "/");
    assert_eq!(empty_consumer_name(), "sendgrid-amqp-bridge");
}
