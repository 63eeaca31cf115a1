use sendgrid_amqp_bridge::config;
use sendgrid_amqp_bridge::config::EmailTemplate;
use sendgrid_amqp_bridge::payload::{decode, Message};
use sendgrid_amqp_bridge::sendgrid::{
    classify_send_result, conclude, validate, AckDecision, DispatchOutcome, MessagePlan,
    ProcessError, ProviderResponse, SendGrid, ValidationOutcome,
};

fn registry(required: Vec<&str>) -> config::SendGrid {
    config::SendGrid::from_entries(
        "key".to_string(),
        "Sender".to_string(),
        "sender@example.com".to_string(),
        vec![(
            "payment_confirm".to_string(),
            EmailTemplate {
                template_id: "d-pay".to_string(),
                required_fields: Some(required.into_iter().map(|s| s.to_string()).collect()),
            },
        )],
    )
    .unwrap()
}

fn handler(required: Vec<&str>) -> SendGrid {
    SendGrid { config: registry(required) }
}

const PAYLOAD: &str = r#"{"type":"payment_confirm","destination_email":"a@b.com","destination_name":"A","fields":{"owner_uid":"ns-1"}}"#;

#[test]
fn scenario_valid_message_is_dispatched_and_acked() {
    let h = handler(vec!["owner_uid"]);
    let plan = h.handle(PAYLOAD.as_bytes());
    let request = match plan {
        MessagePlan::Dispatch(request) => request,
        MessagePlan::Refuse(e) => panic!("refused: {:?}", e),
    };
    assert_eq!(request.api_key, "key");
    assert_eq!(request.template_id, "d-pay");
    assert_eq!(request.sender_name, "Sender");
    assert_eq!(request.sender_email, "sender@example.com");
    assert_eq!(request.destination_name, "A");
    assert_eq!(request.destination_email, "a@b.com");
    assert_eq!(request.fields, vec![("owner_uid".to_string(), "ns-1".to_string())]);
    assert_eq!(request.attachment, None);

    let outcome =
        classify_send_result(Ok(ProviderResponse { status: 202, body: String::new() }));
    assert_eq!(outcome, DispatchOutcome::Delivered);
    assert_eq!(conclude(&outcome), AckDecision::Ack);
}

#[test]
fn scenario_missing_field_is_nacked_without_dispatch() {
    let h = handler(vec!["owner_uid", "amount"]);
    let plan = h.handle(PAYLOAD.as_bytes());
    match plan {
        MessagePlan::Refuse(ProcessError::ValidationFailed {
            kind,
            destination_email,
            missing,
            ..
        }) => {
            assert_eq!(kind, "payment_confirm");
            assert_eq!(destination_email, "a@b.com");
            assert_eq!(missing, vec!["amount".to_string()]);
        }
        other => panic!("expected a validation failure, got {:?}", other),
    }
}

#[test]
fn scenario_unknown_template_is_nacked_without_dispatch() {
    let h = handler(vec!["owner_uid"]);
    let bytes = br#"{"type":"unknown_kind","destination_email":"a@b.com","destination_name":"A","fields":{"owner_uid":"ns-1"}}"#;
    match h.handle(bytes) {
        MessagePlan::Refuse(ProcessError::UnknownTemplate { kind, .. }) => {
            assert_eq!(kind, "unknown_kind");
        }
        other => panic!("expected an unknown template, got {:?}", other),
    }
}

#[test]
fn scenario_malformed_bytes_are_nacked() {
    let h = handler(vec!["owner_uid"]);
    match h.handle(b"{broken") {
        MessagePlan::Refuse(ProcessError::Decode) => {}
        other => panic!("expected a decode failure, got {:?}", other),
    }
}

#[test]
fn scenario_provider_rejection_is_nacked() {
    let h = handler(vec!["owner_uid"]);
    assert!(matches!(h.handle(PAYLOAD.as_bytes()), MessagePlan::Dispatch(_)));
    let outcome = classify_send_result(Ok(ProviderResponse {
        status: 422,
        body: "bad template data".to_string(),
    }));
    assert_eq!(
        outcome,
        DispatchOutcome::Rejected { status: 422, body: "bad template data".to_string() }
    );
    assert_eq!(conclude(&outcome), AckDecision::NackRequeue);
}

#[test]
fn transport_failure_is_nacked() {
    let outcome = classify_send_result(Err("connection refused".to_string()));
    assert_eq!(
        outcome,
        DispatchOutcome::TransportError { cause: "connection refused".to_string() }
    );
    assert_eq!(conclude(&outcome), AckDecision::NackRequeue);
}

#[test]
fn validate_superset_is_valid() {
    let cfg = registry(vec!["owner_uid"]);
    let m = Message {
        kind: "payment_confirm".to_string(),
        destination_email: "a@b.com".to_string(),
        destination_name: "A".to_string(),
        fields: vec![
            ("owner_uid".to_string(), "ns-1".to_string()),
            ("extra".to_string(), "x".to_string()),
        ],
        attachment: None,
    };
    assert_eq!(validate(&m, &cfg).unwrap(), ValidationOutcome::Valid);
}

#[test]
fn validate_reports_exactly_the_missing_fields() {
    let cfg = registry(vec!["owner_uid", "amount", "currency"]);
    let m = Message {
        kind: "payment_confirm".to_string(),
        destination_email: "a@b.com".to_string(),
        destination_name: "A".to_string(),
        fields: vec![("amount".to_string(), "10".to_string())],
        attachment: None,
    };
    assert_eq!(
        validate(&m, &cfg).unwrap(),
        ValidationOutcome::Invalid(vec!["owner_uid".to_string(), "currency".to_string()])
    );
}

#[test]
fn validate_unknown_kind_is_the_registry_error() {
    let cfg = registry(vec!["owner_uid"]);
    let m = decode(PAYLOAD.as_bytes()).unwrap();
    let m = Message { kind: "other".to_string(), ..m };
    assert_eq!(validate(&m, &cfg).unwrap_err().template, "other");
}

#[test]
fn no_required_fields_always_validates() {
    let cfg = config::SendGrid::from_entries(
        "key".to_string(),
        "Sender".to_string(),
        "sender@example.com".to_string(),
        vec![(
            "t".to_string(),
            EmailTemplate { template_id: "d-1".to_string(), required_fields: None },
        )],
    )
    .unwrap();
    let m = Message {
        kind: "t".to_string(),
        destination_email: "a@b.com".to_string(),
        destination_name: "A".to_string(),
        fields: vec![],
        attachment: None,
    };
    assert_eq!(validate(&m, &cfg).unwrap(), ValidationOutcome::Valid);
}

#[test]
fn boundary_statuses_classify_exactly() {
    let ok = |status| classify_send_result(Ok(ProviderResponse { status, body: String::new() }));
    assert_eq!(ok(200), DispatchOutcome::Delivered);
    assert_eq!(ok(299), DispatchOutcome::Delivered);
    assert_eq!(ok(199), DispatchOutcome::Rejected { status: 199, body: String::new() });
    assert_eq!(ok(300), DispatchOutcome::Rejected { status: 300, body: String::new() });
}
