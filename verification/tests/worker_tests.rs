use sendgrid_amqp_bridge::amqp::{
    decimal_string, BrokerTopology, DeliveryStep, TopologyDescriptor, Worker, WorkerPhase, AMQP,
};
use sendgrid_amqp_bridge::config;
use sendgrid_amqp_bridge::config::EmailTemplate;
use sendgrid_amqp_bridge::sendgrid::{
    AckDecision, DispatchOutcome, MessagePlan, ProcessError, SendGrid,
};

fn amqp_config(workers: usize) -> config::AMQP {
    config::AMQP {
        addr: "amqp.example.com:5672".to_string(),
        username: "guest".to_string(),
        password: "guest".to_string(),
        vhost: "/".to_string(),
        exchange_name: "emails".to_string(),
        routing_key: "send".to_string(),
        queue_name: "outgoing".to_string(),
        consumer_name: "sendgrid-amqp-bridge".to_string(),
        workers,
    }
}

fn descriptor() -> TopologyDescriptor {
    TopologyDescriptor {
        exchange_name: "emails".to_string(),
        queue_name: "outgoing".to_string(),
        routing_key: "send".to_string(),
        consumer_tag: "sendgrid-amqp-bridge-0".to_string(),
    }
}

fn full_config(workers: usize) -> config::Config {
    config::Config {
        amqp: amqp_config(workers),
        sendgrid: config::SendGrid::from_entries(
            "key".to_string(),
            "Sender".to_string(),
            "sender@example.com".to_string(),
            vec![(
                "payment_confirm".to_string(),
                EmailTemplate {
                    template_id: "d-pay".to_string(),
                    required_fields: Some(vec!["owner_uid".to_string()]),
                },
            )],
        )
        .unwrap(),
    }
}

#[test]
fn worker_descriptors_share_topology_with_unique_tags() {
    let amqp = AMQP::from_config(&full_config(3));
    let ds = amqp.worker_descriptors();
    assert_eq!(ds.len(), 3);
    for (i, d) in ds.iter().enumerate() {
        assert_eq!(d.exchange_name, "emails");
        assert_eq!(d.queue_name, "outgoing");
        assert_eq!(d.routing_key, "send");
        assert_eq!(d.consumer_tag, format!("sendgrid-amqp-bridge-{}", i));
    }
}

#[test]
fn decimal_rendering_is_exact() {
    assert_eq!(decimal_string(0), "0");
    assert_eq!(decimal_string(7), "7");
    assert_eq!(decimal_string(42), "42");
    assert_eq!(decimal_string(107), "107");
    assert_eq!(decimal_string(10000), "10000");
}

#[test]
fn topology_declaration_is_idempotent() {
    let mut t = BrokerTopology::new();
    let d = descriptor();
    t.declare(&d);
    let after_one = BrokerTopology {
        exchanges: t.exchanges.clone(),
        queues: t.queues.clone(),
        bindings: t.bindings.clone(),
    };
    t.declare(&d);
    assert_eq!(t, after_one);
    assert_eq!(t.exchanges, vec!["emails".to_string()]);
    assert_eq!(t.queues, vec!["outgoing".to_string()]);
    assert_eq!(t.bindings.len(), 1);
}

#[test]
fn two_workers_declare_the_same_topology_once() {
    let amqp = AMQP::from_config(&full_config(2));
    let ds = amqp.worker_descriptors();
    let mut t = BrokerTopology::new();
    for d in ds.iter() {
        t.declare(d);
    }
    assert_eq!(t.exchanges.len(), 1);
    assert_eq!(t.queues.len(), 1);
    assert_eq!(t.bindings.len(), 1);
}

#[test]
fn worker_settles_a_dispatched_delivery_with_one_ack() {
    let handler = SendGrid { config: full_config(1).sendgrid };
    let mut w = Worker::new(descriptor());
    assert_eq!(w.phase, WorkerPhase::Connecting);
    w.topology_declared();
    assert_eq!(w.phase, WorkerPhase::TopologyReady);
    w.consumer_registered();
    assert_eq!(w.phase, WorkerPhase::Consuming);

    let bytes = br#"{"type":"payment_confirm","destination_email":"a@b.com","destination_name":"A","fields":{"owner_uid":"ns-1"}}"#;
    let step = w.delivery_received(handler.handle(bytes));
    let request = match step {
        DeliveryStep::Dispatch(request) => request,
        DeliveryStep::Refused(e, _) => panic!("refused: {:?}", e),
    };
    assert_eq!(w.phase, WorkerPhase::Dispatching);
    assert_eq!(request.template_id, "d-pay");

    // the acknowledgement comes only after dispatch has completed
    let decision = w.dispatch_completed(&DispatchOutcome::Delivered);
    assert_eq!(decision, AckDecision::Ack);
    assert_eq!(w.phase, WorkerPhase::Consuming);
}

#[test]
fn worker_nacks_a_refused_delivery_without_dispatch() {
    let handler = SendGrid { config: full_config(1).sendgrid };
    let mut w = Worker::new(descriptor());
    w.topology_declared();
    w.consumer_registered();

    let step = w.delivery_received(handler.handle(b"{broken"));
    match step {
        DeliveryStep::Refused(ProcessError::Decode, decision) => {
            assert_eq!(decision, AckDecision::NackRequeue);
        }
        other => panic!("expected a refusal, got {:?}", other),
    }
    // no settlement owed: the worker is consuming again at once
    assert_eq!(w.phase, WorkerPhase::Consuming);
}

#[test]
fn worker_failure_is_terminal() {
    let mut w = Worker::new(descriptor());
    w.connection_lost();
    assert_eq!(w.phase, WorkerPhase::Failed);
}

#[test]
fn rejected_dispatch_is_nacked_for_redelivery() {
    let mut w = Worker::new(descriptor());
    w.topology_declared();
    w.consumer_registered();
    let handler = SendGrid { config: full_config(1).sendgrid };
    let bytes = br#"{"type":"payment_confirm","destination_email":"a@b.com","destination_name":"A","fields":{"owner_uid":"ns-1"}}"#;
    let plan = handler.handle(bytes);
    assert!(matches!(plan, MessagePlan::Dispatch(_)));
    w.delivery_received(plan);
    let decision = w.dispatch_completed(&DispatchOutcome::Rejected {
        status: 500,
        body: "server error".to_string(),
    });
    assert_eq!(decision, AckDecision::NackRequeue);
}
