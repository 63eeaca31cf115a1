//! The per-delivery pipeline: validate a decoded job message against
//! the template registry, build the provider request for a valid one,
//! classify what the provider's transport handed back, and decide the
//! acknowledgement each outcome owes.
//!
//! The provider call itself is network I/O and stays with the program
//! around the library: it receives a [`ProviderRequest`] of plain
//! values and hands back a [`ProviderResponse`] or a transport failure,
//! which [`classify_send_result`] turns into the one
//! [`DispatchOutcome`] the worker inspects.

use vstd::prelude::*;
use crate::config;
use crate::config::{Config, SendGridView, UnknownTemplate};
use crate::json::json_of;
use crate::payload::{decode, decodes, message_view_of, AttachmentView, Attachment, Message, MessageView};

verus! {

/// The required fields the supplied keys do not cover, in declaration
/// order.
pub open spec fn missing_list(required: Seq<Seq<char>>, keys: Set<Seq<char>>) -> Seq<Seq<char>> {
    required.filter(|f: Seq<char>| !keys.contains(f))
}

/// One step of [`missing_list`]: the last required field is kept
/// exactly when the keys do not cover it.
pub proof fn lemma_missing_step(required: Seq<Seq<char>>, keys: Set<Seq<char>>)
    requires
        required.len() > 0,
    ensures
        missing_list(required, keys) == if !keys.contains(required.last()) {
            missing_list(required.drop_last(), keys).push(required.last())
        } else {
            missing_list(required.drop_last(), keys)
        },
{
    reveal_with_fuel(Seq::filter, 2);
}

/// Membership in the missing list: a field is missing exactly when it
/// is required and not supplied.
pub proof fn lemma_missing_membership(required: Seq<Seq<char>>, keys: Set<Seq<char>>, x: Seq<char>)
    ensures
        missing_list(required, keys).contains(x) <==> (required.contains(x) && !keys.contains(x)),
    decreases required.len(),
{
    reveal_with_fuel(Seq::filter, 2);
    if required.len() == 0 {
        assert(missing_list(required, keys).len() == 0);
        assert(!required.contains(x));
    } else {
        let r0 = required.drop_last();
        lemma_missing_membership(r0, keys, x);
        lemma_missing_step(required, keys);
        assert(required.contains(x) <==> (r0.contains(x) || x == required.last())) by {
            if required.contains(x) {
                let i = choose|i: int| 0 <= i < required.len() && required[i] == x;
                if i < required.len() - 1 {
                    assert(r0[i] == x);
                }
            }
            if r0.contains(x) {
                let i = choose|i: int| 0 <= i < r0.len() && r0[i] == x;
                assert(required[i] == x);
            }
            if x == required.last() {
                assert(required[required.len() - 1] == x);
            }
        }
        let m0 = missing_list(r0, keys);
        if !keys.contains(required.last()) {
            assert(m0.push(required.last()).contains(x) <==> (m0.contains(x) || x
                == required.last())) by {
                let m1 = m0.push(required.last());
                if m1.contains(x) {
                    let i = choose|i: int| 0 <= i < m1.len() && m1[i] == x;
                    if i < m0.len() {
                        assert(m0[i] == x);
                    }
                }
                if m0.contains(x) {
                    let i = choose|i: int| 0 <= i < m0.len() && m0[i] == x;
                    assert(m1[i] == x);
                }
                assert(m1[m1.len() - 1] == required.last());
            }
        }
    }
}

/// The missing fields of a job message for its template, as the
/// validator computes them.
pub open spec fn validation_missing(cfg: SendGridView, m: MessageView) -> Seq<Seq<char>> {
    missing_list(cfg.lookup(m.kind)->Some_0.required_list(), m.field_keys())
}

/// Law: a job message whose field map supplies every required field of
/// its template validates as `Valid`, and only such a message does.
pub proof fn lemma_validate_superset(cfg: SendGridView, m: MessageView)
    requires
        cfg.has_template(m.kind),
    ensures
        validation_missing(cfg, m).len() == 0 <==> cfg.required_set_of(m.kind).subset_of(
            m.field_keys(),
        ),
{
    let required = cfg.lookup(m.kind)->Some_0.required_list();
    let keys = m.field_keys();
    let missing = missing_list(required, keys);
    if missing.len() == 0 {
        assert forall|x: Seq<char>| cfg.required_set_of(m.kind).contains(x) implies keys.contains(
            x,
        ) by {
            lemma_missing_membership(required, keys, x);
            if !keys.contains(x) {
                assert(missing.contains(x));
            }
        }
    } else {
        let x = missing[0];
        assert(missing.contains(x));
        lemma_missing_membership(required, keys, x);
        assert(cfg.required_set_of(m.kind).contains(x));
    }
}

/// Law: the missing fields are exactly the template's required fields
/// minus the keys the message's field map supplies.
pub proof fn lemma_validate_missing_exact(cfg: SendGridView, m: MessageView)
    requires
        cfg.has_template(m.kind),
    ensures
        validation_missing(cfg, m).to_set() == cfg.required_set_of(m.kind).difference(
            m.field_keys(),
        ),
{
    let required = cfg.lookup(m.kind)->Some_0.required_list();
    let keys = m.field_keys();
    assert(validation_missing(cfg, m).to_set() =~= required.to_set().difference(keys)) by {
        assert forall|x: Seq<char>|
            validation_missing(cfg, m).to_set().contains(x) == required.to_set().difference(
                keys,
            ).contains(x) by {
            lemma_missing_membership(required, keys, x);
        }
    }
}

/// A job message's validation outcome: fit to dispatch, or the exact
/// required fields its field map does not supply.
#[derive(Debug, PartialEq)]
pub enum ValidationOutcome {
    Valid,
    Invalid(Vec<String>),
}

/// Validates a decoded job message against the template registry:
/// looks its kind up (an unknown kind is the registry's error, kept
/// distinct from a decode failure) and computes which required fields
/// the message's field map leaves out, in the template's declaration
/// order.  Pure: no side effects, and the outcome depends only on the
/// message and the registry.
pub fn validate(message: &Message, config: &config::SendGrid) -> (r: Result<
    ValidationOutcome,
    UnknownTemplate,
>)
    ensures
        r is Ok <==> config@.has_template(message@.kind),
        r is Err ==> r->Err_0.template@ == message@.kind,
        r is Ok ==> {
            let missing = validation_missing(config@, message@);
            &&& (r->Ok_0 is Valid <==> missing.len() == 0)
            &&& (r->Ok_0 matches ValidationOutcome::Invalid(v) ==> v.deep_view() == missing)
        },
{
    let required = match config.required_fields_for_email(message.kind.as_str()) {
        Ok(v) => v,
        Err(e) => {
            return Err(e);
        },
    };
    let ghost req = required.deep_view();
    let ghost keys = message@.field_keys();
    let mut missing: Vec<String> = Vec::new();
    let n = required.len();
    let mut i: usize = 0;
    while i < n
        invariant
            n == required.len(),
            i <= n,
            req == required.deep_view(),
            keys == message@.field_keys(),
            missing.deep_view() == missing_list(req.take(i as int), keys),
        decreases n - i,
    {
        let supplied = fields_has_key(&message.fields, &required[i]);
        proof {
            assert(supplied == keys.contains(req[i as int])) by {
                let mfields = message@.fields;
                if supplied {
                    let k = choose|k: int|
                        0 <= k < message.fields@.len() && message.fields@[k].0@
                            == required@[i as int]@;
                    assert(mfields[k].0 == req[i as int]);
                }
                if keys.contains(req[i as int]) {
                    let k = choose|k: int| 0 <= k < mfields.len() && mfields[k].0 == req[i as int];
                    assert(message.fields@[k].0@ == required@[i as int]@);
                }
            }
        }
        if !supplied {
            missing.push(required[i].clone());
        }
        proof {
            assert(req.take(i as int + 1).drop_last() =~= req.take(i as int));
            assert(req.take(i as int + 1).last() == req[i as int]);
            lemma_missing_step(req.take(i as int + 1), keys);
            assert(missing.deep_view() =~= missing_list(req.take(i as int + 1), keys));
        }
        i = i + 1;
    }
    proof {
        assert(req.take(n as int) =~= req);
    }
    if missing.len() == 0 {
        Ok(ValidationOutcome::Valid)
    } else {
        Ok(ValidationOutcome::Invalid(missing))
    }
}

/// Whether the field map supplies the given key.
fn fields_has_key(fields: &Vec<(String, String)>, key: &String) -> (r: bool)
    ensures
        r == exists|k: int| 0 <= k < fields@.len() && fields@[k].0@ == key@,
{
    let n = fields.len();
    let mut i: usize = 0;
    while i < n
        invariant
            n == fields.len(),
            i <= n,
            forall|k: int| 0 <= k < i ==> fields@[k].0@ != key@,
        decreases n - i,
    {
        if crate::text::str_eq(fields[i].0.as_str(), key.as_str()) {
            return true;
        }
        i = i + 1;
    }
    false
}

/// Ghost image of a provider request.
pub ghost struct ProviderRequestView {
    pub api_key: Seq<char>,
    pub template_id: Seq<char>,
    pub sender_name: Seq<char>,
    pub sender_email: Seq<char>,
    pub destination_name: Seq<char>,
    pub destination_email: Seq<char>,
    pub fields: Seq<(Seq<char>, Seq<char>)>,
    pub attachment: Option<AttachmentView>,
}

/// Everything one provider call needs, as plain values: the API key,
/// the provider's template id, sender and recipient identities, the
/// dynamic template fields, and an optional attachment.
#[derive(Debug, PartialEq)]
pub struct ProviderRequest {
    pub api_key: String,
    pub template_id: String,
    pub sender_name: String,
    pub sender_email: String,
    pub destination_name: String,
    pub destination_email: String,
    pub fields: Vec<(String, String)>,
    pub attachment: Option<Attachment>,
}

impl View for ProviderRequest {
    type V = ProviderRequestView;

    open spec fn view(&self) -> ProviderRequestView {
        ProviderRequestView {
            api_key: self.api_key@,
            template_id: self.template_id@,
            sender_name: self.sender_name@,
            sender_email: self.sender_email@,
            destination_name: self.destination_name@,
            destination_email: self.destination_email@,
            fields: crate::payload::fields_view(self.fields@),
            attachment: match self.attachment {
                Some(a) => Some(a@),
                None => None,
            },
        }
    }
}

/// The request a valid job message asks the provider to perform.
pub open spec fn request_view(cfg: SendGridView, m: MessageView) -> ProviderRequestView {
    ProviderRequestView {
        api_key: cfg.api_key,
        template_id: cfg.lookup(m.kind)->Some_0.template_id,
        sender_name: cfg.sender_name,
        sender_email: cfg.sender_email,
        destination_name: m.destination_name,
        destination_email: m.destination_email,
        fields: m.fields,
        attachment: m.attachment,
    }
}

/// Ghost image of a per-message failure.
pub ghost enum ProcessErrorView {
    Decode,
    UnknownTemplate { kind: Seq<char>, destination_name: Seq<char>, destination_email: Seq<char> },
    ValidationFailed {
        kind: Seq<char>,
        destination_name: Seq<char>,
        destination_email: Seq<char>,
        missing: Seq<Seq<char>>,
    },
}

/// Why a delivery was refused before any provider call.  Each variant
/// carries what the worker logs before nacking: the template kind, the
/// recipient, and for a validation failure the exact missing fields.
#[derive(Debug, PartialEq)]
pub enum ProcessError {
    /// The delivery's bytes are not a well-formed job message.
    Decode,
    /// The message's kind names no registered template.
    UnknownTemplate { kind: String, destination_name: String, destination_email: String },
    /// The message's field map leaves required fields unsupplied.
    ValidationFailed {
        kind: String,
        destination_name: String,
        destination_email: String,
        missing: Vec<String>,
    },
}

impl View for ProcessError {
    type V = ProcessErrorView;

    open spec fn view(&self) -> ProcessErrorView {
        match self {
            ProcessError::Decode => ProcessErrorView::Decode,
            ProcessError::UnknownTemplate { kind, destination_name, destination_email } => {
                ProcessErrorView::UnknownTemplate {
                    kind: kind@,
                    destination_name: destination_name@,
                    destination_email: destination_email@,
                }
            },
            ProcessError::ValidationFailed {
                kind,
                destination_name,
                destination_email,
                missing,
            } => {
                ProcessErrorView::ValidationFailed {
                    kind: kind@,
                    destination_name: destination_name@,
                    destination_email: destination_email@,
                    missing: missing.deep_view(),
                }
            },
        }
    }
}

/// Ghost image of a message plan.
pub ghost enum MessagePlanView {
    Dispatch(ProviderRequestView),
    Refuse(ProcessErrorView),
}

/// What one delivery's bytes ask the worker to do: dispatch a provider
/// request, or refuse without any provider call.
#[derive(Debug, PartialEq)]
pub enum MessagePlan {
    Dispatch(ProviderRequest),
    Refuse(ProcessError),
}

impl View for MessagePlan {
    type V = MessagePlanView;

    open spec fn view(&self) -> MessagePlanView {
        match self {
            MessagePlan::Dispatch(p) => MessagePlanView::Dispatch(p@),
            MessagePlan::Refuse(e) => MessagePlanView::Refuse(e@),
        }
    }
}

/// The plan one delivery's bytes and the registry determine: refuse on
/// a decode failure, an unknown template, or missing required fields;
/// otherwise dispatch the built provider request.
pub open spec fn plan_view_of(cfg: SendGridView, bytes: Seq<u8>) -> MessagePlanView {
    if !decodes(bytes) {
        MessagePlanView::Refuse(ProcessErrorView::Decode)
    } else {
        let m = message_view_of(json_of(bytes)->Some_0);
        if !cfg.has_template(m.kind) {
            MessagePlanView::Refuse(
                ProcessErrorView::UnknownTemplate {
                    kind: m.kind,
                    destination_name: m.destination_name,
                    destination_email: m.destination_email,
                },
            )
        } else {
            if validation_missing(cfg, m).len() == 0 {
                MessagePlanView::Dispatch(request_view(cfg, m))
            } else {
                MessagePlanView::Refuse(
                    ProcessErrorView::ValidationFailed {
                        kind: m.kind,
                        destination_name: m.destination_name,
                        destination_email: m.destination_email,
                        missing: validation_missing(cfg, m),
                    },
                )
            }
        }
    }
}

/// The handler that turns one delivery into a plan, owning the
/// provider settings and the template registry.
#[derive(Debug)]
pub struct SendGrid {
    pub config: config::SendGrid,
}

impl SendGrid {
    /// Builds the handler from the loaded configuration.
    pub fn from_config(config: &Config) -> (r: SendGrid)
        ensures
            r.config@ == config.sendgrid@,
    {
        SendGrid { config: config.sendgrid.duplicate() }
    }

    /// Plans one delivery: decodes its bytes, validates the message
    /// against the registry, and either builds the provider request or
    /// refuses with the exact failure, short-circuiting on the first
    /// one.  No provider call is made for a refused delivery.
    pub fn handle(&self, bytes: &[u8]) -> (r: MessagePlan)
        ensures
            r@ == plan_view_of(self.config@, bytes@),
    {
        let message = match decode(bytes) {
            Ok(m) => m,
            Err(_) => {
                return MessagePlan::Refuse(ProcessError::Decode);
            },
        };
        let outcome = match validate(&message, &self.config) {
            Ok(o) => o,
            Err(_) => {
                return MessagePlan::Refuse(
                    ProcessError::UnknownTemplate {
                        kind: message.kind,
                        destination_name: message.destination_name,
                        destination_email: message.destination_email,
                    },
                );
            },
        };
        match outcome {
            ValidationOutcome::Invalid(missing) => MessagePlan::Refuse(
                ProcessError::ValidationFailed {
                    kind: message.kind,
                    destination_name: message.destination_name,
                    destination_email: message.destination_email,
                    missing,
                },
            ),
            ValidationOutcome::Valid => {
                let template_id = match self.config.template_id(message.kind.as_str()) {
                    Ok(t) => t,
                    Err(_) => vstd::pervasive::unreached(),
                };
                MessagePlan::Dispatch(
                    ProviderRequest {
                        api_key: self.config.api_key.clone(),
                        template_id,
                        sender_name: self.config.sender_name.clone(),
                        sender_email: self.config.sender_email.clone(),
                        destination_name: message.destination_name,
                        destination_email: message.destination_email,
                        fields: message.fields,
                        attachment: message.attachment,
                    },
                )
            },
        }
    }
}

impl crate::amqp::MessageHandler for SendGrid {
    open spec fn plan_view(&self, bytes: Seq<u8>) -> MessagePlanView {
        plan_view_of(self.config@, bytes)
    }

    fn handle(&self, bytes: &[u8]) -> (r: MessagePlan) {
        SendGrid::handle(self, bytes)
    }
}

/// What the provider's transport handed back on a completed call: the
/// HTTP status and the response body.
#[derive(Debug, PartialEq)]
pub struct ProviderResponse {
    pub status: u16,
    pub body: String,
}

/// How one dispatch ended: the provider accepted the email, the
/// provider rejected it with a status and message, or the call never
/// completed.
#[derive(Debug, PartialEq)]
pub enum DispatchOutcome {
    Delivered,
    Rejected { status: u16, body: String },
    TransportError { cause: String },
}

/// Classifies what the provider's transport handed back: a 2xx status
/// is a delivery, any other status a rejection carrying the status and
/// body, and a transport failure keeps its cause.  Callers inspect
/// this classification, never the transport's own errors.
pub fn classify_send_result(result: Result<ProviderResponse, String>) -> (o: DispatchOutcome)
    ensures
        o is Delivered <==> (result is Ok && 200 <= result->Ok_0.status < 300),
        result is Ok && !(200 <= result->Ok_0.status < 300) ==> o == (DispatchOutcome::Rejected {
            status: result->Ok_0.status,
            body: result->Ok_0.body,
        }),
        result is Err ==> o == (DispatchOutcome::TransportError { cause: result->Err_0 }),
{
    match result {
        Ok(resp) => {
            if 200 <= resp.status && resp.status < 300 {
                DispatchOutcome::Delivered
            } else {
                DispatchOutcome::Rejected { status: resp.status, body: resp.body }
            }
        },
        Err(cause) => DispatchOutcome::TransportError { cause },
    }
}

/// A worker's acknowledgement decision for one delivery: discard it as
/// done, or hand it back to the broker for redelivery.
#[derive(Debug, Clone, Copy, PartialEq, Eq, Structural)]
pub enum AckDecision {
    Ack,
    NackRequeue,
}

/// The decision a completed dispatch owes: ack exactly on delivery,
/// nack-with-requeue on a rejection or a transport failure.
pub open spec fn dispatch_decision(outcome: DispatchOutcome) -> AckDecision {
    if outcome is Delivered {
        AckDecision::Ack
    } else {
        AckDecision::NackRequeue
    }
}

/// Decides the acknowledgement for a completed dispatch.
pub fn conclude(outcome: &DispatchOutcome) -> (r: AckDecision)
    ensures
        r == dispatch_decision(*outcome),
{
    match outcome {
        DispatchOutcome::Delivered => AckDecision::Ack,
        _ => AckDecision::NackRequeue,
    }
}

/// The one acknowledgement decision a delivery's processing owes, as a
/// function of its plan and — only when the plan asked for a dispatch —
/// of the dispatch's outcome.
pub open spec fn delivery_decision(plan: MessagePlanView, outcome: DispatchOutcome) -> AckDecision {
    match plan {
        MessagePlanView::Refuse(_) => AckDecision::NackRequeue,
        MessagePlanView::Dispatch(_) => dispatch_decision(outcome),
    }
}

/// Law: processing one delivery owes exactly one acknowledgement —
/// [`delivery_decision`] is total — and it is an `Ack` exactly when the
/// plan asked for a dispatch and the dispatch reported the email
/// delivered.  A refusal is nacked for redelivery before any provider
/// call; a dispatched delivery is settled only from its own outcome,
/// so the acknowledgement follows the dispatch's completion.
pub proof fn lemma_exactly_one_decision(plan: MessagePlanView, outcome: DispatchOutcome)
    ensures
        delivery_decision(plan, outcome) is Ack <==> (plan is Dispatch && outcome is Delivered),
        plan is Refuse ==> delivery_decision(plan, outcome) == AckDecision::NackRequeue,
{
}

} // verus!
