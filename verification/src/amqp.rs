//! The broker-facing core: topology descriptors, the consumer worker's
//! state machine, and a model of the broker's declare-if-not-exists
//! topology semantics.
//!
//! The broker connection, channels and the delivery stream are I/O and
//! stay with the program around the library.  That program drives one
//! [`Worker`] per channel through its transitions; the worker's
//! contracts force the lifecycle order, at most one unacknowledged
//! delivery in flight per worker, and exactly one acknowledgement per
//! delivery, issued for a dispatched delivery only from the dispatch's
//! own outcome.

use vstd::prelude::*;
use vstd::string::StringExecFns;
use crate::config;
use crate::config::Config;
use crate::sendgrid::{
    conclude, dispatch_decision, AckDecision, DispatchOutcome, MessagePlan, MessagePlanView,
    ProcessError, ProviderRequest,
};

verus! {

/// The character of a decimal digit.
pub open spec fn digit_char(d: nat) -> char {
    if d == 0 {
        '0'
    } else if d == 1 {
        '1'
    } else if d == 2 {
        '2'
    } else if d == 3 {
        '3'
    } else if d == 4 {
        '4'
    } else if d == 5 {
        '5'
    } else if d == 6 {
        '6'
    } else if d == 7 {
        '7'
    } else if d == 8 {
        '8'
    } else {
        '9'
    }
}

/// The decimal rendering of a number, most significant digit first.
pub open spec fn spec_decimal(n: nat) -> Seq<char>
    decreases n,
{
    if n < 10 {
        seq![digit_char(n)]
    } else {
        spec_decimal(n / 10).push(digit_char(n % 10))
    }
}

/// A decimal rendering has one character per digit.
proof fn lemma_decimal_len(n: nat)
    ensures
        n < 10 ==> spec_decimal(n).len() == 1,
        n >= 10 ==> spec_decimal(n).len() >= 2,
    decreases n,
{
    if n >= 10 {
        lemma_decimal_len(n / 10);
    }
}

/// Distinct numbers have distinct decimal renderings.
pub proof fn lemma_decimal_injective(a: nat, b: nat)
    requires
        spec_decimal(a) == spec_decimal(b),
    ensures
        a == b,
    decreases a,
{
    lemma_decimal_len(a);
    lemma_decimal_len(b);
    if a < 10 && b < 10 {
        assert(spec_decimal(a)[0] == digit_char(a));
        assert(spec_decimal(b)[0] == digit_char(b));
    } else if a < 10 || b < 10 {
        assert(false);
    } else {
        let sa = spec_decimal(a / 10);
        let sb = spec_decimal(b / 10);
        let da = digit_char(a % 10);
        let db = digit_char(b % 10);
        assert(sa.push(da).last() == da);
        assert(sb.push(db).last() == db);
        assert(da == db);
        assert(sa =~= sb) by {
            assert(sa.push(da).drop_last() =~= sa);
            assert(sb.push(db).drop_last() =~= sb);
        }
        lemma_decimal_injective(a / 10, b / 10);
        vstd::arithmetic::div_mod::lemma_fundamental_div_mod(a as int, 10);
        vstd::arithmetic::div_mod::lemma_fundamental_div_mod(b as int, 10);
    }
}

/// The one-character string of a decimal digit.
fn digit_str(d: usize) -> (r: &'static str)
    requires
        d < 10,
    ensures
        r@ == seq![digit_char(d as nat)],
{
    proof {
        reveal_strlit("0");
        reveal_strlit("1");
        reveal_strlit("2");
        reveal_strlit("3");
        reveal_strlit("4");
        reveal_strlit("5");
        reveal_strlit("6");
        reveal_strlit("7");
        reveal_strlit("8");
        reveal_strlit("9");
    }
    let r = if d == 0 {
        "0"
    } else if d == 1 {
        "1"
    } else if d == 2 {
        "2"
    } else if d == 3 {
        "3"
    } else if d == 4 {
        "4"
    } else if d == 5 {
        "5"
    } else if d == 6 {
        "6"
    } else if d == 7 {
        "7"
    } else {
        "8"
    };
    let r = if d == 9 {
        "9"
    } else {
        r
    };
    proof {
        assert(r@ =~= seq![digit_char(d as nat)]);
    }
    r
}

/// Renders a number in decimal.
pub fn decimal_string(n: usize) -> (r: String)
    ensures
        r@ == spec_decimal(n as nat),
    decreases n,
{
    if n < 10 {
        digit_str(n).to_owned()
    } else {
        let mut r = decimal_string(n / 10);
        r.append(digit_str(n % 10));
        proof {
            assert(r@ =~= spec_decimal(n as nat));
        }
        r
    }
}

/// Ghost image of a worker's topology descriptor.
pub ghost struct TopologyDescriptorView {
    pub exchange_name: Seq<char>,
    pub queue_name: Seq<char>,
    pub routing_key: Seq<char>,
    pub consumer_tag: Seq<char>,
}

/// What one worker declares and consumes: the durable exchange, the
/// durable queue, the binding between them, and the worker's own
/// consumer tag.  Identical across the workers of one bridge but for
/// the tag.
#[derive(Debug, PartialEq)]
pub struct TopologyDescriptor {
    pub exchange_name: String,
    pub queue_name: String,
    pub routing_key: String,
    pub consumer_tag: String,
}

impl View for TopologyDescriptor {
    type V = TopologyDescriptorView;

    open spec fn view(&self) -> TopologyDescriptorView {
        TopologyDescriptorView {
            exchange_name: self.exchange_name@,
            queue_name: self.queue_name@,
            routing_key: self.routing_key@,
            consumer_tag: self.consumer_tag@,
        }
    }
}

/// The consumer tag of one worker: the configured consumer name, a
/// hyphen, and the worker's index in decimal.
pub open spec fn consumer_tag_view(consumer_name: Seq<char>, i: nat) -> Seq<char> {
    consumer_name + "-"@ + spec_decimal(i)
}

/// Workers of one bridge get distinct consumer tags.
pub proof fn lemma_consumer_tags_distinct(consumer_name: Seq<char>, i: nat, j: nat)
    requires
        i != j,
    ensures
        consumer_tag_view(consumer_name, i) != consumer_tag_view(consumer_name, j),
{
    if consumer_tag_view(consumer_name, i) == consumer_tag_view(consumer_name, j) {
        let p = consumer_name + "-"@;
        let di = spec_decimal(i);
        let dj = spec_decimal(j);
        assert(consumer_tag_view(consumer_name, i) =~= p + di);
        assert(consumer_tag_view(consumer_name, j) =~= p + dj);
        assert(di =~= dj) by {
            assert((p + di).len() == p.len() + di.len());
            assert((p + dj).len() == p.len() + dj.len());
            assert(forall|k: int|
                0 <= k < di.len() ==> di[k] == (p + di)[p.len() + k] && dj[k] == (p + dj)[p.len()
                    + k]);
        }
        lemma_decimal_injective(i, j);
        assert(false);
    }
}

/// Builds one worker's consumer tag.
fn consumer_tag(consumer_name: &String, i: usize) -> (r: String)
    ensures
        r@ == consumer_tag_view(consumer_name@, i as nat),
{
    let mut r = consumer_name.clone();
    r.append("-");
    let digits = decimal_string(i);
    r.append(digits.as_str());
    proof {
        assert(r@ =~= consumer_tag_view(consumer_name@, i as nat));
    }
    r
}

/// The broker-facing side of the bridge: owns the broker settings and
/// plans the topology its consumer workers declare.
#[derive(Debug)]
pub struct AMQP {
    pub config: config::AMQP,
}

impl AMQP {
    /// Takes the broker settings from the loaded configuration.
    pub fn from_config(config: &Config) -> (r: AMQP)
        ensures
            r.config@ == config.amqp@,
    {
        AMQP { config: config.amqp.duplicate() }
    }

    /// One topology descriptor per configured worker: all name the
    /// same exchange, queue and routing key, and each carries a
    /// worker-unique consumer tag derived from the configured consumer
    /// name.
    pub fn worker_descriptors(&self) -> (r: Vec<TopologyDescriptor>)
        ensures
            r@.len() == self.config@.workers,
            forall|i: int|
                0 <= i < r@.len() ==> (#[trigger] r@[i])@ == (TopologyDescriptorView {
                    exchange_name: self.config@.exchange_name,
                    queue_name: self.config@.queue_name,
                    routing_key: self.config@.routing_key,
                    consumer_tag: consumer_tag_view(self.config@.consumer_name, i as nat),
                }),
            forall|i: int, j: int|
                0 <= i < j < r@.len() ==> r@[i]@.consumer_tag != r@[j]@.consumer_tag,
    {
        let n = self.config.workers;
        let mut r: Vec<TopologyDescriptor> = Vec::new();
        let mut i: usize = 0;
        while i < n
            invariant
                n == self.config.workers,
                i <= n,
                r@.len() == i as int,
                forall|k: int|
                    0 <= k < i ==> (#[trigger] r@[k])@ == (TopologyDescriptorView {
                        exchange_name: self.config@.exchange_name,
                        queue_name: self.config@.queue_name,
                        routing_key: self.config@.routing_key,
                        consumer_tag: consumer_tag_view(self.config@.consumer_name, k as nat),
                    }),
            decreases n - i,
        {
            let d = TopologyDescriptor {
                exchange_name: self.config.exchange_name.clone(),
                queue_name: self.config.queue_name.clone(),
                routing_key: self.config.routing_key.clone(),
                consumer_tag: consumer_tag(&self.config.consumer_name, i),
            };
            r.push(d);
            i = i + 1;
        }
        proof {
            assert forall|i: int, j: int|
                0 <= i < j < r@.len() implies r@[i]@.consumer_tag != r@[j]@.consumer_tag by {
                lemma_consumer_tags_distinct(self.config@.consumer_name, i as nat, j as nat);
            }
        }
        r
    }
}

/// Where one consumer worker stands in its lifecycle.
#[derive(Debug, Clone, Copy, PartialEq, Eq, Structural)]
pub enum WorkerPhase {
    /// Channel open, topology not yet declared.
    Connecting,
    /// Exchange, queue and binding declared.
    TopologyReady,
    /// Registered as a consumer, no delivery in flight.
    Consuming,
    /// One delivery's provider request handed out, its settlement owed.
    Dispatching,
    /// Channel or connection lost; terminal.
    Failed,
}

/// What a worker asks of its driver for one accepted delivery.
#[derive(Debug, PartialEq)]
pub enum DeliveryStep {
    /// Perform this provider request, then settle the delivery through
    /// [`Worker::dispatch_completed`].
    Dispatch(ProviderRequest),
    /// Refused before any provider call: log the error, then issue the
    /// decision to the broker.
    Refused(ProcessError, AckDecision),
}

/// The verified core of one consumer worker.  The driver owns the
/// channel and the delivery stream; the worker's transitions force the
/// lifecycle order `Connecting → TopologyReady → Consuming →
/// (Dispatching →) Consuming`, keep at most one unacknowledged
/// delivery in flight, and settle every accepted delivery exactly
/// once.
#[derive(Debug)]
pub struct Worker {
    pub phase: WorkerPhase,
    pub descriptor: TopologyDescriptor,
}

impl Worker {
    /// A worker for one channel, its topology not yet declared.
    pub fn new(descriptor: TopologyDescriptor) -> (r: Worker)
        ensures
            r.phase is Connecting,
            r.descriptor == descriptor,
    {
        Worker { phase: WorkerPhase::Connecting, descriptor }
    }

    /// Records that the exchange, the queue and their binding are
    /// declared on the worker's channel.
    pub fn topology_declared(&mut self)
        requires
            old(self).phase is Connecting,
        ensures
            final(self).phase is TopologyReady,
            final(self).descriptor == old(self).descriptor,
    {
        self.phase = WorkerPhase::TopologyReady;
    }

    /// Records that the worker is registered as a consumer under its
    /// tag.
    pub fn consumer_registered(&mut self)
        requires
            old(self).phase is TopologyReady,
        ensures
            final(self).phase is Consuming,
            final(self).descriptor == old(self).descriptor,
    {
        self.phase = WorkerPhase::Consuming;
    }

    /// Accepts the plan for one delivery.  A refusal settles at once
    /// with a nack-for-redelivery and the worker keeps consuming; a
    /// dispatch leaves the worker owing that delivery's settlement,
    /// and no further delivery can be accepted before it.
    pub fn delivery_received(&mut self, plan: MessagePlan) -> (r: DeliveryStep)
        requires
            old(self).phase is Consuming,
        ensures
            final(self).descriptor == old(self).descriptor,
            plan matches MessagePlan::Dispatch(p) ==> final(self).phase is Dispatching && r == (
            DeliveryStep::Dispatch(p)),
            plan matches MessagePlan::Refuse(e) ==> final(self).phase is Consuming && r == (
            DeliveryStep::Refused(e, AckDecision::NackRequeue)),
    {
        match plan {
            MessagePlan::Dispatch(p) => {
                self.phase = WorkerPhase::Dispatching;
                DeliveryStep::Dispatch(p)
            },
            MessagePlan::Refuse(e) => DeliveryStep::Refused(e, AckDecision::NackRequeue),
        }
    }

    /// Settles the in-flight delivery from its dispatch outcome: ack
    /// exactly on delivery, nack-with-requeue otherwise.  Only here
    /// can an ack arise, so the acknowledgement follows the dispatch's
    /// completion.
    pub fn dispatch_completed(&mut self, outcome: &DispatchOutcome) -> (r: AckDecision)
        requires
            old(self).phase is Dispatching,
        ensures
            final(self).phase is Consuming,
            final(self).descriptor == old(self).descriptor,
            r == dispatch_decision(*outcome),
    {
        self.phase = WorkerPhase::Consuming;
        conclude(outcome)
    }

    /// Records a lost channel or connection.  Terminal: the worker
    /// surfaces the failure and never restarts itself; any restart is
    /// the supervisor's decision.
    pub fn connection_lost(&mut self)
        ensures
            final(self).phase is Failed,
            final(self).descriptor == old(self).descriptor,
    {
        self.phase = WorkerPhase::Failed;
    }
}

/// One delivery-processing capability: plan what one delivery's bytes
/// ask for.  The bridge has a single implementation,
/// [`crate::sendgrid::SendGrid`]; the trait is the seam the worker
/// loop is written against.
pub trait MessageHandler: Sized {
    /// The plan this handler's settings determine for the bytes.
    spec fn plan_view(&self, bytes: Seq<u8>) -> MessagePlanView;

    /// Plans one delivery from its raw bytes.
    fn handle(&self, bytes: &[u8]) -> (r: MessagePlan)
        ensures
            r@ == self.plan_view(bytes@),
    ;
}

/// Ghost image of the broker's topology.
pub ghost struct BrokerTopologyView {
    pub exchanges: Seq<Seq<char>>,
    pub queues: Seq<Seq<char>>,
    pub bindings: Seq<(Seq<char>, Seq<char>, Seq<char>)>,
}

/// The binding a descriptor declares: queue, exchange, routing key.
pub open spec fn binding_of(d: TopologyDescriptorView) -> (Seq<char>, Seq<char>, Seq<char>) {
    (d.queue_name, d.exchange_name, d.routing_key)
}

/// What one worker's declarations do to a broker: each of the
/// exchange, the queue and the binding is created only where it does
/// not exist yet — the declare-if-not-exists semantics the broker
/// provides for durable declarations.
pub open spec fn declare_effect(
    t: BrokerTopologyView,
    d: TopologyDescriptorView,
) -> BrokerTopologyView {
    BrokerTopologyView {
        exchanges: if t.exchanges.contains(d.exchange_name) {
            t.exchanges
        } else {
            t.exchanges.push(d.exchange_name)
        },
        queues: if t.queues.contains(d.queue_name) {
            t.queues
        } else {
            t.queues.push(d.queue_name)
        },
        bindings: if t.bindings.contains(binding_of(d)) {
            t.bindings
        } else {
            t.bindings.push(binding_of(d))
        },
    }
}

/// Law: declaring the same exchange, queue and binding twice — as two
/// workers do at startup, or one worker after a restart — errors never
/// and creates no duplicate topology: the second declaration leaves
/// the broker exactly as the first left it.
pub proof fn lemma_declare_idempotent(t: BrokerTopologyView, d: TopologyDescriptorView)
    ensures
        declare_effect(declare_effect(t, d), d) == declare_effect(t, d),
{
    let t1 = declare_effect(t, d);
    assert(t1.exchanges.contains(d.exchange_name)) by {
        if !t.exchanges.contains(d.exchange_name) {
            assert(t1.exchanges[t.exchanges.len() as int] == d.exchange_name);
        }
    }
    assert(t1.queues.contains(d.queue_name)) by {
        if !t.queues.contains(d.queue_name) {
            assert(t1.queues[t.queues.len() as int] == d.queue_name);
        }
    }
    assert(t1.bindings.contains(binding_of(d))) by {
        if !t.bindings.contains(binding_of(d)) {
            assert(t1.bindings[t.bindings.len() as int] == binding_of(d));
        }
    }
}

/// A model of the broker's topology, as workers' declarations shape
/// it.  It lets the library state — and its tests check — that
/// repeated declarations are harmless; at run time the broker itself
/// keeps this state.
#[derive(Debug, PartialEq)]
pub struct BrokerTopology {
    pub exchanges: Vec<String>,
    pub queues: Vec<String>,
    pub bindings: Vec<(String, String, String)>,
}

impl View for BrokerTopology {
    type V = BrokerTopologyView;

    open spec fn view(&self) -> BrokerTopologyView {
        BrokerTopologyView {
            exchanges: self.exchanges.deep_view(),
            queues: self.queues.deep_view(),
            bindings: self.bindings@.map(
                |i: int, b: (String, String, String)| (b.0@, b.1@, b.2@),
            ),
        }
    }
}

/// True exactly when the vector holds the string.
fn contains_string(v: &Vec<String>, s: &String) -> (r: bool)
    ensures
        r == v.deep_view().contains(s@),
{
    let n = v.len();
    let mut i: usize = 0;
    while i < n
        invariant
            n == v.len(),
            i <= n,
            forall|k: int| 0 <= k < i ==> v@[k]@ != s@,
        decreases n - i,
    {
        if crate::text::str_eq(v[i].as_str(), s.as_str()) {
            proof {
                assert(v.deep_view()[i as int] == s@);
            }
            return true;
        }
        i = i + 1;
    }
    proof {
        if v.deep_view().contains(s@) {
            let k = choose|k: int| 0 <= k < v.deep_view().len() && v.deep_view()[k] == s@;
            assert(v@[k]@ == s@);
        }
    }
    false
}

/// True exactly when the topology holds the descriptor's binding.
fn contains_binding(v: &Vec<(String, String, String)>, d: &TopologyDescriptor) -> (r: bool)
    ensures
        r == v@.map(|i: int, b: (String, String, String)| (b.0@, b.1@, b.2@)).contains(
            (d.queue_name@, d.exchange_name@, d.routing_key@),
        ),
{
    let ghost mapped = v@.map(|i: int, b: (String, String, String)| (b.0@, b.1@, b.2@));
    let n = v.len();
    let mut i: usize = 0;
    while i < n
        invariant
            n == v.len(),
            mapped == v@.map(|i: int, b: (String, String, String)| (b.0@, b.1@, b.2@)),
            i <= n,
            forall|k: int|
                0 <= k < i ==> !(v@[k].0@ == d.queue_name@ && v@[k].1@ == d.exchange_name@
                    && v@[k].2@ == d.routing_key@),
        decreases n - i,
    {
        if crate::text::str_eq(v[i].0.as_str(), d.queue_name.as_str()) && crate::text::str_eq(
            v[i].1.as_str(),
            d.exchange_name.as_str(),
        ) && crate::text::str_eq(v[i].2.as_str(), d.routing_key.as_str()) {
            proof {
                assert(mapped[i as int] == (d.queue_name@, d.exchange_name@, d.routing_key@));
            }
            return true;
        }
        i = i + 1;
    }
    proof {
        if mapped.contains((d.queue_name@, d.exchange_name@, d.routing_key@)) {
            let k = choose|k: int|
                0 <= k < mapped.len() && mapped[k] == (
                d.queue_name@,
                d.exchange_name@,
                d.routing_key@,
                );
            assert(v@[k].0@ == d.queue_name@);
        }
    }
    false
}

impl BrokerTopology {
    /// A broker with no topology declared.
    pub fn new() -> (r: BrokerTopology)
        ensures
            r@.exchanges.len() == 0,
            r@.queues.len() == 0,
            r@.bindings.len() == 0,
    {
        let r = BrokerTopology { exchanges: Vec::new(), queues: Vec::new(), bindings: Vec::new() };
        proof {
            assert(r@.exchanges =~= Seq::<Seq<char>>::empty());
            assert(r@.queues =~= Seq::<Seq<char>>::empty());
            assert(r@.bindings =~= Seq::<(Seq<char>, Seq<char>, Seq<char>)>::empty());
        }
        r
    }

    /// Declares the descriptor's exchange, queue and binding, each
    /// created only where it does not exist yet; repeating a
    /// declaration is never an error.
    pub fn declare(&mut self, d: &TopologyDescriptor)
        ensures
            final(self)@ == declare_effect(old(self)@, d@),
    {
        if !contains_string(&self.exchanges, &d.exchange_name) {
            self.exchanges.push(d.exchange_name.clone());
            proof {
                assert(self.exchanges.deep_view() =~= old(self).exchanges.deep_view().push(
                    d.exchange_name@,
                ));
            }
        }
        if !contains_string(&self.queues, &d.queue_name) {
            self.queues.push(d.queue_name.clone());
            proof {
                assert(self.queues.deep_view() =~= old(self).queues.deep_view().push(
                    d.queue_name@,
                ));
            }
        }
        if !contains_binding(&self.bindings, d) {
            self.bindings.push(
                (d.queue_name.clone(), d.exchange_name.clone(), d.routing_key.clone()),
            );
            proof {
                assert(self@.bindings =~= old(self)@.bindings.push(binding_of(d@)));
            }
        }
    }
}

} // verus!
