use vstd::prelude::*;
use crate::config::RelayConfig;
use crate::relay::{ActionView, Confirmation, Event, Outcome, Phase, next, positive};

verus! {

/// The phase reached and the actions named when a relay in phase `p` is
/// handed `evs` in order.
pub open spec fn run(c: RelayConfig, p: Phase, evs: Seq<Event>) -> (Phase, Seq<ActionView>)
    decreases evs.len(),
{
    if evs.len() == 0 {
        (p, Seq::empty())
    } else {
        let prev = run(c, p, evs.drop_last());
        let t = next(c, prev.0, evs.last());
        (t.0, prev.1.push(t.1))
    }
}

/// The payloads of the publishes among `acts`, in order.
pub open spec fn published(acts: Seq<ActionView>) -> Seq<Seq<u8>>
    decreases acts.len(),
{
    if acts.len() == 0 {
        Seq::empty()
    } else {
        let rest = published(acts.drop_last());
        match acts.last() {
            ActionView::Publish { payload, .. } => rest.push(payload),
            _ => rest,
        }
    }
}

/// The payloads of the deliveries among `evs`, in order.
pub open spec fn delivered(evs: Seq<Event>) -> Seq<Seq<u8>>
    decreases evs.len(),
{
    if evs.len() == 0 {
        Seq::empty()
    } else {
        let rest = delivered(evs.drop_last());
        match evs.last() {
            Event::Delivered(payload) => rest.push(payload@),
            _ => rest,
        }
    }
}

/// `a` is `b` cut off after its first `a.len()` elements.
pub open spec fn is_prefix(a: Seq<Seq<u8>>, b: Seq<Seq<u8>>) -> bool {
    a.len() <= b.len() && forall|i: int| 0 <= i < a.len() ==> a[i] == b[i]
}

/// A message is in flight in these phases.
pub open spec fn in_flight(p: Phase) -> bool {
    p is Publishing || p is Confirming || p is Acking
}

/// The delivery taken in at `j` was forwarded and the forward confirmed.
pub open spec fn forward_confirmed(evs: Seq<Event>, j: int) -> bool {
    &&& j + 2 < evs.len()
    &&& evs[j + 1] == Event::Succeeded
    &&& evs[j + 2] matches Event::Confirmed(k) && positive(k)
}

/// The forward of the delivery taken in at `j` failed: the publish was
/// rejected, or its confirmation failed or was negative.
pub open spec fn forward_failed(evs: Seq<Event>, j: int) -> bool {
    ||| j + 1 < evs.len() && evs[j + 1] == Event::Failed
    ||| j + 2 < evs.len() && evs[j + 1] == Event::Succeeded && (evs[j + 2] == Event::Failed
        || evs[j + 2] == Event::Confirmed(Confirmation::Nack))
}

/// One action is named per event.
pub proof fn lemma_run_len(c: RelayConfig, p: Phase, evs: Seq<Event>)
    ensures
        run(c, p, evs).1.len() == evs.len(),
    decreases evs.len(),
{
    if evs.len() > 0 {
        lemma_run_len(c, p, evs.drop_last());
    }
}

/// The action named at `k` is the transition from the phase reached after
/// the first `k` events.
pub proof fn lemma_run_index(c: RelayConfig, p: Phase, evs: Seq<Event>, k: int)
    requires
        0 <= k < evs.len(),
    ensures
        run(c, p, evs).1[k] == next(c, run(c, p, evs.take(k)).0, evs[k]).1,
        run(c, p, evs.take(k + 1)).0 == next(c, run(c, p, evs.take(k)).0, evs[k]).0,
    decreases evs.len(),
{
    lemma_run_len(c, p, evs.drop_last());
    if k == evs.len() - 1 {
        assert(evs.drop_last() =~= evs.take(k));
        assert(evs.take(k + 1) =~= evs);
    } else {
        lemma_run_index(c, p, evs.drop_last(), k);
        assert(evs.drop_last().take(k) =~= evs.take(k));
        assert(evs.drop_last().take(k + 1) =~= evs.take(k + 1));
    }
}

/// Order is kept: the payloads published are those delivered, in the order
/// of delivery and none twice; all of them as long as the relay has not
/// halted, and a prefix of them once it has.
pub proof fn lemma_order_preserved(c: RelayConfig, p: Phase, evs: Seq<Event>)
    ensures
        is_prefix(published(run(c, p, evs).1), delivered(evs)),
        !(run(c, p, evs).0 is Halted) ==> published(run(c, p, evs).1) == delivered(evs),
    decreases evs.len(),
{
    if evs.len() > 0 {
        lemma_order_preserved(c, p, evs.drop_last());
        let prev = run(c, p, evs.drop_last());
        let acts = run(c, p, evs).1;
        assert(acts.drop_last() =~= prev.1);
    }
}

/// No acknowledgment comes before the forward it depends on has resolved:
/// an acknowledgment is named only two events after the publish of the
/// delivery in flight, once the channel accepted that publish and the broker
/// confirmed it.
pub proof fn lemma_no_premature_ack(c: RelayConfig, p: Phase, evs: Seq<Event>, j: int)
    requires
        !in_flight(p),
        0 <= j < evs.len(),
        run(c, p, evs).1[j] == ActionView::Ack,
    ensures
        j >= 2,
        evs[j - 2] is Delivered,
        run(c, p, evs).1[j - 2] == (ActionView::Publish {
            exchange: c.target_exchange@,
            routing_key: c.target_routing_key@,
            payload: evs[j - 2]->Delivered_0@,
        }),
        run(c, p, evs).1[j - 1] == ActionView::AwaitConfirm,
        evs[j - 1] == Event::Succeeded,
        forward_confirmed(evs, j - 2),
{
    assert(evs.take(0) =~= Seq::<Event>::empty());
    lemma_run_index(c, p, evs, j);
    assert(run(c, p, evs.take(j)).0 == Phase::Confirming);
    lemma_run_index(c, p, evs, j - 1);
    assert(run(c, p, evs.take(j - 1)).0 == Phase::Publishing);
    lemma_run_index(c, p, evs, j - 2);
}

/// At least once: a delivery whose forward is confirmed is acknowledged; one
/// whose forward fails is reported as such and left unacknowledged, every
/// later acknowledgment belonging to a later delivery.
pub proof fn lemma_at_least_once(c: RelayConfig, p: Phase, evs: Seq<Event>, j: int)
    requires
        !in_flight(p),
        0 <= j < evs.len(),
        run(c, p, evs).1[j] is Publish,
    ensures
        forward_confirmed(evs, j) ==> run(c, p, evs).1[j + 2] == ActionView::Ack,
        j + 1 < evs.len() && evs[j + 1] == Event::Failed ==> run(c, p, evs).1[j + 1]
            == ActionView::NextDelivery(Outcome::ForwardFailed),
        forward_failed(evs, j) && !(evs[j + 1] == Event::Failed) ==> run(c, p, evs).1[j + 2]
            == ActionView::NextDelivery(Outcome::ForwardFailed),
        forward_failed(evs, j) ==> forall|k: int|
            j < k < evs.len() && run(c, p, evs).1[k] == ActionView::Ack ==> exists|i: int|
                j < i < k && #[trigger] run(c, p, evs).1[i] is Publish,
{
    let acts = run(c, p, evs).1;
    lemma_run_index(c, p, evs, j);
    assert(run(c, p, evs.take(j + 1)).0 == Phase::Publishing);
    if j + 1 < evs.len() {
        lemma_run_index(c, p, evs, j + 1);
    }
    if j + 2 < evs.len() {
        lemma_run_index(c, p, evs, j + 2);
    }
    if forward_failed(evs, j) {
        assert forall|k: int|
            j < k < evs.len() && acts[k] == ActionView::Ack implies exists|i: int|
                j < i < k && #[trigger] acts[i] is Publish by {
            lemma_no_premature_ack(c, p, evs, k);
            assert(acts[k - 2] is Publish);
        }
    }
}

/// The broker's queues and bindings, as far as the relay's actions touch
/// them: declaring a queue adds it if absent, binding adds the triple if
/// absent.
pub struct Topology {
    pub queues: Set<Seq<char>>,
    pub bindings: Set<(Seq<char>, Seq<char>, Seq<char>)>,
}

/// What one action does to the topology.
pub open spec fn apply(t: Topology, a: ActionView) -> Topology {
    match a {
        ActionView::DeclareQueue { queue } => Topology { queues: t.queues.insert(queue), ..t },
        ActionView::BindQueue { queue, exchange, routing_key } => Topology {
            bindings: t.bindings.insert((queue, exchange, routing_key)),
            ..t
        },
        _ => t,
    }
}

pub open spec fn apply_all(t: Topology, acts: Seq<ActionView>) -> Topology
    decreases acts.len(),
{
    if acts.len() == 0 {
        t
    } else {
        apply(apply_all(t, acts.drop_last()), acts.last())
    }
}

pub open spec fn declared_queues(acts: Seq<ActionView>) -> Set<Seq<char>>
    decreases acts.len(),
{
    if acts.len() == 0 {
        Set::empty()
    } else {
        apply(Topology { queues: declared_queues(acts.drop_last()), bindings: Set::empty() }, acts.last()).queues
    }
}

pub open spec fn declared_bindings(acts: Seq<ActionView>) -> Set<(Seq<char>, Seq<char>, Seq<char>)>
    decreases acts.len(),
{
    if acts.len() == 0 {
        Set::empty()
    } else {
        apply(Topology { queues: Set::empty(), bindings: declared_bindings(acts.drop_last()) }, acts.last()).bindings
    }
}

/// The actions of a relay's startup when every step succeeds: connect to the
/// target, then declare and bind the source queue if so configured, then
/// subscribe.
pub open spec fn startup(c: RelayConfig) -> Seq<ActionView> {
    run(c, Phase::ConnectingSource, seq![Event::Succeeded, Event::Succeeded, Event::Succeeded, Event::Succeeded]).1
}

proof fn lemma_apply_all_adds(t: Topology, acts: Seq<ActionView>)
    ensures
        apply_all(t, acts).queues == t.queues.union(declared_queues(acts)),
        apply_all(t, acts).bindings == t.bindings.union(declared_bindings(acts)),
    decreases acts.len(),
{
    if acts.len() > 0 {
        lemma_apply_all_adds(t, acts.drop_last());
        assert(apply_all(t, acts).queues =~= t.queues.union(declared_queues(acts)));
        assert(apply_all(t, acts).bindings =~= t.bindings.union(declared_bindings(acts)));
    }
}

/// Declaration is idempotent: replaying the startup of a relay on a broker
/// whose topology it already shaped changes nothing, and the configured
/// queue and binding are in place after the first time.
pub proof fn lemma_declaration_idempotent(c: RelayConfig, t: Topology)
    ensures
        apply_all(apply_all(t, startup(c)), startup(c)) == apply_all(t, startup(c)),
        c.source_binding matches Some(b) ==> {
            &&& apply_all(t, startup(c)).queues.contains(c.source_queue@)
            &&& apply_all(t, startup(c)).bindings.contains(
                (c.source_queue@, b.exchange@, b.routing_key@),
            )
        },
{
    let d = startup(c);
    let once = apply_all(t, d);
    lemma_apply_all_adds(t, d);
    lemma_apply_all_adds(once, d);
    assert(apply_all(once, d).queues =~= once.queues);
    assert(apply_all(once, d).bindings =~= once.bindings);
    let s = Event::Succeeded;
    let evs = seq![s, s, s, s];
    assert(evs.drop_last() =~= seq![s, s, s]);
    assert(evs.drop_last().drop_last() =~= seq![s, s]);
    assert(evs.drop_last().drop_last().drop_last() =~= seq![s]);
    assert(seq![s].drop_last() =~= Seq::<Event>::empty());
    reveal_with_fuel(run, 5);
    reveal_with_fuel(declared_queues, 5);
    reveal_with_fuel(declared_bindings, 5);
    if c.source_binding is Some {
        assert(d.len() == 4);
        assert(d.drop_last().drop_last().drop_last() =~= seq![d[0]]);
        assert(d.drop_last().drop_last() =~= seq![d[0], d[1]]);
        assert(d.drop_last() =~= seq![d[0], d[1], d[2]]);
        assert(seq![d[0]].drop_last() =~= Seq::<ActionView>::empty());
        assert(declared_queues(d).contains(c.source_queue@));
    }
}

} // verus!
