//! The counting engine: the state machine that owns the counters, classifies
//! inbound messages, decides what to persist, and derives the outbound
//! signals. It performs no outside work itself: the surrounding application
//! receives and sends datagrams, runs the event store, and hands every
//! outcome back to the engine.
use vstd::prelude::*;

use crate::codec::{Inbound, InboundView, OutboundSignal, SignalView, WireArg, WireMessageView};
use crate::mapper::{int_to_decimal, mapped_centis};
use crate::rules::{classify, matching_kinds, MaskEventKind, Rule};

verus! {

/// The address of the avatar parameter that mirrors the within-cycle count.
pub open spec fn counter_param_spec() -> Seq<char> {
    "/avatar/parameters/mask_counter"@
}

/// The address of the avatar parameter that mirrors the within-cycle count.
pub fn counter_param() -> (r: String)
    ensures
        r@ == counter_param_spec(),
{
    "/avatar/parameters/mask_counter".to_owned()
}

/// The address of the avatar parameter that mirrors the completed-cycle count.
pub open spec fn iteration_param_spec() -> Seq<char> {
    "/avatar/parameters/mask_iteration"@
}

/// The address of the avatar parameter that mirrors the completed-cycle count.
pub fn iteration_param() -> (r: String)
    ensures
        r@ == iteration_param_spec(),
{
    "/avatar/parameters/mask_iteration".to_owned()
}

/// The fixed address that signals the remote avatar was reloaded and lost its
/// local parameter state.
pub open spec fn avatar_change_param_spec() -> Seq<char> {
    "/avatar/change"@
}

/// The fixed address that signals the remote avatar was reloaded.
pub fn avatar_change_param() -> (r: String)
    ensures
        r@ == avatar_change_param_spec(),
{
    "/avatar/change".to_owned()
}

/// Each counted event advances the cycle by one step; a full cycle is this
/// many steps, after which the count rolls over and the completed-cycle
/// counter rises.
pub const CYCLE_STEPS: usize = 200;

/// The signal that mirrors a within-cycle count to the counter parameter.
pub open spec fn counter_signal_view(count: int) -> SignalView {
    SignalView { addr: counter_param_spec(), centis: mapped_centis(count) }
}

/// The signal that mirrors a completed-cycle count to the iteration parameter.
pub open spec fn iteration_signal_view(count: int) -> SignalView {
    SignalView { addr: iteration_param_spec(), centis: mapped_centis(count) }
}

/// The counting engine's state. The pair `(iteration_amount, data_len)`
/// encodes the cumulative count of durable grab events as
/// `iteration_amount * CYCLE_STEPS + data_len`; both move only on the engine's own
/// decisions and never run ahead of the event store.
#[derive(Clone, Debug, PartialEq, Eq)]
pub struct Engine {
    /// The configured classification rules, in evaluation order.
    pub rules: Vec<Rule>,
    /// The count within the current cycle.
    pub data_len: usize,
    /// The number of completed cycles.
    pub iteration_amount: usize,
}

/// The cumulative count the engine's counters encode.
pub open spec fn engine_total(e: Engine) -> int {
    e.iteration_amount * CYCLE_STEPS + e.data_len
}

impl Engine {
    /// A fresh engine seeded from the persisted record count. The seed lands
    /// wholly in the within-cycle count; the first rollover check folds any
    /// full cycles it holds into the completed-cycle counter and announces
    /// them.
    pub fn new(rules: Vec<Rule>, initial_total: usize) -> (r: Engine)
        ensures
            r.rules == rules,
            r.data_len == initial_total,
            r.iteration_amount == 0,
    {
        Engine { rules, data_len: initial_total, iteration_amount: 0 }
    }

    /// The rollover check, run before each inbound datagram: while the
    /// within-cycle count holds one or more full cycles, they move into the
    /// completed-cycle counter, and the new completed-cycle count goes out on
    /// the iteration address. Under a full cycle nothing changes and nothing
    /// is sent. Either way the counters keep encoding the same cumulative
    /// count, and afterwards the within-cycle count is below a full cycle.
    pub fn check_rollover(&mut self) -> (r: Option<OutboundSignal>)
        requires
            old(self).iteration_amount + old(self).data_len as int / CYCLE_STEPS as int <= usize::MAX,
            old(self).iteration_amount + old(self).data_len as int / CYCLE_STEPS as int <= i64::MAX,
        ensures
            final(self).rules == old(self).rules,
            final(self).data_len < CYCLE_STEPS,
            engine_total(*final(self)) == engine_total(*old(self)),
            old(self).data_len < CYCLE_STEPS ==> *final(self) == *old(self) && r is None,
            old(self).data_len >= CYCLE_STEPS ==> {
                &&& final(self).data_len == old(self).data_len as int % CYCLE_STEPS as int
                &&& final(self).iteration_amount == old(self).iteration_amount + old(
                    self,
                ).data_len as int / CYCLE_STEPS as int
                &&& (r matches Some(s) && s@ == iteration_signal_view(
                    final(self).iteration_amount as int,
                ))
            },
    {
        if self.data_len >= CYCLE_STEPS {
            self.iteration_amount = self.iteration_amount + self.data_len / CYCLE_STEPS;
            self.data_len = self.data_len % CYCLE_STEPS;
            Some(
                OutboundSignal {
                    address: iteration_param(),
                    value: int_to_decimal(self.iteration_amount),
                },
            )
        } else {
            None
        }
    }

    /// Decides what one decoded inbound packet asks for, mutating nothing:
    /// a boolean-true first argument asks for classification, the
    /// avatar-change address asks for a resynchronization of the current
    /// counters, and everything else is ignored.
    pub fn dispatch(&self, inbound: &Inbound) -> (r: Dispatch)
        requires
            self.data_len as int <= i64::MAX as int,
            self.iteration_amount as int <= i64::MAX as int,
        ensures
            r@ == dispatch_spec(*self, inbound@),
    {
        match inbound {
            Inbound::Bundle => Dispatch::Ignore,
            Inbound::Message(m) => {
                let mut first_true = false;
                if m.args.len() > 0 {
                    first_true = match m.args[0] {
                        WireArg::Bool(b) => b,
                        WireArg::Other => false,
                    };
                }
                if first_true {
                    Dispatch::Classified(classify(&self.rules, &m.addr))
                } else if m.addr == avatar_change_param() {
                    Dispatch::Resync(
                        OutboundSignal {
                            address: counter_param(),
                            value: int_to_decimal(self.data_len),
                        },
                        OutboundSignal {
                            address: iteration_param(),
                            value: int_to_decimal(self.iteration_amount),
                        },
                    )
                } else {
                    Dispatch::Ignore
                }
            },
        }
    }

    /// Applies the outcome of one classified event after the caller asked the
    /// event store to persist it. Nothing moves unless persistence succeeded:
    /// the counters never run ahead of the store. A durable grab event
    /// advances the within-cycle count by exactly one and sends the new count
    /// out on the counter address; a durable pose event is history only. Every
    /// durable event, and only a durable event, raises one "counter changed"
    /// notification.
    pub fn apply_event(&mut self, kind: MaskEventKind, persisted: bool) -> (r: EventEffect)
        requires
            persisted && kind.is_grab() ==> old(self).data_len + 1 <= usize::MAX && old(
                self,
            ).data_len + 1 <= i64::MAX,
        ensures
            (*final(self), r@) == apply_event_spec(*old(self), kind, persisted),
            engine_total(*final(self)) == engine_total(*old(self)) + (
            if persisted && kind.is_grab() {
                1int
            } else {
                0int
            }),
    {
        if !persisted {
            EventEffect { signal: None, notify: false }
        } else if kind.counts_toward_cycle() {
            self.data_len = self.data_len + 1;
            EventEffect {
                signal: Some(
                    OutboundSignal {
                        address: counter_param(),
                        value: int_to_decimal(self.data_len),
                    },
                ),
                notify: true,
            }
        } else {
            EventEffect { signal: None, notify: true }
        }
    }
}

/// What the engine asks of the caller for one inbound packet.
#[derive(Clone, Debug, PartialEq, Eq)]
pub enum Dispatch {
    /// Nothing to do: a bundle, an unrecognized address, or a boolean-false
    /// trigger.
    Ignore,
    /// Resend the current counters, unchanged: first the counter signal, then
    /// the iteration signal.
    Resync(OutboundSignal, OutboundSignal),
    /// Persist one record per matched kind, in this order, and hand each
    /// outcome to `apply_event`.
    Classified(Vec<MaskEventKind>),
}

/// The mathematical shape of a dispatch decision.
pub enum DispatchView {
    Ignore,
    Resync(SignalView, SignalView),
    Classified(Seq<MaskEventKind>),
}

impl View for Dispatch {
    type V = DispatchView;

    open spec fn view(&self) -> DispatchView {
        match self {
            Dispatch::Ignore => DispatchView::Ignore,
            Dispatch::Resync(c, i) => DispatchView::Resync(c@, i@),
            Dispatch::Classified(kinds) => DispatchView::Classified(kinds@),
        }
    }
}

/// Whether a decoded message's first argument is the boolean `true`: the
/// rising edge that triggers classification. A `false` first argument is the
/// falling edge and triggers nothing.
pub open spec fn first_arg_is_true(m: WireMessageView) -> bool {
    m.args.len() > 0 && m.args[0] == WireArg::Bool(true)
}

/// What `Engine::dispatch` decides: classification on a boolean-true trigger;
/// otherwise a resynchronization of the current counters when the
/// avatar-change address speaks; otherwise nothing.
pub open spec fn dispatch_spec(e: Engine, inbound: InboundView) -> DispatchView {
    match inbound {
        InboundView::Bundle => DispatchView::Ignore,
        InboundView::Message(m) => if first_arg_is_true(m) {
            DispatchView::Classified(matching_kinds(e.rules@, m.addr))
        } else if m.addr == avatar_change_param_spec() {
            DispatchView::Resync(
                counter_signal_view(e.data_len as int),
                iteration_signal_view(e.iteration_amount as int),
            )
        } else {
            DispatchView::Ignore
        },
    }
}

/// What one classified event does to the engine, and what it sends and
/// announces, once the caller reports whether its record became durable.
#[derive(Clone, Debug, PartialEq, Eq)]
pub struct EventEffect {
    /// The signal to put on the wire, if any.
    pub signal: Option<OutboundSignal>,
    /// Whether to publish one "counter changed" notification.
    pub notify: bool,
}

/// The mathematical shape of an event's effect.
pub struct EventEffectView {
    pub signal: Option<SignalView>,
    pub notify: bool,
}

impl View for EventEffect {
    type V = EventEffectView;

    open spec fn view(&self) -> EventEffectView {
        EventEffectView {
            signal: match self.signal {
                Some(s) => Some(s@),
                None => None,
            },
            notify: self.notify,
        }
    }
}

/// What `Engine::apply_event` does: nothing without a durable record; a
/// durable grab advances the within-cycle count by one and mirrors it out; a
/// durable pose only notifies.
pub open spec fn apply_event_spec(e: Engine, kind: MaskEventKind, persisted: bool) -> (
    Engine,
    EventEffectView,
) {
    if !persisted {
        (e, EventEffectView { signal: None, notify: false })
    } else if kind.is_grab() {
        (
            Engine { data_len: (e.data_len + 1) as usize, ..e },
            EventEffectView {
                signal: Some(counter_signal_view(e.data_len + 1)),
                notify: true,
            },
        )
    } else {
        (e, EventEffectView { signal: None, notify: true })
    }
}

/// Law: handling the avatar-change signal reads the counters and mutates
/// nothing, so two avatar-change messages in a row, with no intervening
/// events, produce the same outbound pair both times — the current counter
/// signal followed by the current iteration signal.
pub proof fn lemma_avatar_change_idempotent(
    e: Engine,
    first: WireMessageView,
    second: WireMessageView,
)
    requires
        !first_arg_is_true(first),
        first.addr == avatar_change_param_spec(),
        !first_arg_is_true(second),
        second.addr == avatar_change_param_spec(),
    ensures
        dispatch_spec(e, InboundView::Message(first)) == dispatch_spec(
            e,
            InboundView::Message(second),
        ),
        dispatch_spec(e, InboundView::Message(first)) == DispatchView::Resync(
            counter_signal_view(e.data_len as int),
            iteration_signal_view(e.iteration_amount as int),
        ),
{
}

/// Law: a message whose first argument is the boolean `false` is never
/// classified, whatever rules it would match: no persistence is asked for,
/// and since only `apply_event` moves the counters, no state changes.
pub proof fn lemma_false_trigger_ignored(e: Engine, m: WireMessageView)
    requires
        m.args.len() > 0,
        m.args[0] == WireArg::Bool(false),
    ensures
        !(dispatch_spec(e, InboundView::Message(m)) is Classified),
{
}

/// Law: a boolean-true message whose address matches exactly one rule, a grab
/// rule, asks for exactly one record; when that record becomes durable the
/// within-cycle count rises by exactly one, exactly one counter signal
/// carrying the new count goes out, and exactly one notification is raised.
pub proof fn lemma_grab_event_counts_once(e: Engine, m: WireMessageView, kind: MaskEventKind)
    requires
        first_arg_is_true(m),
        matching_kinds(e.rules@, m.addr) == seq![kind],
        kind.is_grab(),
        e.data_len + 1 <= usize::MAX,
    ensures
        dispatch_spec(e, InboundView::Message(m)) == DispatchView::Classified(seq![kind]),
        ({
            let (moved, effect) = apply_event_spec(e, kind, true);
            &&& moved.data_len == e.data_len + 1
            &&& moved.iteration_amount == e.iteration_amount
            &&& moved.rules == e.rules
            &&& effect.signal == Some(counter_signal_view(e.data_len + 1))
            &&& effect.notify
        }),
{
}

/// Law: when persistence fails, nothing moves and nothing is announced — the
/// counters never run ahead of the event store.
pub proof fn lemma_persistence_failure_changes_nothing(e: Engine, kind: MaskEventKind)
    ensures
        apply_event_spec(e, kind, false) == (
            e,
            EventEffectView { signal: None::<SignalView>, notify: false },
        ),
{
}

} // verus!
