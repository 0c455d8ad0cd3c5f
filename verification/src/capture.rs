//! The capture loop's decision core: classify each raw event, rate-limit mouse
//! moves through the throttle filter, and produce the events to hand to the
//! dispatch sink, in arrival order.
//!
//! The blocking parts of the loop — waiting on the OS hook and publishing to
//! the sink — stay with the caller, which feeds each raw event (with its
//! arrival time) through `process_raw_event` and forwards whatever comes
//! back. Dispatch failure is the caller's to swallow; nothing here can fail.

use vstd::prelude::*;
use crate::event::{classify, classify_spec, DeviceEvent, DeviceEventKind, RawEvent};
use crate::throttle::ThrottleFilter;

verus! {

/// A raw event together with its arrival time, in milliseconds on the
/// capture loop's monotonic clock.
#[derive(Debug, Clone, PartialEq, Eq)]
pub struct TimedRawEvent {
    pub raw: RawEvent,
    pub at_ms: u64,
}

/// What one capture step forwards to the dispatch sink: the classified event,
/// except that an unrepresentable raw kind yields nothing and a mouse move is
/// consulted against the throttle filter first.
pub open spec fn step_output(f: ThrottleFilter, e: TimedRawEvent) -> Option<DeviceEvent> {
    match classify_spec(e.raw) {
        Some(ev) => {
            if ev.kind is MouseMove {
                if f.accepts(e.at_ms) {
                    Some(ev)
                } else {
                    None
                }
            } else {
                Some(ev)
            }
        },
        None => None,
    }
}

/// The throttle filter after one capture step: only a mouse move touches it.
pub open spec fn step_filter(f: ThrottleFilter, e: TimedRawEvent) -> ThrottleFilter {
    if classify_spec(e.raw) matches Some(ev) && ev.kind is MouseMove {
        f.after_accept(e.at_ms)
    } else {
        f
    }
}

/// The sequence of events a capture loop starting from filter state `f`
/// forwards for the raw stream `events`: survivors keep arrival order,
/// dropped events simply do not appear.
pub open spec fn dispatched(f: ThrottleFilter, events: Seq<TimedRawEvent>) -> Seq<DeviceEvent>
    decreases events.len(),
{
    if events.len() == 0 {
        Seq::empty()
    } else {
        let rest = dispatched(step_filter(f, events[0]), events.drop_first());
        match step_output(f, events[0]) {
            Some(ev) => seq![ev] + rest,
            None => rest,
        }
    }
}

/// The throttle filter state after a capture loop starting from `f` has
/// consumed the whole raw stream `events`.
pub open spec fn filter_after(f: ThrottleFilter, events: Seq<TimedRawEvent>) -> ThrottleFilter
    decreases events.len(),
{
    if events.len() == 0 {
        f
    } else {
        filter_after(step_filter(f, events[0]), events.drop_first())
    }
}

/// One step of the capture loop: classify the raw event, consult the throttle
/// filter for a mouse move, and return the event to forward, if any. Total:
/// an unrepresentable raw kind is dropped silently, never an error.
pub fn process_raw_event(filter: &mut ThrottleFilter, event: TimedRawEvent) -> (out: Option<
    DeviceEvent,
>)
    ensures
        out == step_output(*old(filter), event),
        *final(filter) == step_filter(*old(filter), event),
        out matches Some(ev) ==> ev.wf(),
{
    match classify(event.raw) {
        Some(ev) => {
            if ev.kind == DeviceEventKind::MouseMove {
                if filter.accept(event.at_ms) {
                    Some(ev)
                } else {
                    None
                }
            } else {
                Some(ev)
            }
        },
        None => None,
    }
}

/// Run the capture decision over a whole raw stream, in arrival order,
/// threading the throttle filter through every step. Returns exactly the
/// events a capture loop would have forwarded, in the same relative order.
pub fn process_events(filter: &mut ThrottleFilter, events: Vec<TimedRawEvent>) -> (out: Vec<
    DeviceEvent,
>)
    ensures
        out@ == dispatched(*old(filter), events@),
        *final(filter) == filter_after(*old(filter), events@),
{
    let ghost f0 = *filter;
    let ghost es0 = events@;
    let mut pending = events;
    let mut cur: ThrottleFilter = *filter;
    let mut out: Vec<DeviceEvent> = Vec::new();
    while pending.len() > 0
        invariant
            dispatched(f0, es0) == out@ + dispatched(cur, pending@),
            filter_after(f0, es0) == filter_after(cur, pending@),
        decreases pending.len(),
    {
        let ghost pending_pre = pending@;
        let e = pending.remove(0);
        proof {
            assert(pending@ =~= pending_pre.drop_first());
        }
        let stepped = process_raw_event(&mut cur, e);
        match stepped {
            Some(ev) => {
                out.push(ev);
                proof {
                    assert(out@ + dispatched(cur, pending@) =~= dispatched(f0, es0));
                }
            },
            None => {},
        }
    }
    proof {
        assert(dispatched(cur, pending@) =~= Seq::<DeviceEvent>::empty());
        assert(out@ + dispatched(cur, pending@) =~= out@);
        assert(filter_after(cur, pending@) == cur);
    }
    *filter = cur;
    out
}

/// A mouse move at `(x, y)` arriving at `at_ms`, for stating laws about the
/// capture decision.
pub open spec fn timed_move(x: i64, y: i64, at_ms: u64) -> TimedRawEvent {
    TimedRawEvent { raw: RawEvent::MouseMove { x, y }, at_ms }
}

/// The normalized event a mouse move at `(x, y)` classifies to.
pub open spec fn move_event(x: i64, y: i64) -> DeviceEvent {
    DeviceEvent {
        kind: DeviceEventKind::MouseMove,
        value: crate::event::DeviceEventValue::Position { x, y },
    }
}

/// Throttle law: of four mouse moves arriving at `t0`, `t0 + 10`, `t0 + 20`
/// and `t0 + 35` milliseconds against a 30 ms threshold, with the first one
/// due, exactly the first and the last are forwarded; the positions of the
/// two suppressed moves are not delivered.
pub proof fn lemma_throttle_two_of_four(
    f: ThrottleFilter,
    t0: u64,
    x0: i64, y0: i64,
    x1: i64, y1: i64,
    x2: i64, y2: i64,
    x3: i64, y3: i64,
)
    requires
        f.threshold_ms == 30,
        f.accepts(t0),
        t0 + 35 <= u64::MAX,
    ensures
        dispatched(
            f,
            seq![
                timed_move(x0, y0, t0),
                timed_move(x1, y1, (t0 + 10) as u64),
                timed_move(x2, y2, (t0 + 20) as u64),
                timed_move(x3, y3, (t0 + 35) as u64),
            ],
        ) =~= seq![move_event(x0, y0), move_event(x3, y3)],
{
    let e0 = timed_move(x0, y0, t0);
    let e1 = timed_move(x1, y1, (t0 + 10) as u64);
    let e2 = timed_move(x2, y2, (t0 + 20) as u64);
    let e3 = timed_move(x3, y3, (t0 + 35) as u64);
    let s = seq![e0, e1, e2, e3];
    let f1 = step_filter(f, e0);
    assert(f1.last_accepted_ms == t0);
    assert(s.drop_first() =~= seq![e1, e2, e3]);
    assert(!f1.accepts(e1.at_ms));
    assert(seq![e1, e2, e3].drop_first() =~= seq![e2, e3]);
    assert(!f1.accepts(e2.at_ms));
    assert(seq![e2, e3].drop_first() =~= seq![e3]);
    assert(f1.accepts(e3.at_ms));
    assert(seq![e3].drop_first() =~= Seq::<TimedRawEvent>::empty());
    assert(dispatched(step_filter(f1, e3), Seq::empty()) =~= Seq::<DeviceEvent>::empty());
    assert(dispatched(f1, seq![e3]) =~= seq![move_event(x3, y3)]);
    assert(dispatched(f1, seq![e2, e3]) =~= seq![move_event(x3, y3)]);
    assert(dispatched(f1, seq![e1, e2, e3]) =~= seq![move_event(x3, y3)]);
    assert(dispatched(f, s) =~= seq![move_event(x0, y0)] + seq![move_event(x3, y3)]);
}

/// Ordering law: for a press, a due mouse move, a second move 5 ms later and
/// a release, against a 30 ms threshold, the forwarded sequence keeps the
/// arrival order — press, first move, release; the throttled second move is
/// dropped, not reordered, and the button events pass whatever their times.
pub proof fn lemma_order_preserved(
    f: ThrottleFilter,
    button: String,
    t_press: u64,
    t_move: u64,
    t_release: u64,
    x0: i64, y0: i64,
    x1: i64, y1: i64,
)
    requires
        f.threshold_ms == 30,
        f.accepts(t_move),
        t_move + 5 <= u64::MAX,
    ensures
        dispatched(
            f,
            seq![
                (TimedRawEvent { raw: RawEvent::ButtonPress(button), at_ms: t_press }),
                timed_move(x0, y0, t_move),
                timed_move(x1, y1, (t_move + 5) as u64),
                (TimedRawEvent { raw: RawEvent::ButtonRelease(button), at_ms: t_release }),
            ],
        ) =~= seq![
            (DeviceEvent {
                kind: DeviceEventKind::MousePress,
                value: crate::event::DeviceEventValue::Button(button),
            }),
            move_event(x0, y0),
            (DeviceEvent {
                kind: DeviceEventKind::MouseRelease,
                value: crate::event::DeviceEventValue::Button(button),
            }),
        ],
{
    let e0 = TimedRawEvent { raw: RawEvent::ButtonPress(button), at_ms: t_press };
    let e1 = timed_move(x0, y0, t_move);
    let e2 = timed_move(x1, y1, (t_move + 5) as u64);
    let e3 = TimedRawEvent { raw: RawEvent::ButtonRelease(button), at_ms: t_release };
    let press = DeviceEvent {
        kind: DeviceEventKind::MousePress,
        value: crate::event::DeviceEventValue::Button(button),
    };
    let release = DeviceEvent {
        kind: DeviceEventKind::MouseRelease,
        value: crate::event::DeviceEventValue::Button(button),
    };
    let s = seq![e0, e1, e2, e3];
    assert(step_filter(f, e0) == f);
    assert(s.drop_first() =~= seq![e1, e2, e3]);
    let f1 = step_filter(f, e1);
    assert(f1.last_accepted_ms == t_move);
    assert(seq![e1, e2, e3].drop_first() =~= seq![e2, e3]);
    assert(!f1.accepts(e2.at_ms));
    assert(seq![e2, e3].drop_first() =~= seq![e3]);
    assert(step_filter(f1, e3) == f1);
    assert(seq![e3].drop_first() =~= Seq::<TimedRawEvent>::empty());
    assert(dispatched(f1, Seq::empty()) =~= Seq::<DeviceEvent>::empty());
    assert(dispatched(f1, seq![e3]) =~= seq![release]);
    assert(dispatched(f1, seq![e2, e3]) =~= seq![release]);
    assert(dispatched(f, seq![e1, e2, e3]) =~= seq![move_event(x0, y0)] + seq![release]);
    assert(dispatched(f, s) =~= seq![press] + (seq![move_event(x0, y0)] + seq![release]));
}

} // verus!
