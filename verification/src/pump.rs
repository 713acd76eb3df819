//! Classification of the server's raw event stream.
//!
//! The pump drains the window's queue of already-translated events
//! first, then classifies each raw event the server delivers: mapping
//! refreshes and unknown events are dropped, client messages become
//! `Closed` or `Awakened`, size notifications become `Resized` only
//! when the size actually changed, expose notifications become
//! `Refresh`, and key and extension events contribute whatever the
//! input translator yields for them, in the translator's order.
//!
//! A delete-window request yields `Closed` only while the window is
//! not yet marked closed: the flag gates re-emission, so one window
//! emits `Closed` at most once however many delete requests arrive.
//!
//! The spec functions here fold that classification over a whole
//! stream; the window's two retrieval entry points are proved against
//! them.

use vstd::prelude::*;
use crate::events::Event;

verus! {

/// The lowest extension event code the input translator recognizes.
pub const XI_DEVICE_CHANGED: i32 = 1;

/// The highest extension event code the input translator recognizes.
pub const XI_LASTEVENT: i32 = 26;

/// The auxiliary payload of a generic extension event, reduced to what
/// the engine reads of it: the event's subtype code, and the event the
/// input translator yields for the payload, if any.  A deployment
/// acquires the payload from the server and releases it on every exit
/// path, whether or not an event was produced.
#[derive(Clone, Copy, Debug, PartialEq, Eq, Structural)]
pub struct GenericEventCookie {
    /// The extension event's subtype code.
    pub evtype: i32,
    /// What the input translator yields for the payload, consulted only
    /// for subtype codes in the recognized range.
    pub event: Option<Event>,
}

/// One raw event as the server delivers it, reduced to what the engine
/// reads: the classification tag, the payload fields the pump compares,
/// and for key and extension records the input translator's yield.
#[derive(Debug)]
pub enum RawEvent {
    /// The keyboard mapping changed; the pump refreshes it and yields
    /// nothing.
    MappingNotify,
    /// An inter-client message; the first payload word is compared with
    /// the registered delete-window atom.
    ClientMessage { payload: u64 },
    /// The window's geometry was configured to the given size.
    ConfigureNotify { width: u32, height: u32 },
    /// Part of the window was exposed.
    Expose,
    /// A raw key press or release record, carried here as the ordered
    /// events the input translator yields for it.
    Key { translated: Vec<Event> },
    /// A generic extension event, carried as its auxiliary payload, or
    /// nothing when the payload could not be acquired.
    Generic { cookie: Option<GenericEventCookie> },
    /// Any other event type; ignored.
    Other,
}

/// Whether a raw event is the registered delete-window request.
pub open spec fn is_close_message(atom: u64, ev: RawEvent) -> bool {
    match ev {
        RawEvent::ClientMessage { payload } => payload == atom,
        _ => false,
    }
}

/// The events one raw event contributes to the output, given the
/// registered delete-window atom, the closed flag, and the cached
/// size.  A delete-window request yields `Closed` only while the flag
/// is clear; once the window is marked closed, a repeated request
/// contributes nothing.
pub open spec fn raw_event_yield(atom: u64, closed: bool, cache: (u32, u32), ev: RawEvent) -> Seq<
    Event,
> {
    match ev {
        RawEvent::MappingNotify => Seq::<Event>::empty(),
        RawEvent::ClientMessage { payload } => if payload == atom {
            if closed {
                Seq::<Event>::empty()
            } else {
                seq![Event::Closed]
            }
        } else {
            seq![Event::Awakened]
        },
        RawEvent::ConfigureNotify { width, height } => if width != cache.0 || height != cache.1 {
            seq![Event::Resized(width, height)]
        } else {
            Seq::<Event>::empty()
        },
        RawEvent::Expose => seq![Event::Refresh],
        RawEvent::Key { translated } => translated@,
        RawEvent::Generic { cookie } => match cookie {
            Option::Some(c) => if XI_DEVICE_CHANGED <= c.evtype <= XI_LASTEVENT && c.event is Some {
                seq![c.event->0]
            } else {
                Seq::<Event>::empty()
            },
            Option::None => Seq::<Event>::empty(),
        },
        RawEvent::Other => Seq::<Event>::empty(),
    }
}

/// The cached size after one raw event: a size notification replaces
/// the cache, everything else leaves it.
pub open spec fn cache_after(cache: (u32, u32), ev: RawEvent) -> (u32, u32) {
    match ev {
        RawEvent::ConfigureNotify { width, height } => (width, height),
        _ => cache,
    }
}

/// The closed flag after one raw event.
pub open spec fn closed_after(closed: bool, atom: u64, ev: RawEvent) -> bool {
    closed || is_close_message(atom, ev)
}

/// The events the non-blocking pump yields for a whole raw stream, in
/// order, threading the closed flag so that only the first
/// delete-window request contributes a `Closed` event.
pub open spec fn pump_yields(
    atom: u64,
    closed: bool,
    cache: (u32, u32),
    raw: Seq<RawEvent>,
) -> Seq<Event>
    decreases raw.len(),
{
    if raw.len() == 0 {
        Seq::<Event>::empty()
    } else {
        raw_event_yield(atom, closed, cache, raw[0]) + pump_yields(
            atom,
            closed_after(closed, atom, raw[0]),
            cache_after(cache, raw[0]),
            raw.skip(1),
        )
    }
}

/// The cached size after the non-blocking pump consumed a whole raw
/// stream.
pub open spec fn pump_cache(cache: (u32, u32), raw: Seq<RawEvent>) -> (u32, u32)
    decreases raw.len(),
{
    if raw.len() == 0 {
        cache
    } else {
        pump_cache(cache_after(cache, raw[0]), raw.skip(1))
    }
}

/// The closed flag after the non-blocking pump consumed a whole raw
/// stream.
pub open spec fn pump_closed(closed: bool, atom: u64, raw: Seq<RawEvent>) -> bool
    decreases raw.len(),
{
    if raw.len() == 0 {
        closed
    } else {
        pump_closed(closed_after(closed, atom, raw[0]), atom, raw.skip(1))
    }
}

/// The events the blocking pump yields: as the non-blocking pump, but
/// stopping at the first delete-window request, whose `Closed` event is
/// the last one delivered.  It only runs while the window is not yet
/// marked closed, so each event is classified with the flag clear.
pub open spec fn wait_yields(atom: u64, cache: (u32, u32), raw: Seq<RawEvent>) -> Seq<Event>
    decreases raw.len(),
{
    if raw.len() == 0 {
        Seq::<Event>::empty()
    } else if is_close_message(atom, raw[0]) {
        seq![Event::Closed]
    } else {
        raw_event_yield(atom, false, cache, raw[0]) + wait_yields(
            atom,
            cache_after(cache, raw[0]),
            raw.skip(1),
        )
    }
}

/// The cached size after the blocking pump stopped.
pub open spec fn wait_cache(atom: u64, cache: (u32, u32), raw: Seq<RawEvent>) -> (u32, u32)
    decreases raw.len(),
{
    if raw.len() == 0 {
        cache
    } else if is_close_message(atom, raw[0]) {
        cache
    } else {
        wait_cache(atom, cache_after(cache, raw[0]), raw.skip(1))
    }
}

/// Whether the blocking pump saw a delete-window request in the stream.
pub open spec fn wait_closed(atom: u64, raw: Seq<RawEvent>) -> bool
    decreases raw.len(),
{
    if raw.len() == 0 {
        false
    } else {
        is_close_message(atom, raw[0]) || wait_closed(atom, raw.skip(1))
    }
}

/// The raw events the blocking pump left unconsumed: everything after
/// the first delete-window request.
pub open spec fn wait_rest(atom: u64, raw: Seq<RawEvent>) -> Seq<RawEvent>
    decreases raw.len(),
{
    if raw.len() == 0 {
        Seq::<RawEvent>::empty()
    } else if is_close_message(atom, raw[0]) {
        raw.skip(1)
    } else {
        wait_rest(atom, raw.skip(1))
    }
}

/// The events the input translator yields for a raw key record; empty
/// for any other raw event.
pub open spec fn key_translated(ev: RawEvent) -> Seq<Event> {
    match ev {
        RawEvent::Key { translated } => translated@,
        _ => Seq::<Event>::empty(),
    }
}

/// Event ordering for key translation: when the head of the stream is a
/// raw key record that the translator turned into several events, the
/// pump delivers exactly those events first, in the translator's order,
/// and everything fetched afterwards strictly after them.
pub proof fn lemma_key_events_in_order(atom: u64, closed: bool, cache: (u32, u32), raw: Seq<
    RawEvent,
>)
    requires
        raw.len() > 0,
        raw[0] is Key,
    ensures
        pump_yields(atom, closed, cache, raw) == key_translated(raw[0]) + pump_yields(
            atom,
            closed,
            cache,
            raw.skip(1),
        ),
{
}

/// The pump is compositional: the yield of a concatenated stream is the
/// yield of the first part followed by the yield of the second, taken
/// up from the closed flag and the cache the first part left.
pub proof fn lemma_pump_yields_append(
    atom: u64,
    closed: bool,
    cache: (u32, u32),
    s: Seq<RawEvent>,
    t: Seq<RawEvent>,
)
    ensures
        pump_yields(atom, closed, cache, s + t) == pump_yields(atom, closed, cache, s)
            + pump_yields(atom, pump_closed(closed, atom, s), pump_cache(cache, s), t),
    decreases s.len(),
{
    if s.len() == 0 {
        assert(s + t =~= t);
        assert(pump_yields(atom, closed, cache, s) + pump_yields(atom, closed, cache, t)
            =~= pump_yields(atom, closed, cache, t));
    } else {
        let closed1 = closed_after(closed, atom, s[0]);
        let cache1 = cache_after(cache, s[0]);
        assert((s + t)[0] == s[0]);
        assert((s + t).skip(1) =~= s.skip(1) + t);
        lemma_pump_yields_append(atom, closed1, cache1, s.skip(1), t);
        assert(raw_event_yield(atom, closed, cache, s[0]) + (pump_yields(
            atom,
            closed1,
            cache1,
            s.skip(1),
        ) + pump_yields(
            atom,
            pump_closed(closed1, atom, s.skip(1)),
            pump_cache(cache1, s.skip(1)),
            t,
        )) =~= (raw_event_yield(atom, closed, cache, s[0]) + pump_yields(
            atom,
            closed1,
            cache1,
            s.skip(1),
        )) + pump_yields(
            atom,
            pump_closed(closed1, atom, s.skip(1)),
            pump_cache(cache1, s.skip(1)),
            t,
        ));
    }
}

/// Event ordering for key translation, anywhere in the stream: a raw
/// key record's translated events appear as one contiguous run, after
/// everything fetched before it and before everything fetched after it.
pub proof fn lemma_key_events_in_order_anywhere(
    atom: u64,
    closed: bool,
    cache: (u32, u32),
    raw: Seq<RawEvent>,
    i: int,
)
    requires
        0 <= i < raw.len(),
        raw[i] is Key,
    ensures
        pump_yields(atom, closed, cache, raw) == pump_yields(atom, closed, cache, raw.take(i))
            + key_translated(raw[i]) + pump_yields(
            atom,
            pump_closed(closed, atom, raw.take(i)),
            pump_cache(cache, raw.take(i)),
            raw.skip(i + 1),
        ),
{
    let head = raw.take(i);
    let tail = raw.skip(i);
    assert(raw =~= head + tail);
    lemma_pump_yields_append(atom, closed, cache, head, tail);
    let mid_closed = pump_closed(closed, atom, head);
    let mid_cache = pump_cache(cache, head);
    assert(tail[0] == raw[i]);
    assert(tail.skip(1) =~= raw.skip(i + 1));
    lemma_key_events_in_order(atom, mid_closed, mid_cache, tail);
    assert(pump_yields(atom, closed, cache, head) + (key_translated(raw[i]) + pump_yields(
        atom,
        mid_closed,
        mid_cache,
        raw.skip(i + 1),
    )) =~= pump_yields(atom, closed, cache, head) + key_translated(raw[i]) + pump_yields(
        atom,
        mid_closed,
        mid_cache,
        raw.skip(i + 1),
    ));
}

/// A raw stream consisting only of size notifications carrying the
/// given dimensions, in order.
pub open spec fn configure_stream(dims: Seq<(u32, u32)>) -> Seq<RawEvent>
    decreases dims.len(),
{
    if dims.len() == 0 {
        Seq::<RawEvent>::empty()
    } else {
        seq![RawEvent::ConfigureNotify { width: dims[0].0, height: dims[0].1 }]
            + configure_stream(dims.skip(1))
    }
}

/// The dimensions with those equal to the previously observed size
/// removed: each notification survives only if it differs from the one
/// in effect just before it.
pub open spec fn dedup_from(prev: (u32, u32), dims: Seq<(u32, u32)>) -> Seq<(u32, u32)>
    decreases dims.len(),
{
    if dims.len() == 0 {
        Seq::<(u32, u32)>::empty()
    } else if dims[0] == prev {
        dedup_from(prev, dims.skip(1))
    } else {
        seq![dims[0]] + dedup_from(dims[0], dims.skip(1))
    }
}

/// The notifications deduplicated by immediate-adjacent equality,
/// looking at the input sequence alone.
pub open spec fn adjacent_dedup(dims: Seq<(u32, u32)>) -> Seq<(u32, u32)> {
    if dims.len() == 0 {
        Seq::<(u32, u32)>::empty()
    } else {
        seq![dims[0]] + dedup_from(dims[0], dims.skip(1))
    }
}

/// The given dimensions as `Resized` events, in order.
pub open spec fn resized_events(dims: Seq<(u32, u32)>) -> Seq<Event>
    decreases dims.len(),
{
    if dims.len() == 0 {
        Seq::<Event>::empty()
    } else {
        seq![Event::Resized(dims[0].0, dims[0].1)] + resized_events(dims.skip(1))
    }
}

proof fn lemma_resized_events_cons(d: (u32, u32), rest: Seq<(u32, u32)>)
    ensures
        resized_events(seq![d] + rest) == seq![Event::Resized(d.0, d.1)] + resized_events(rest),
{
    let s = seq![d] + rest;
    assert(s[0] == d);
    assert(s.skip(1) =~= rest);
}

/// For any sequence of raw size notifications, the emitted `Resized`
/// events carry exactly the notifications that differ from the size in
/// effect just before them, starting from the cached size.
pub proof fn lemma_resize_dedup(atom: u64, closed: bool, cache: (u32, u32), dims: Seq<(u32, u32)>)
    ensures
        pump_yields(atom, closed, cache, configure_stream(dims)) == resized_events(
            dedup_from(cache, dims),
        ),
    decreases dims.len(),
{
    if dims.len() > 0 {
        let cs = configure_stream(dims);
        assert(cs[0] == (RawEvent::ConfigureNotify { width: dims[0].0, height: dims[0].1 }));
        assert(cs.skip(1) =~= configure_stream(dims.skip(1)));
        lemma_resize_dedup(atom, closed, dims[0], dims.skip(1));
        if dims[0] == cache {
            assert(raw_event_yield(atom, closed, cache, cs[0]) =~= Seq::<Event>::empty());
            assert(Seq::<Event>::empty() + pump_yields(atom, closed, dims[0], cs.skip(1))
                =~= pump_yields(atom, closed, dims[0], cs.skip(1)));
        } else {
            lemma_resized_events_cons(dims[0], dedup_from(dims[0], dims.skip(1)));
        }
    }
}

/// The emitted `Resized` dimensions equal the input notifications
/// deduplicated by immediate-adjacent equality, provided the first
/// notification differs from the cached size.
pub proof fn lemma_resize_dedup_of_inputs(
    atom: u64,
    closed: bool,
    cache: (u32, u32),
    dims: Seq<(u32, u32)>,
)
    requires
        dims.len() > 0 ==> dims[0] != cache,
    ensures
        pump_yields(atom, closed, cache, configure_stream(dims)) == resized_events(
            adjacent_dedup(dims),
        ),
{
    lemma_resize_dedup(atom, closed, cache, dims);
}

/// How many `Closed` events a sequence holds.
pub open spec fn closed_count(s: Seq<Event>) -> nat
    decreases s.len(),
{
    if s.len() == 0 {
        0
    } else if s[0] == Event::Closed {
        closed_count(s.skip(1)) + 1
    } else {
        closed_count(s.skip(1))
    }
}

/// How many delete-window requests a raw stream holds.
pub open spec fn close_msg_count(atom: u64, raw: Seq<RawEvent>) -> nat
    decreases raw.len(),
{
    if raw.len() == 0 {
        0
    } else if is_close_message(atom, raw[0]) {
        close_msg_count(atom, raw.skip(1)) + 1
    } else {
        close_msg_count(atom, raw.skip(1))
    }
}

/// The input translator never fabricates a `Closed` event for this raw
/// event; only a delete-window request can yield one.
pub open spec fn yields_no_close(ev: RawEvent) -> bool {
    match ev {
        RawEvent::Key { translated } => !translated@.contains(Event::Closed),
        RawEvent::Generic { cookie } => match cookie {
            Option::Some(c) => c.event != Some(Event::Closed),
            Option::None => true,
        },
        _ => true,
    }
}

proof fn lemma_closed_count_append(a: Seq<Event>, b: Seq<Event>)
    ensures
        closed_count(a + b) == closed_count(a) + closed_count(b),
    decreases a.len(),
{
    if a.len() == 0 {
        assert(a + b =~= b);
    } else {
        assert((a + b)[0] == a[0]);
        assert((a + b).skip(1) =~= a.skip(1) + b);
        lemma_closed_count_append(a.skip(1), b);
    }
}

proof fn lemma_closed_count_of_close_free(s: Seq<Event>)
    requires
        !s.contains(Event::Closed),
    ensures
        closed_count(s) == 0,
    decreases s.len(),
{
    if s.len() > 0 {
        assert(s[0] != Event::Closed);
        assert(!s.skip(1).contains(Event::Closed)) by {
            if s.skip(1).contains(Event::Closed) {
                let i = choose|i: int| 0 <= i < s.skip(1).len() && s.skip(1)[i] == Event::Closed;
                assert(s[i + 1] == Event::Closed);
            }
        }
        lemma_closed_count_of_close_free(s.skip(1));
    }
}

proof fn lemma_singleton_closed_count(e: Event)
    ensures
        closed_count(seq![e]) == if e == Event::Closed {
            1nat
        } else {
            0nat
        },
{
    let s = seq![e];
    assert(s.len() == 1);
    assert(s[0] == e);
    assert(s.skip(1) =~= Seq::<Event>::empty());
    assert(closed_count(Seq::<Event>::empty()) == 0);
}

proof fn lemma_yield_closed_count(atom: u64, closed: bool, cache: (u32, u32), ev: RawEvent)
    requires
        yields_no_close(ev),
    ensures
        closed_count(raw_event_yield(atom, closed, cache, ev)) == if is_close_message(atom, ev)
            && !closed {
            1nat
        } else {
            0nat
        },
{
    match ev {
        RawEvent::MappingNotify => {},
        RawEvent::ClientMessage { payload } => {
            if payload == atom {
                if !closed {
                    lemma_singleton_closed_count(Event::Closed);
                }
            } else {
                lemma_singleton_closed_count(Event::Awakened);
            }
        },
        RawEvent::ConfigureNotify { width, height } => {
            if width != cache.0 || height != cache.1 {
                lemma_singleton_closed_count(Event::Resized(width, height));
            }
        },
        RawEvent::Expose => {
            lemma_singleton_closed_count(Event::Refresh);
        },
        RawEvent::Key { translated } => {
            lemma_closed_count_of_close_free(translated@);
        },
        RawEvent::Generic { cookie } => {
            match cookie {
                Option::Some(c) => {
                    if XI_DEVICE_CHANGED <= c.evtype <= XI_LASTEVENT && c.event is Some {
                        lemma_singleton_closed_count(c.event->0);
                    }
                },
                Option::None => {},
            }
        },
        RawEvent::Other => {},
    }
}

/// When the input translator never fabricates a `Closed` event, the
/// non-blocking pump emits exactly one `Closed` event when the window
/// was still open and the stream holds a delete-window request, and
/// none in every other case — however many requests the stream holds.
pub proof fn lemma_closed_count_exact(atom: u64, closed: bool, cache: (u32, u32), raw: Seq<
    RawEvent,
>)
    requires
        forall|i: int| 0 <= i < raw.len() ==> yields_no_close(#[trigger] raw[i]),
    ensures
        closed_count(pump_yields(atom, closed, cache, raw)) == if !closed && close_msg_count(
            atom,
            raw,
        ) > 0 {
            1nat
        } else {
            0nat
        },
    decreases raw.len(),
{
    if raw.len() > 0 {
        assert(forall|i: int|
            0 <= i < raw.skip(1).len() ==> yields_no_close(#[trigger] raw.skip(1)[i]));
        lemma_yield_closed_count(atom, closed, cache, raw[0]);
        lemma_closed_count_append(
            raw_event_yield(atom, closed, cache, raw[0]),
            pump_yields(
                atom,
                closed_after(closed, atom, raw[0]),
                cache_after(cache, raw[0]),
                raw.skip(1),
            ),
        );
        lemma_closed_count_exact(
            atom,
            closed_after(closed, atom, raw[0]),
            cache_after(cache, raw[0]),
            raw.skip(1),
        );
    }
}

/// A window's close event is emitted at most once per instance by the
/// non-blocking pump, whatever the stream holds, and never again once
/// the window is marked closed — provided only that the translator
/// fabricates no `Closed` event of its own.
pub proof fn lemma_close_at_most_once(atom: u64, closed: bool, cache: (u32, u32), raw: Seq<
    RawEvent,
>)
    requires
        forall|i: int| 0 <= i < raw.len() ==> yields_no_close(#[trigger] raw[i]),
    ensures
        closed_count(pump_yields(atom, closed, cache, raw)) <= 1,
        closed ==> closed_count(pump_yields(atom, closed, cache, raw)) == 0,
{
    lemma_closed_count_exact(atom, closed, cache, raw);
}

/// The closed flag is monotone: once set, no amount of further raw
/// events clears it.
pub proof fn lemma_closed_flag_monotone(atom: u64, raw: Seq<RawEvent>)
    ensures
        pump_closed(true, atom, raw),
    decreases raw.len(),
{
    if raw.len() > 0 {
        lemma_closed_flag_monotone(atom, raw.skip(1));
    }
}

proof fn lemma_yield_close_free(atom: u64, closed: bool, cache: (u32, u32), ev: RawEvent)
    requires
        yields_no_close(ev),
        !is_close_message(atom, ev),
    ensures
        forall|i: int|
            0 <= i < raw_event_yield(atom, closed, cache, ev).len() ==> #[trigger] raw_event_yield(
                atom,
                closed,
                cache,
                ev,
            )[i] != Event::Closed,
{
    lemma_yield_closed_count(atom, closed, cache, ev);
    let s = raw_event_yield(atom, closed, cache, ev);
    assert forall|i: int| 0 <= i < s.len() implies #[trigger] s[i] != Event::Closed by {
        if s[i] == Event::Closed {
            assert(s.contains(Event::Closed));
            lemma_closed_count_nonzero_of_contains(s);
        }
    }
}

proof fn lemma_closed_count_nonzero_of_contains(s: Seq<Event>)
    requires
        s.contains(Event::Closed),
    ensures
        closed_count(s) > 0,
    decreases s.len(),
{
    if s.len() > 0 && s[0] != Event::Closed {
        let i = choose|i: int| 0 <= i < s.len() && s[i] == Event::Closed;
        assert(s.skip(1)[i - 1] == Event::Closed);
        assert(s.skip(1).contains(Event::Closed));
        lemma_closed_count_nonzero_of_contains(s.skip(1));
    }
}

/// After the blocking pump emits `Closed`, it emits nothing further: a
/// `Closed` event can only be the last one it yields, provided the
/// translator fabricates none.
pub proof fn lemma_wait_close_terminal(atom: u64, cache: (u32, u32), raw: Seq<RawEvent>)
    requires
        forall|i: int| 0 <= i < raw.len() ==> yields_no_close(#[trigger] raw[i]),
    ensures
        forall|i: int|
            0 <= i < wait_yields(atom, cache, raw).len() && #[trigger] wait_yields(
                atom,
                cache,
                raw,
            )[i] == Event::Closed ==> i == wait_yields(atom, cache, raw).len() - 1,
    decreases raw.len(),
{
    if raw.len() > 0 && !is_close_message(atom, raw[0]) {
        let y0 = raw_event_yield(atom, false, cache, raw[0]);
        let rest = wait_yields(atom, cache_after(cache, raw[0]), raw.skip(1));
        assert(forall|i: int|
            0 <= i < raw.skip(1).len() ==> yields_no_close(#[trigger] raw.skip(1)[i]));
        lemma_yield_close_free(atom, false, cache, raw[0]);
        lemma_wait_close_terminal(atom, cache_after(cache, raw[0]), raw.skip(1));
        let ys = wait_yields(atom, cache, raw);
        assert forall|i: int|
            0 <= i < ys.len() && #[trigger] ys[i] == Event::Closed implies i == ys.len() - 1 by {
            if i < y0.len() {
                assert(ys[i] == y0[i]);
            } else {
                assert(ys[i] == rest[i - y0.len()]);
            }
        }
    }
}

} // verus!
