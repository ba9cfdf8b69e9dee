//! What holds over a whole run of events, from the first announcement on.

use vstd::prelude::*;
use crate::capability::{recognize, Capability};
use crate::request::{Request, ESCAPE_KEY};
use crate::session::{Event, State};

verus! {

/// The session that `start` becomes after handling `events` in order.
pub open spec fn run(start: State, events: Seq<Event>) -> State
    decreases events.len(),
{
    if events.len() == 0 {
        start
    } else {
        run(start, events.drop_last()).step(events.last())
    }
}

/// Every request sent while `start` handles `events` in order.
pub open spec fn trace(start: State, events: Seq<Event>) -> Seq<Request>
    decreases events.len(),
{
    if events.len() == 0 {
        Seq::empty()
    } else {
        trace(start, events.drop_last()) + run(start, events.drop_last()).requests(events.last())
    }
}

/// Whether `event` is the registry's announcement of `capability`.
pub open spec fn announces(event: Event, capability: Capability) -> bool {
    match event {
        Event::Global { interface, .. } => recognize(interface@) == Some(capability),
        _ => false,
    }
}

/// Whether some event among `events` announces `capability`.
pub open spec fn announced(events: Seq<Event>, capability: Capability) -> bool {
    exists|i: int| 0 <= i < events.len() && announces(#[trigger] events[i], capability)
}

/// How many of `requests` satisfy `wanted`.
pub open spec fn count(requests: Seq<Request>, wanted: spec_fn(Request) -> bool) -> nat
    decreases requests.len(),
{
    if requests.len() == 0 {
        0
    } else {
        count(requests.drop_last(), wanted) + if wanted(requests.last()) {
            1nat
        } else {
            0nat
        }
    }
}

/// How many surfaces `requests` create.
pub open spec fn surfaces_created(requests: Seq<Request>) -> nat {
    count(requests, |r: Request| r.creates_surface())
}

/// How many buffers `requests` allocate.
pub open spec fn buffers_created(requests: Seq<Request>) -> nat {
    count(requests, |r: Request| r.creates_buffer())
}

/// How many viewports `requests` create.
pub open spec fn viewports_created(requests: Seq<Request>) -> nat {
    count(requests, |r: Request| r.creates_viewport())
}

/// One if `holds`, zero otherwise.
pub open spec fn one_if(holds: bool) -> nat {
    if holds {
        1
    } else {
        0
    }
}

/// Whether the session is initialized and has its viewport.
pub open spec fn has_viewport(state: State) -> bool {
    state.initialized() && !state.lacks_viewport()
}

proof fn lemma_count_none(requests: Seq<Request>, wanted: spec_fn(Request) -> bool)
    requires
        forall|i: int| 0 <= i < requests.len() ==> !wanted(#[trigger] requests[i]),
    ensures
        count(requests, wanted) == 0,
    decreases requests.len(),
{
    if requests.len() > 0 {
        lemma_count_none(requests.drop_last(), wanted);
    }
}

proof fn lemma_count_one(requests: Seq<Request>, wanted: spec_fn(Request) -> bool, at: int)
    requires
        0 <= at < requests.len(),
        forall|i: int| 0 <= i < requests.len() ==> (wanted(#[trigger] requests[i]) <==> i == at),
    ensures
        count(requests, wanted) == 1,
    decreases requests.len(),
{
    if at == requests.len() - 1 {
        lemma_count_none(requests.drop_last(), wanted);
    } else {
        lemma_count_one(requests.drop_last(), wanted, at);
    }
}

proof fn lemma_count_concat(a: Seq<Request>, b: Seq<Request>, wanted: spec_fn(Request) -> bool)
    ensures
        count(a + b, wanted) == count(a, wanted) + count(b, wanted),
    decreases b.len(),
{
    if b.len() == 0 {
        assert(a + b =~= a);
    } else {
        assert((a + b).drop_last() =~= a + b.drop_last());
        lemma_count_concat(a, b.drop_last(), wanted);
    }
}

proof fn lemma_announced_unfold(events: Seq<Event>, capability: Capability)
    requires
        events.len() > 0,
    ensures
        announced(events, capability) <==> announced(events.drop_last(), capability) || announces(
            events.last(),
            capability,
        ),
{
    let front = events.drop_last();
    if announced(events, capability) {
        let i: int = choose|i: int|
            0 <= i < events.len() && announces(#[trigger] events[i], capability);
        if i < front.len() {
            assert(announces(front[i], capability));
        }
    }
    if announced(front, capability) {
        let i: int = choose|i: int|
            0 <= i < front.len() && announces(#[trigger] front[i], capability);
        assert(announces(events[i], capability));
    }
    if announces(events.last(), capability) {
        assert(announces(events[events.len() - 1], capability));
    }
}

/// What one event creates: a surface and a buffer exactly when it
/// initializes the session, a viewport exactly when it gives the session
/// its first one.
proof fn lemma_step_creations(state: State, event: Event)
    ensures
        surfaces_created(state.requests(event)) == one_if(
            !state.initialized() && state.step(event).initialized(),
        ),
        buffers_created(state.requests(event)) == one_if(
            !state.initialized() && state.step(event).initialized(),
        ),
        viewports_created(state.requests(event)) == one_if(
            !has_viewport(state) && has_viewport(state.step(event)),
        ),
        state.initialized() ==> state.step(event).initialized(),
        has_viewport(state) ==> has_viewport(state.step(event)),
{
    let surface = |r: Request| r.creates_surface();
    let buffer = |r: Request| r.creates_buffer();
    let viewport = |r: Request| r.creates_viewport();
    let sent = state.requests(event);
    match event {
        Event::Global { name, interface } => {
            match recognize(interface@) {
                Some(capability) => {
                    let filled = state.with_bound(capability, name);
                    filled.lemma_initialized_if_ready();
                    lemma_count_none(sent, viewport);
                    if filled.ready() {
                        lemma_count_one(sent, surface, 1);
                        lemma_count_one(sent, buffer, 6);
                    } else {
                        lemma_count_none(sent, surface);
                        lemma_count_none(sent, buffer);
                    }
                },
                None => {
                    lemma_count_none(sent, surface);
                    lemma_count_none(sent, buffer);
                    lemma_count_none(sent, viewport);
                },
            }
        },
        Event::Configure { serial } => {
            lemma_count_none(sent, surface);
            lemma_count_none(sent, buffer);
            if state.initialized() && state.lacks_viewport() {
                lemma_count_one(sent, viewport, 1);
            } else {
                lemma_count_none(sent, viewport);
            }
        },
        _ => {
            lemma_count_none(sent, surface);
            lemma_count_none(sent, buffer);
            lemma_count_none(sent, viewport);
        },
    }
}

/// After any run of events from a fresh session, a capability is bound
/// exactly when one of the events announced it, and the session is
/// well-formed.
pub proof fn lemma_bound_iff_announced(events: Seq<Event>)
    ensures
        run(State::fresh(), events).wf(),
        forall|capability: Capability|
            (#[trigger] run(State::fresh(), events).bound(capability)).is_some() <==> announced(
                events,
                capability,
            ),
    decreases events.len(),
{
    if events.len() == 0 {
        assert(State::fresh().bound(Capability::Seat).is_none());
    } else {
        let before = run(State::fresh(), events.drop_last());
        let event = events.last();
        let after = before.step(event);
        lemma_bound_iff_announced(events.drop_last());
        match event {
            Event::Global { name, interface } => {
                match recognize(interface@) {
                    Some(capability) => {
                        before.with_bound(capability, name).lemma_initialized_if_ready();
                    },
                    None => {},
                }
            },
            _ => {},
        }
        assert forall|capability: Capability|
            (#[trigger] after.bound(capability)).is_some() <==> announced(
                events,
                capability,
            ) by {
            lemma_announced_unfold(events, capability);
            assert(before.bound(capability).is_some() <==> announced(
                events.drop_last(),
                capability,
            ));
        }
    }
}

/// Whatever the order in which the globals are announced, and whatever
/// other events come in between, the session is initialized exactly when
/// every one of the five capabilities has been announced.
pub proof fn lemma_initialized_iff_all_announced(events: Seq<Event>)
    ensures
        run(State::fresh(), events).initialized() <==> forall|capability: Capability|
            announced(events, capability),
{
    lemma_bound_iff_announced(events);
    let state = run(State::fresh(), events);
    if state.initialized() {
        assert forall|capability: Capability| announced(events, capability) by {
            assert(state.bound(capability).is_some());
        }
    }
    if forall|capability: Capability| announced(events, capability) {
        assert forall|capability: Capability| (#[trigger] state.bound(capability)).is_some() by {
            assert(announced(events, capability));
        }
    }
}

/// A run that holds nothing but registry announcements leaves the session
/// running and without a viewport.
pub proof fn lemma_announcements_only(events: Seq<Event>)
    requires
        forall|i: int| 0 <= i < events.len() ==> #[trigger] events[i] is Global,
    ensures
        run(State::fresh(), events).keeps_running(),
        run(State::fresh(), events).lacks_viewport(),
    decreases events.len(),
{
    if events.len() > 0 {
        let front = events.drop_last();
        assert forall|i: int| 0 <= i < front.len() implies #[trigger] front[i] is Global by {
            assert(front[i] == events[i]);
        }
        lemma_announcements_only(front);
        assert(events[events.len() - 1] is Global);
    }
}

/// Permutation invariance. Let five events announce the five capabilities,
/// each once, in any order. Then the session is uninitialized after every
/// proper prefix of them and initialized after all five, running and
/// without a viewport, and the surface and the buffer were created once.
pub proof fn lemma_any_order_initializes_once(order: Seq<Capability>, events: Seq<Event>)
    requires
        order.len() == 5,
        events.len() == 5,
        forall|i: int, j: int| 0 <= i < j < 5 ==> order[i] != order[j],
        forall|i: int| 0 <= i < 5 ==> announces(#[trigger] events[i], order[i]),
    ensures
        forall|k: int| 0 <= k < 5 ==> !(#[trigger] run(State::fresh(), events.take(k))).initialized(),
        run(State::fresh(), events).initialized(),
        run(State::fresh(), events).keeps_running(),
        run(State::fresh(), events).lacks_viewport(),
        surfaces_created(trace(State::fresh(), events)) == 1,
        buffers_created(trace(State::fresh(), events)) == 1,
{
    assert forall|k: int| 0 <= k < 5 implies !(#[trigger] run(
        State::fresh(),
        events.take(k),
    )).initialized() by {
        let prefix = events.take(k);
        lemma_initialized_iff_all_announced(prefix);
        if forall|capability: Capability| announced(prefix, capability) {
            assert(announced(prefix, Capability::Compositor));
            assert(announced(prefix, Capability::SinglePixelBufferManager));
            assert(announced(prefix, Capability::Viewporter));
            assert(announced(prefix, Capability::Seat));
            assert(announced(prefix, Capability::XdgWmBase));
            let a: int = choose|i: int|
                0 <= i < prefix.len() && announces(#[trigger] prefix[i], Capability::Compositor);
            let b: int = choose|i: int|
                0 <= i < prefix.len() && announces(
                    #[trigger] prefix[i],
                    Capability::SinglePixelBufferManager,
                );
            let c: int = choose|i: int|
                0 <= i < prefix.len() && announces(#[trigger] prefix[i], Capability::Viewporter);
            let d: int = choose|i: int|
                0 <= i < prefix.len() && announces(#[trigger] prefix[i], Capability::Seat);
            let e: int = choose|i: int|
                0 <= i < prefix.len() && announces(#[trigger] prefix[i], Capability::XdgWmBase);
            assert(announces(events[a], order[a]) && prefix[a] == events[a]);
            assert(announces(events[b], order[b]) && prefix[b] == events[b]);
            assert(announces(events[c], order[c]) && prefix[c] == events[c]);
            assert(announces(events[d], order[d]) && prefix[d] == events[d]);
            assert(announces(events[e], order[e]) && prefix[e] == events[e]);
            assert(false);
        }
    }
    assert forall|capability: Capability| announced(events, capability) by {
        assert(order[0] == capability || order[1] == capability || order[2] == capability
            || order[3] == capability || order[4] == capability);
        let i: int = choose|i: int| 0 <= i < 5 && order[i] == capability;
        assert(announces(events[i], capability));
    }
    lemma_initialized_iff_all_announced(events);
    assert forall|i: int| 0 <= i < events.len() implies #[trigger] events[i] is Global by {
        assert(announces(events[i], order[i]));
    }
    lemma_announcements_only(events);
    lemma_objects_created_once(events);
}

/// Over any run of events from a fresh session, the surface and the buffer
/// are created once if the session got initialized and never otherwise,
/// and the viewport is created once if the session has one and never
/// otherwise. No event creates any of them a second time.
pub proof fn lemma_objects_created_once(events: Seq<Event>)
    ensures
        surfaces_created(trace(State::fresh(), events)) == one_if(
            run(State::fresh(), events).initialized(),
        ),
        buffers_created(trace(State::fresh(), events)) == one_if(
            run(State::fresh(), events).initialized(),
        ),
        viewports_created(trace(State::fresh(), events)) == one_if(
            has_viewport(run(State::fresh(), events)),
        ),
    decreases events.len(),
{
    if events.len() > 0 {
        let front = events.drop_last();
        let sent = run(State::fresh(), front).requests(events.last());
        let earlier = trace(State::fresh(), front);
        lemma_objects_created_once(front);
        lemma_step_creations(run(State::fresh(), front), events.last());
        lemma_count_concat(earlier, sent, |r: Request| r.creates_surface());
        lemma_count_concat(earlier, sent, |r: Request| r.creates_buffer());
        lemma_count_concat(earlier, sent, |r: Request| r.creates_viewport());
    }
}

/// The answer to a configure event starts with the acknowledgement of its
/// serial, ends with the buffer attached at the origin and the surface
/// committed, and holds no attach or commit before the acknowledgement.
pub proof fn lemma_configure_acknowledged_first(state: State, serial: u32)
    requires
        state.initialized(),
    ensures
        ({
            let sent = state.requests(Event::Configure { serial });
            &&& sent.len() >= 3
            &&& sent[0] == (Request::AckConfigure { serial })
            &&& sent[sent.len() - 2] == (Request::Attach { x: 0, y: 0 })
            &&& sent[sent.len() - 1] == Request::Commit
            &&& forall|i: int|
                0 <= i < sent.len() && (#[trigger] sent[i] is Attach || sent[i] is Commit) ==> i
                    > 0
        }),
{
}

/// A second configure event leaves the session as the first one left it,
/// creates no viewport, and still acknowledges, attaches and commits.
pub proof fn lemma_second_configure_keeps_viewport(state: State, first: u32, second: u32)
    requires
        state.initialized(),
    ensures
        ({
            let once = state.step(Event::Configure { serial: first });
            &&& has_viewport(once)
            &&& once.step(Event::Configure { serial: second }) == once
            &&& once.requests(Event::Configure { serial: second }) == seq![
                Request::AckConfigure { serial: second },
                Request::Attach { x: 0, y: 0 },
                Request::Commit,
            ]
        }),
{
}

/// Once initialized, the session stays initialized over the same five
/// globals and the same buffer, keeps a viewport it has, and never runs
/// again after it stopped.
pub proof fn lemma_initialized_is_stable(state: State, event: Event)
    requires
        state.initialized(),
    ensures
        state.step(event).initialized(),
        forall|capability: Capability|
            #[trigger] state.step(event).bound(capability) == state.bound(capability),
        state.step(event)->buffer == state->buffer,
        has_viewport(state) ==> state.step(event)->viewport == state->viewport,
        !state.keeps_running() ==> !state.step(event).keeps_running(),
{
}

/// A close event stops every initialized session, and so does the Escape
/// key; any other key leaves the session as it is.
pub proof fn lemma_close_and_escape_stop(state: State, key: u32)
    ensures
        state.initialized() ==> !state.step(Event::Close).keeps_running(),
        state.initialized() && key == ESCAPE_KEY ==> !state.step(
            Event::Key { key },
        ).keeps_running(),
        key != ESCAPE_KEY ==> state.step(Event::Key { key }) == state,
{
}

} // verus!
