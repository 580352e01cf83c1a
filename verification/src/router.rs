use vstd::prelude::*;

verus! {

/// Number of playback slots, one per voice session that can be heard at once.
pub const VOICE_SLOTS: usize = 16;

/// The playback slot of a voice session: sessions `0 .. VOICE_SLOTS` play in the
/// slot of the same number; any other session has none.
pub open spec fn session_slot(session: i32) -> Option<usize> {
    if 0 <= session < VOICE_SLOTS {
        Some(session as usize)
    } else {
        None
    }
}

/// Computes `session_slot`.
pub fn slot_of_session(session: i32) -> (r: Option<usize>)
    ensures
        r == session_slot(session),
{
    if 0 <= session && session < 16 {
        Some(session as usize)
    } else {
        None
    }
}

/// The error that ends the voice input task when a playback slot refuses audio.
#[derive(Debug, Clone, Copy, PartialEq, Eq, Structural)]
pub struct InputTaskError;

impl InputTaskError {
    /// The error's text, "vox_inp_task".
    pub fn description(&self) -> (s: &'static str)
        ensures
            s@ == "vox_inp_task"@,
    {
        "vox_inp_task"
    }
}

/// What the voice input task learned from its last request.
#[derive(Debug)]
pub enum RouteEvent {
    /// A voice packet arrived: the speaker's session and its raw audio bytes.
    Packet { session: i32, bytes: Vec<u8> },
    /// The pending push was accepted (`true`) or refused (`false`) by its slot.
    PushResult(bool),
    /// The incoming packet stream ended.
    StreamEnd,
}

/// What the driver of the voice input task must do next.
#[derive(Debug)]
pub enum RouteAction {
    /// Wait for the next packet and report it, or `StreamEnd`.
    AwaitPacket,
    /// Push these bytes into this playback slot and report with `PushResult`.
    Push { slot: usize, bytes: Vec<u8> },
    /// Signal end of stream on this slot, then end the task with `InputTaskError`.
    Fail { slot: usize },
    /// End the task successfully.
    Finish,
    /// Nothing to do for this event.
    Idle,
}

/// The state of the task that feeds incoming voice packets to the playback slots.
#[derive(Debug, Clone, Copy, PartialEq, Eq, Structural)]
pub enum VoxRouter {
    /// Waiting for a packet.
    Awaiting,
    /// Waiting for the result of a push into this slot.
    Pushing(usize),
    /// The task is over.
    Finished,
}

/// One step of the voice input task. An event that does not answer the pending
/// request changes nothing; while a push is pending such an event is dropped.
pub open spec fn route_transition(w: VoxRouter, e: RouteEvent) -> (VoxRouter, RouteAction) {
    match w {
        VoxRouter::Awaiting => match e {
            RouteEvent::Packet { session, bytes } => match session_slot(session) {
                Some(slot) => (VoxRouter::Pushing(slot), RouteAction::Push { slot, bytes }),
                None => (VoxRouter::Awaiting, RouteAction::AwaitPacket),
            },
            RouteEvent::StreamEnd => (VoxRouter::Finished, RouteAction::Finish),
            RouteEvent::PushResult(_) => (VoxRouter::Awaiting, RouteAction::AwaitPacket),
        },
        VoxRouter::Pushing(slot) => match e {
            RouteEvent::PushResult(true) => (VoxRouter::Awaiting, RouteAction::AwaitPacket),
            RouteEvent::PushResult(false) => (VoxRouter::Finished, RouteAction::Fail { slot }),
            _ => (VoxRouter::Pushing(slot), RouteAction::Idle),
        },
        VoxRouter::Finished => (VoxRouter::Finished, RouteAction::Idle),
    }
}

impl VoxRouter {
    /// A new task and its first request: wait for a packet.
    pub fn start() -> (r: (VoxRouter, RouteAction))
        ensures
            r.0 == VoxRouter::Awaiting,
            r.1 == RouteAction::AwaitPacket,
    {
        (VoxRouter::Awaiting, RouteAction::AwaitPacket)
    }

    /// Feeds the answer to the pending request and returns the next state and request.
    pub fn step(self, e: RouteEvent) -> (r: (VoxRouter, RouteAction))
        ensures
            r == route_transition(self, e),
    {
        match self {
            VoxRouter::Awaiting => match e {
                RouteEvent::Packet { session, bytes } => match slot_of_session(session) {
                    Some(slot) => (VoxRouter::Pushing(slot), RouteAction::Push { slot, bytes }),
                    None => (VoxRouter::Awaiting, RouteAction::AwaitPacket),
                },
                RouteEvent::StreamEnd => (VoxRouter::Finished, RouteAction::Finish),
                RouteEvent::PushResult(_) => (VoxRouter::Awaiting, RouteAction::AwaitPacket),
            },
            VoxRouter::Pushing(slot) => match e {
                RouteEvent::PushResult(accepted) => {
                    if accepted {
                        (VoxRouter::Awaiting, RouteAction::AwaitPacket)
                    } else {
                        (VoxRouter::Finished, RouteAction::Fail { slot })
                    }
                },
                _ => (VoxRouter::Pushing(slot), RouteAction::Idle),
            },
            VoxRouter::Finished => (VoxRouter::Finished, RouteAction::Idle),
        }
    }
}

/// The requests the task makes while, from state `w`, it is fed `evs`, one per event.
pub open spec fn route_run(w: VoxRouter, evs: Seq<RouteEvent>) -> Seq<RouteAction>
    decreases evs.len(),
{
    if evs.len() == 0 {
        Seq::empty()
    } else {
        let (next, a) = route_transition(w, evs[0]);
        seq![a] + route_run(next, evs.drop_first())
    }
}

/// The task makes exactly one request per event it is fed.
pub proof fn lemma_route_run_len(w: VoxRouter, evs: Seq<RouteEvent>)
    ensures
        route_run(w, evs).len() == evs.len(),
    decreases evs.len(),
{
    if evs.len() > 0 {
        lemma_route_run_len(route_transition(w, evs[0]).0, evs.drop_first());
    }
}

/// A push is only ever requested for a packet that has just arrived, into the
/// slot of the packet's session, with the packet's bytes unchanged.
pub proof fn lemma_push_goes_to_session_slot(w: VoxRouter, e: RouteEvent)
    requires
        route_transition(w, e).1 is Push,
    ensures
        w == VoxRouter::Awaiting,
        e matches RouteEvent::Packet { session, bytes } && 0 <= session < VOICE_SLOTS
            && route_transition(w, e).1 == (RouteAction::Push { slot: session as usize, bytes })
            && route_transition(w, e).0 == VoxRouter::Pushing(session as usize),
        route_transition(w, e).1 matches RouteAction::Push { slot, .. } && route_transition(w, e).0
            == VoxRouter::Pushing(slot),
{
}

/// Every packet of a session that has a playback slot is pushed: its bytes go,
/// unchanged, into the slot numbered like the session, and the task then waits
/// for the result of that very push.
pub proof fn lemma_routed_packet_is_pushed(session: i32, bytes: Vec<u8>)
    requires
        0 <= session < VOICE_SLOTS,
    ensures
        route_transition(VoxRouter::Awaiting, RouteEvent::Packet { session, bytes }) == (
        VoxRouter::Pushing(session as usize),
        RouteAction::Push { slot: session as usize, bytes },
        ),
{
}

/// A session has a playback slot exactly when it lies in `0 .. VOICE_SLOTS`, and
/// that slot carries the session's number.
pub proof fn lemma_session_slot_range(session: i32)
    ensures
        session_slot(session) is Some <==> 0 <= session < VOICE_SLOTS,
        session_slot(session) matches Some(slot) ==> slot == session && slot < VOICE_SLOTS,
{
}

/// A packet from a session with a slot, followed by the answer to its push: a
/// refused push closes exactly that slot and fails the task, an accepted one lets
/// the task wait for the next packet.
pub proof fn lemma_packet_then_push_result(session: i32, bytes: Vec<u8>, accepted: bool)
    requires
        0 <= session < VOICE_SLOTS,
    ensures
        route_run(
            VoxRouter::Awaiting,
            seq![RouteEvent::Packet { session, bytes }, RouteEvent::PushResult(accepted)],
        ) == seq![
            RouteAction::Push { slot: session as usize, bytes },
            if accepted { RouteAction::AwaitPacket } else { RouteAction::Fail { slot: session as usize } },
        ],
{
    let evs = seq![RouteEvent::Packet { session, bytes }, RouteEvent::PushResult(accepted)];
    let slot = session as usize;
    let rest = evs.drop_first();
    assert(rest =~= seq![RouteEvent::PushResult(accepted)]);
    assert(rest.drop_first() =~= Seq::<RouteEvent>::empty());
    assert(route_run(VoxRouter::Pushing(slot), rest) == seq![
        if accepted { RouteAction::AwaitPacket } else { RouteAction::Fail { slot } },
    ] + route_run(route_transition(VoxRouter::Pushing(slot), rest[0]).0, rest.drop_first()));
    assert(route_run(VoxRouter::Awaiting, evs) == seq![RouteAction::Push { slot, bytes }] + route_run(
        VoxRouter::Pushing(slot),
        rest,
    ));
    assert(route_run(VoxRouter::Awaiting, evs) =~= seq![
        RouteAction::Push { slot, bytes },
        if accepted { RouteAction::AwaitPacket } else { RouteAction::Fail { slot } },
    ]);
}

/// An event that does not answer the pending request changes nothing: a push
/// result while no push is pending leaves the task waiting for packets, and a
/// packet or the end of the stream while a push is pending is dropped.
pub proof fn lemma_unanswered_event_changes_nothing(w: VoxRouter, e: RouteEvent)
    requires
        w is Awaiting ==> e is PushResult,
        w is Pushing ==> !(e is PushResult),
        !(w is Finished),
    ensures
        route_transition(w, e).0 == w,
        w is Awaiting ==> route_transition(w, e).1 == RouteAction::AwaitPacket,
        w is Pushing ==> route_transition(w, e).1 == RouteAction::Idle,
{
}

/// When the packet stream ends while no push is pending, the task ends successfully.
pub proof fn lemma_stream_end_finishes()
    ensures
        route_transition(VoxRouter::Awaiting, RouteEvent::StreamEnd) == (VoxRouter::Finished, RouteAction::Finish),
{
}

/// A packet of a session without a slot is dropped and the task waits for the next one.
pub proof fn lemma_unrouted_packet_is_dropped(session: i32, bytes: Vec<u8>)
    requires
        !(0 <= session < VOICE_SLOTS),
    ensures
        route_transition(VoxRouter::Awaiting, RouteEvent::Packet { session, bytes })
            == (VoxRouter::Awaiting, RouteAction::AwaitPacket),
{
}

/// A refused push ends the task: its slot is told the stream ended and the task
/// fails; an accepted push lets the task wait for the next packet.
pub proof fn lemma_push_result(slot: usize)
    ensures
        route_transition(VoxRouter::Pushing(slot), RouteEvent::PushResult(false))
            == (VoxRouter::Finished, RouteAction::Fail { slot }),
        route_transition(VoxRouter::Pushing(slot), RouteEvent::PushResult(true))
            == (VoxRouter::Awaiting, RouteAction::AwaitPacket),
{
}

/// Once the task is over it asks for nothing more, whatever it is fed: after a
/// refused push or the end of the stream no packet is pushed again.
pub proof fn lemma_finished_router_is_idle(evs: Seq<RouteEvent>)
    ensures
        forall|i: int| 0 <= i < evs.len() ==> route_run(VoxRouter::Finished, evs)[i] == RouteAction::Idle,
    decreases evs.len(),
{
    if evs.len() > 0 {
        lemma_finished_router_is_idle(evs.drop_first());
        lemma_route_run_len(VoxRouter::Finished, evs.drop_first());
        assert forall|i: int| 0 <= i < evs.len() implies route_run(VoxRouter::Finished, evs)[i]
            == RouteAction::Idle by {
            if i > 0 {
                assert(route_run(VoxRouter::Finished, evs)[i]
                    == route_run(VoxRouter::Finished, evs.drop_first())[i - 1]);
            }
        }
    }
}

/// Whatever packets arrive, every push the task ever requests targets one of the
/// `VOICE_SLOTS` playback slots.
pub proof fn lemma_pushes_stay_in_range(w: VoxRouter, evs: Seq<RouteEvent>, i: int)
    requires
        0 <= i < evs.len(),
    ensures
        route_run(w, evs)[i] matches RouteAction::Push { slot, .. } ==> slot < VOICE_SLOTS,
    decreases evs.len(),
{
    lemma_route_run_len(w, evs);
    let (next, a) = route_transition(w, evs[0]);
    assert(route_run(w, evs) == seq![a] + route_run(next, evs.drop_first()));
    if i > 0 {
        lemma_pushes_stay_in_range(next, evs.drop_first(), i - 1);
        assert(route_run(w, evs)[i] == route_run(next, evs.drop_first())[i - 1]);
    }
}

} // verus!
