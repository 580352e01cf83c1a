use mumblebot::{slot_of_session, InputTaskError, RouteAction, RouteEvent, VoxRouter, VOICE_SLOTS};

#[test]
fn sessions_map_to_their_own_slot() {
    for s in 0..16i32 {
        assert_eq!(slot_of_session(s), Some(s as usize));
    }
    assert_eq!(VOICE_SLOTS, 16);
}

#[test]
fn sessions_out_of_range_have_no_slot() {
    assert_eq!(slot_of_session(-1), None);
    assert_eq!(slot_of_session(16), None);
    assert_eq!(slot_of_session(i32::MIN), None);
    assert_eq!(slot_of_session(i32::MAX), None);
}

#[test]
fn packet_is_pushed_into_its_slot() {
    let (r, a) = VoxRouter::start();
    assert!(matches!(a, RouteAction::AwaitPacket));
    let (r, a) = r.step(RouteEvent::Packet { session: 7, bytes: vec![1, 2, 3, 4] });
    match a {
        RouteAction::Push { slot, bytes } => {
            assert_eq!(slot, 7);
            assert_eq!(bytes, vec![1, 2, 3, 4]);
        }
        other => panic!("unexpected action {:?}", other),
    }
    assert_eq!(r, VoxRouter::Pushing(7));
    let (r, a) = r.step(RouteEvent::PushResult(true));
    assert!(matches!(a, RouteAction::AwaitPacket));
    assert_eq!(r, VoxRouter::Awaiting);
}

#[test]
fn unrouted_packet_is_dropped() {
    let (r, _) = VoxRouter::start();
    let (r, a) = r.step(RouteEvent::Packet { session: 16, bytes: vec![9] });
    assert!(matches!(a, RouteAction::AwaitPacket));
    assert_eq!(r, VoxRouter::Awaiting);
    let (r, a) = r.step(RouteEvent::Packet { session: -3, bytes: vec![9] });
    assert!(matches!(a, RouteAction::AwaitPacket));
    assert_eq!(r, VoxRouter::Awaiting);
}

#[test]
fn refused_push_closes_slot_and_fails() {
    let (r, _) = VoxRouter::start();
    let (r, _) = r.step(RouteEvent::Packet { session: 15, bytes: vec![0; 320] });
    let (r, a) = r.step(RouteEvent::PushResult(false));
    assert!(matches!(a, RouteAction::Fail { slot: 15 }));
    assert_eq!(r, VoxRouter::Finished);
    let (r, a) = r.step(RouteEvent::Packet { session: 1, bytes: vec![1] });
    assert!(matches!(a, RouteAction::Idle));
    assert_eq!(r, VoxRouter::Finished);
}

#[test]
fn stream_end_finishes() {
    let (r, _) = VoxRouter::start();
    let (r, a) = r.step(RouteEvent::StreamEnd);
    assert!(matches!(a, RouteAction::Finish));
    assert_eq!(r, VoxRouter::Finished);
}

#[test]
fn packet_while_push_pending_is_dropped() {
    let (r, _) = VoxRouter::start();
    let (r, _) = r.step(RouteEvent::Packet { session: 2, bytes: vec![1] });
    let (r, a) = r.step(RouteEvent::Packet { session: 3, bytes: vec![2] });
    assert!(matches!(a, RouteAction::Idle));
    assert_eq!(r, VoxRouter::Pushing(2));
}

#[test]
fn input_task_error_text() {
    assert_eq!(InputTaskError.description(), "vox_inp_task");
}
