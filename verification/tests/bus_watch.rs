use mumblebot::{BusMessage, BusWatch, ErrorReport, LoopError, WatchAction, WatchEvent};

fn started() -> BusWatch {
    let (w, a) = BusWatch::start();
    assert!(matches!(a, WatchAction::SetPlaying));
    let (w, a) = w.step(WatchEvent::StateChanged(true));
    assert!(matches!(a, WatchAction::PopMessage));
    w
}

#[test]
fn end_of_stream_stops_and_succeeds() {
    let w = started();
    let (w, a) = w.step(WatchEvent::Message(BusMessage::Other));
    assert!(matches!(a, WatchAction::PopMessage));
    let (w, a) = w.step(WatchEvent::Message(BusMessage::Eos));
    assert!(matches!(a, WatchAction::SetNull));
    let (w, a) = w.step(WatchEvent::StateChanged(true));
    assert!(matches!(a, WatchAction::Finish(Ok(()))));
    assert!(matches!(w, BusWatch::Finished));
}

#[test]
fn empty_bus_stops_and_succeeds() {
    let w = started();
    let (w, a) = w.step(WatchEvent::BusEmpty);
    assert!(matches!(a, WatchAction::SetNull));
    let (_, a) = w.step(WatchEvent::StateChanged(true));
    assert!(matches!(a, WatchAction::Finish(Ok(()))));
}

#[test]
fn element_error_is_reported_after_stop() {
    let w = started();
    let report = ErrorReport::new(
        Some("/GstPipeline:pipeline0/GstAutoAudioSrc:autoaudiosrc0".to_string()),
        "Could not open audio device".to_string(),
        Some("device busy".to_string()),
    );
    let (w, a) = w.step(WatchEvent::Message(BusMessage::Error(report)));
    assert!(matches!(a, WatchAction::SetNull));
    let (_, a) = w.step(WatchEvent::StateChanged(true));
    match a {
        WatchAction::Finish(Err(LoopError::Message(r))) => {
            assert_eq!(r.source, "/GstPipeline:pipeline0/GstAutoAudioSrc:autoaudiosrc0");
            assert_eq!(r.error, "Could not open audio device");
            assert_eq!(r.debug, Some("device busy".to_string()));
        }
        other => panic!("unexpected action {:?}", other),
    }
}

#[test]
fn report_without_source_names_none() {
    let r = ErrorReport::new(None, "boom".to_string(), None);
    assert_eq!(r.source, "None");
    assert_eq!(r.error, "boom");
    assert_eq!(r.debug, None);
}

#[test]
fn refused_start_fails_at_once() {
    let (w, _) = BusWatch::start();
    let (w, a) = w.step(WatchEvent::StateChanged(false));
    assert!(matches!(a, WatchAction::Finish(Err(LoopError::StateChange))));
    assert!(matches!(w, BusWatch::Finished));
}

#[test]
fn refused_stop_replaces_element_error() {
    let w = started();
    let report = ErrorReport::new(None, "e".to_string(), None);
    let (w, _) = w.step(WatchEvent::Message(BusMessage::Error(report)));
    let (_, a) = w.step(WatchEvent::StateChanged(false));
    assert!(matches!(a, WatchAction::Finish(Err(LoopError::StateChange))));
}

#[test]
fn finished_watch_stays_idle() {
    let (w, _) = BusWatch::start();
    let (w, _) = w.step(WatchEvent::StateChanged(false));
    let (w, a) = w.step(WatchEvent::Message(BusMessage::Eos));
    assert!(matches!(a, WatchAction::Idle));
    let (w, a) = w.step(WatchEvent::StateChanged(true));
    assert!(matches!(a, WatchAction::Idle));
    assert!(matches!(w, BusWatch::Finished));
}

#[test]
fn unanswered_request_is_repeated() {
    let (w, _) = BusWatch::start();
    let (w, a) = w.step(WatchEvent::BusEmpty);
    assert!(matches!(a, WatchAction::SetPlaying));
    assert!(matches!(w, BusWatch::Starting));
    let w = started();
    let (w, a) = w.step(WatchEvent::Message(BusMessage::Eos));
    assert!(matches!(a, WatchAction::SetNull));
    let (w, a) = w.step(WatchEvent::Message(BusMessage::Other));
    assert!(matches!(a, WatchAction::SetNull));
    assert!(matches!(w, BusWatch::Stopping(None)));
}

#[test]
fn started_pipeline_is_stopped_once_before_return() {
    let events = vec![
        WatchEvent::StateChanged(true),
        WatchEvent::Message(BusMessage::Other),
        WatchEvent::Message(BusMessage::Other),
        WatchEvent::Message(BusMessage::Eos),
        WatchEvent::StateChanged(false),
    ];
    let (mut w, _) = BusWatch::start();
    let mut actions = Vec::new();
    for e in events {
        let (next, a) = w.step(e);
        w = next;
        actions.push(a);
    }
    let nulls = actions.iter().filter(|a| matches!(a, WatchAction::SetNull)).count();
    assert_eq!(nulls, 1);
    assert!(matches!(actions[3], WatchAction::SetNull));
    assert!(matches!(actions[4], WatchAction::Finish(Err(LoopError::StateChange))));
}
