use vstd::prelude::*;

verus! {

/// A fatal error posted on a pipeline's bus: the path of the element that posted
/// it, the error's description and its optional debug text.
#[derive(Debug)]
pub struct ErrorReport {
    pub source: String,
    pub error: String,
    pub debug: Option<String>,
}

impl ErrorReport {
    /// Builds a report; an error posted by no element names its source "None".
    pub fn new(source_path: Option<String>, error: String, debug: Option<String>) -> (r: ErrorReport)
        ensures
            r.source@ == (match source_path {
                Some(p) => p@,
                None => "None"@,
            }),
            r.error@ == error@,
            r.debug == debug,
    {
        let source = match source_path {
            Some(p) => p,
            None => {
                proof {
                    reveal_strlit("None");
                }
                String::from_str("None")
            },
        };
        ErrorReport { source, error, debug }
    }
}

/// A message popped from a pipeline's bus, as far as the bus watch tells kinds apart.
#[derive(Debug)]
pub enum BusMessage {
    /// End of stream.
    Eos,
    /// A fatal error.
    Error(ErrorReport),
    /// Any other message: state changes, tags, latency and the like.
    Other,
}

/// Why a bus watch ended without success.
#[derive(Debug)]
pub enum LoopError {
    /// The pipeline refused a state change.
    StateChange,
    /// An element posted a fatal error.
    Message(ErrorReport),
}

/// What the bus watch learned from its last request.
#[derive(Debug)]
pub enum WatchEvent {
    /// The requested state change succeeded (`true`) or failed (`false`).
    StateChanged(bool),
    /// A message was popped from the bus.
    Message(BusMessage),
    /// The bus yielded no message: it has been flushed or closed.
    BusEmpty,
}

/// What the driver of a bus watch must do next.
#[derive(Debug)]
pub enum WatchAction {
    /// Set the pipeline to the playing state and report with `StateChanged`.
    SetPlaying,
    /// Wait for the next bus message and report it, or `BusEmpty`.
    PopMessage,
    /// Set the pipeline to the null state and report with `StateChanged`.
    SetNull,
    /// The watch is over: return this result.
    Finish(Result<(), LoopError>),
    /// The watch already finished: nothing is left to do.
    Idle,
}

/// The state of a watch over a pipeline's bus: it starts the pipeline, pops
/// messages until the stream ends or an element fails, and stops the pipeline.
#[derive(Debug)]
pub enum BusWatch {
    /// Waiting for the pipeline to start playing.
    Starting,
    /// The pipeline plays; waiting for bus messages.
    Watching,
    /// Waiting for the pipeline to reach the null state; the report of the
    /// error that stopped it, if any, is kept for the result.
    Stopping(Option<ErrorReport>),
    /// The watch is over.
    Finished,
}

/// The request that a watch in state `w` waits on an answer to.
pub open spec fn pending_action(w: BusWatch) -> WatchAction {
    match w {
        BusWatch::Starting => WatchAction::SetPlaying,
        BusWatch::Watching => WatchAction::PopMessage,
        BusWatch::Stopping(_) => WatchAction::SetNull,
        BusWatch::Finished => WatchAction::Idle,
    }
}

/// The result of a watch whose pipeline was asked to stop, given whether the
/// stop succeeded and the error that caused it, if any. A failed stop is
/// reported in place of that error.
pub open spec fn stop_result(ok: bool, pending: Option<ErrorReport>) -> Result<(), LoopError> {
    if !ok {
        Err(LoopError::StateChange)
    } else {
        match pending {
            None => Ok(()),
            Some(r) => Err(LoopError::Message(r)),
        }
    }
}

/// One step of the bus watch: the next state and the next request, given the
/// current state and the answer to the pending request. An event that does not
/// answer the pending request leaves the state as it is and repeats the request.
pub open spec fn transition(w: BusWatch, e: WatchEvent) -> (BusWatch, WatchAction) {
    match w {
        BusWatch::Starting => match e {
            WatchEvent::StateChanged(true) => (BusWatch::Watching, WatchAction::PopMessage),
            WatchEvent::StateChanged(false) => (
                BusWatch::Finished,
                WatchAction::Finish(Err(LoopError::StateChange)),
            ),
            _ => (BusWatch::Starting, WatchAction::SetPlaying),
        },
        BusWatch::Watching => match e {
            WatchEvent::Message(BusMessage::Eos) => (BusWatch::Stopping(None), WatchAction::SetNull),
            WatchEvent::Message(BusMessage::Error(r)) => (
                BusWatch::Stopping(Some(r)),
                WatchAction::SetNull,
            ),
            WatchEvent::Message(BusMessage::Other) => (BusWatch::Watching, WatchAction::PopMessage),
            WatchEvent::BusEmpty => (BusWatch::Stopping(None), WatchAction::SetNull),
            WatchEvent::StateChanged(_) => (BusWatch::Watching, WatchAction::PopMessage),
        },
        BusWatch::Stopping(p) => match e {
            WatchEvent::StateChanged(ok) => (BusWatch::Finished, WatchAction::Finish(stop_result(ok, p))),
            _ => (BusWatch::Stopping(p), WatchAction::SetNull),
        },
        BusWatch::Finished => (BusWatch::Finished, WatchAction::Idle),
    }
}

/// The requests a watch starting in state `w` makes while it is fed `evs`, one per event.
pub open spec fn run(w: BusWatch, evs: Seq<WatchEvent>) -> Seq<WatchAction>
    decreases evs.len(),
{
    if evs.len() == 0 {
        Seq::empty()
    } else {
        let (next, a) = transition(w, evs[0]);
        seq![a] + run(next, evs.drop_first())
    }
}

/// The state a watch starting in state `w` is in after it is fed `evs`.
pub open spec fn run_state(w: BusWatch, evs: Seq<WatchEvent>) -> BusWatch
    decreases evs.len(),
{
    if evs.len() == 0 {
        w
    } else {
        run_state(transition(w, evs[0]).0, evs.drop_first())
    }
}

/// A watch makes exactly one request per event it is fed.
pub proof fn lemma_run_len(w: BusWatch, evs: Seq<WatchEvent>)
    ensures
        run(w, evs).len() == evs.len(),
    decreases evs.len(),
{
    if evs.len() > 0 {
        lemma_run_len(transition(w, evs[0]).0, evs.drop_first());
    }
}

/// An error that an element posts while the pipeline plays is answered by stopping
/// the pipeline, and once it has stopped the watch returns exactly that error.
pub proof fn lemma_error_is_reported_after_stop(r: ErrorReport)
    ensures
        transition(BusWatch::Watching, WatchEvent::Message(BusMessage::Error(r)))
            == (BusWatch::Stopping(Some(r)), WatchAction::SetNull),
        transition(BusWatch::Stopping(Some(r)), WatchEvent::StateChanged(true))
            == (BusWatch::Finished, WatchAction::Finish(Err(LoopError::Message(r)))),
{
}

/// The end of the stream, or a bus that yields nothing more, stops the pipeline,
/// and a successful stop ends the watch with success.
pub proof fn lemma_end_of_stream_stops_cleanly()
    ensures
        transition(BusWatch::Watching, WatchEvent::Message(BusMessage::Eos))
            == (BusWatch::Stopping(None), WatchAction::SetNull),
        transition(BusWatch::Watching, WatchEvent::BusEmpty)
            == (BusWatch::Stopping(None), WatchAction::SetNull),
        transition(BusWatch::Stopping(None), WatchEvent::StateChanged(true))
            == (BusWatch::Finished, WatchAction::Finish(Ok(()))),
{
}

/// A pipeline that starts playing is then watched: the next request pops a bus message.
pub proof fn lemma_started_pipeline_is_watched()
    ensures
        transition(BusWatch::Starting, WatchEvent::StateChanged(true))
            == (BusWatch::Watching, WatchAction::PopMessage),
{
}

/// An event that does not answer the pending request leaves the watch as it is
/// and repeats that request.
pub proof fn lemma_unanswered_event_repeats_request(w: BusWatch, e: WatchEvent)
    requires
        !answers(w, e),
    ensures
        transition(w, e).0 == w,
        transition(w, e).1 == pending_action(w),
{
}

/// Any other bus message leaves the watch waiting for the next one.
pub proof fn lemma_other_messages_keep_watching()
    ensures
        transition(BusWatch::Watching, WatchEvent::Message(BusMessage::Other))
            == (BusWatch::Watching, WatchAction::PopMessage),
{
}

/// A pipeline that refuses to start playing ends the watch with a state-change
/// error at once; one that refuses to stop reports that failure in place of any
/// element error.
pub proof fn lemma_state_change_failures(p: Option<ErrorReport>)
    ensures
        transition(BusWatch::Starting, WatchEvent::StateChanged(false))
            == (BusWatch::Finished, WatchAction::Finish(Err(LoopError::StateChange))),
        transition(BusWatch::Stopping(p), WatchEvent::StateChanged(false))
            == (BusWatch::Finished, WatchAction::Finish(Err(LoopError::StateChange))),
{
}

/// A finished watch stays finished and asks for nothing more, whatever it is fed.
pub proof fn lemma_finished_is_final(evs: Seq<WatchEvent>)
    ensures
        run_state(BusWatch::Finished, evs) == BusWatch::Finished,
        forall|i: int| 0 <= i < evs.len() ==> run(BusWatch::Finished, evs)[i] == WatchAction::Idle,
    decreases evs.len(),
{
    if evs.len() > 0 {
        lemma_finished_is_final(evs.drop_first());
        lemma_run_len(BusWatch::Finished, evs.drop_first());
        assert forall|i: int| 0 <= i < evs.len() implies run(BusWatch::Finished, evs)[i]
            == WatchAction::Idle by {
            if i > 0 {
                assert(run(BusWatch::Finished, evs)[i] == run(BusWatch::Finished, evs.drop_first())[i - 1]);
            }
        }
    }
}

/// A watch only finishes with success, or with an element's error, after it has
/// asked to set the pipeline to the null state: from a watch that is not already
/// stopping, such a result at request `k` is preceded by a `SetNull` request.
pub proof fn lemma_no_result_without_stop(w: BusWatch, evs: Seq<WatchEvent>, k: int)
    requires
        !(w is Stopping),
        0 <= k < run(w, evs).len(),
        run(w, evs)[k] matches WatchAction::Finish(res) && !(res matches Err(LoopError::StateChange)),
    ensures
        exists|j: int| 0 <= j < k && run(w, evs)[j] == WatchAction::SetNull,
    decreases evs.len(),
{
    lemma_run_len(w, evs);
    let (next, a) = transition(w, evs[0]);
    let tail = evs.drop_first();
    assert(run(w, evs) == seq![a] + run(next, tail));
    if k == 0 {
        // a step from a state that is not stopping never yields such a result
        assert(false);
    } else {
        assert(run(w, evs)[k] == run(next, tail)[k - 1]);
        if next is Stopping {
            assert(a == WatchAction::SetNull);
            assert(run(w, evs)[0] == WatchAction::SetNull);
        } else {
            lemma_no_result_without_stop(next, tail, k - 1);
            let j = choose|j: int| 0 <= j < k - 1 && run(next, tail)[j] == WatchAction::SetNull;
            assert(run(w, evs)[j + 1] == run(next, tail)[j]);
        }
    }
}

/// Whether event `e` answers the request that a watch in state `w` waits on: a
/// state change answers a state-change request, a message or an empty bus answers
/// a pop; anything may be fed to a finished watch.
pub open spec fn answers(w: BusWatch, e: WatchEvent) -> bool {
    match w {
        BusWatch::Starting => e is StateChanged,
        BusWatch::Watching => e is Message || e is BusEmpty,
        BusWatch::Stopping(_) => e is StateChanged,
        BusWatch::Finished => true,
    }
}

/// Whether each of `evs` answers the request pending when it is fed, for a watch
/// starting in state `w`: the events a driver that performs every request reports.
pub open spec fn answers_each(w: BusWatch, evs: Seq<WatchEvent>) -> bool
    decreases evs.len(),
{
    evs.len() == 0 || (answers(w, evs[0]) && answers_each(transition(w, evs[0]).0, evs.drop_first()))
}

/// How many of the requests `s` ask to set the pipeline to the null state.
pub open spec fn null_requests(s: Seq<WatchAction>) -> nat
    decreases s.len(),
{
    if s.len() == 0 {
        0
    } else {
        (if s[0] is SetNull { 1nat } else { 0nat }) + null_requests(s.drop_first())
    }
}

proof fn lemma_started_asks_null(w: BusWatch, evs: Seq<WatchEvent>, k: int)
    requires
        w is Watching || w is Stopping,
        0 <= k < run(w, evs).len(),
        run(w, evs)[k] is Finish,
    ensures
        w is Stopping || exists|j: int| 0 <= j < k && run(w, evs)[j] is SetNull,
    decreases evs.len(),
{
    lemma_run_len(w, evs);
    let (next, a) = transition(w, evs[0]);
    let tail = evs.drop_first();
    assert(run(w, evs) == seq![a] + run(next, tail));
    if w is Watching {
        if k == 0 {
            assert(false);
        } else {
            assert(run(w, evs)[k] == run(next, tail)[k - 1]);
            if next is Stopping {
                assert(run(w, evs)[0] is SetNull);
            } else {
                lemma_started_asks_null(next, tail, k - 1);
                let j = choose|j: int| 0 <= j < k - 1 && run(next, tail)[j] is SetNull;
                assert(run(w, evs)[j + 1] == run(next, tail)[j]);
            }
        }
    }
}

proof fn lemma_answered_stop_once(w: BusWatch, evs: Seq<WatchEvent>, k: int)
    requires
        w is Watching || w is Stopping,
        answers_each(w, evs),
        0 <= k < run(w, evs).len(),
        run(w, evs)[k] is Finish,
    ensures
        w is Stopping ==> k == 0,
        w is Watching ==> k >= 1 && run(w, evs)[k - 1] is SetNull,
        null_requests(run(w, evs).take(k)) + (if w is Stopping { 1nat } else { 0nat }) == 1,
    decreases evs.len(),
{
    lemma_run_len(w, evs);
    let (next, a) = transition(w, evs[0]);
    let tail = evs.drop_first();
    let r = run(w, evs);
    let rt = run(next, tail);
    assert(r == seq![a] + rt);
    lemma_run_len(next, tail);
    if w is Stopping {
        assert(next == BusWatch::Finished);
        if k > 0 {
            lemma_finished_is_final(tail);
            assert(r[k] == rt[k - 1]);
            assert(false);
        }
        assert(r.take(0) =~= Seq::<WatchAction>::empty());
    } else {
        if k == 0 {
            assert(false);
        }
        assert(r[k] == rt[k - 1]);
        assert(next is Watching || next is Stopping);
        assert(answers_each(next, tail));
        lemma_answered_stop_once(next, tail, k - 1);
        assert(r.take(k).drop_first() =~= rt.take(k - 1));
        assert(r.take(k)[0] == a);
        assert(a is SetNull <==> next is Stopping);
        if k - 1 >= 1 {
            assert(r[k - 1] == rt[k - 2]);
        }
    }
}

/// Once the pipeline has started playing, the watch never returns (with success,
/// an element's error or a refused stop) without first asking to set the pipeline
/// to the null state. When each request is answered, that request is the last one
/// before the watch returns, and the only one of its kind.
pub proof fn lemma_started_pipeline_is_stopped_once(evs: Seq<WatchEvent>, k: int)
    requires
        evs.len() > 0,
        evs[0] matches WatchEvent::StateChanged(true),
        0 <= k < evs.len(),
        run(BusWatch::Starting, evs)[k] is Finish,
    ensures
        exists|j: int| 0 < j < k && run(BusWatch::Starting, evs)[j] is SetNull,
        answers_each(BusWatch::Starting, evs) ==> k >= 2 && run(BusWatch::Starting, evs)[k - 1] is SetNull
            && null_requests(run(BusWatch::Starting, evs).take(k)) == 1,
{
    let r = run(BusWatch::Starting, evs);
    let tail = evs.drop_first();
    let rt = run(BusWatch::Watching, tail);
    lemma_run_len(BusWatch::Starting, evs);
    lemma_run_len(BusWatch::Watching, tail);
    assert(transition(BusWatch::Starting, evs[0]) == (BusWatch::Watching, WatchAction::PopMessage));
    assert(r == seq![WatchAction::PopMessage] + rt);
    if k == 0 {
        assert(false);
    }
    assert(r[k] == rt[k - 1]);
    lemma_started_asks_null(BusWatch::Watching, tail, k - 1);
    let j = choose|j: int| 0 <= j < k - 1 && rt[j] is SetNull;
    assert(r[j + 1] == rt[j]);
    if answers_each(BusWatch::Starting, evs) {
        lemma_answered_stop_once(BusWatch::Watching, tail, k - 1);
        assert(r[k - 1] == rt[k - 2]);
        assert(r.take(k).drop_first() =~= rt.take(k - 1));
        assert(r.take(k)[0] == WatchAction::PopMessage);
    }
}

impl BusWatch {
    /// A new watch and its first request: start the pipeline.
    pub fn start() -> (r: (BusWatch, WatchAction))
        ensures
            r.0 == BusWatch::Starting,
            r.1 == pending_action(BusWatch::Starting),
    {
        (BusWatch::Starting, WatchAction::SetPlaying)
    }

    /// Feeds the answer to the pending request and returns the next state and request.
    pub fn step(self, e: WatchEvent) -> (r: (BusWatch, WatchAction))
        ensures
            r == transition(self, e),
    {
        match self {
            BusWatch::Starting => match e {
                WatchEvent::StateChanged(ok) => {
                    if ok {
                        (BusWatch::Watching, WatchAction::PopMessage)
                    } else {
                        (BusWatch::Finished, WatchAction::Finish(Err(LoopError::StateChange)))
                    }
                },
                _ => (BusWatch::Starting, WatchAction::SetPlaying),
            },
            BusWatch::Watching => match e {
                WatchEvent::Message(m) => match m {
                    BusMessage::Eos => (BusWatch::Stopping(None), WatchAction::SetNull),
                    BusMessage::Error(r) => (BusWatch::Stopping(Some(r)), WatchAction::SetNull),
                    BusMessage::Other => (BusWatch::Watching, WatchAction::PopMessage),
                },
                WatchEvent::BusEmpty => (BusWatch::Stopping(None), WatchAction::SetNull),
                WatchEvent::StateChanged(_) => (BusWatch::Watching, WatchAction::PopMessage),
            },
            BusWatch::Stopping(p) => match e {
                WatchEvent::StateChanged(ok) => {
                    let res = if !ok {
                        Err(LoopError::StateChange)
                    } else {
                        match p {
                            None => Ok(()),
                            Some(r) => Err(LoopError::Message(r)),
                        }
                    };
                    (BusWatch::Finished, WatchAction::Finish(res))
                },
                _ => (BusWatch::Stopping(p), WatchAction::SetNull),
            },
            BusWatch::Finished => (BusWatch::Finished, WatchAction::Idle),
        }
    }
}

} // verus!
