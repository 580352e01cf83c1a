use byte_slice_cast::AsSliceOf;
use vstd::prelude::*;

verus! {

#[verifier::external_type_specification]
#[verifier::external_body]
pub struct ExSliceCastError(byte_slice_cast::Error);

/// What the capture sink answers for one sample it was offered.
#[derive(Clone, Copy, Debug, PartialEq, Eq, Structural)]
pub enum Flow {
    /// The sample was handed on; keep streaming.
    Continue,
    /// No sample could be pulled: the stream has ended.
    EndOfStream,
    /// The sample could not be handed on.
    Error,
}

/// What to do with a sample that the capture sink was offered.
#[derive(Debug)]
pub enum SampleAction {
    /// Send these bytes to the voice output channel, then report with `on_sent`.
    Forward(Vec<u8>),
    /// Answer the sink with this flow and do nothing else.
    Reply(Flow),
}

/// Views a mapped buffer as a slice of `u8` with `AsSliceOf::as_slice_of::<u8>`
/// of byte-slice-cast. For `u8` the alignment check (alignment 1) and the
/// whole-number-of-values check (size 1) cannot fail, so the crate's source
/// returns `Ok` with a slice over the same bytes; that is what is claimed here.
#[verifier::external_body]
fn cast_to_bytes(data: &[u8]) -> (r: Result<&[u8], byte_slice_cast::Error>)
    ensures
        r is Ok,
        r matches Ok(s) ==> s@ == data@,
{
    data.as_slice_of::<u8>()
}

/// Decides what happens to a sample offered to the capture sink. `mapped` is the
/// readable content of the sample's buffer, or `None` when no sample could be
/// pulled. A missing sample ends the stream; otherwise the bytes are forwarded
/// unchanged.
pub fn on_sample(mapped: Option<&[u8]>) -> (a: SampleAction)
    ensures
        mapped is None ==> a == SampleAction::Reply(Flow::EndOfStream),
        mapped matches Some(d) ==> (a matches SampleAction::Forward(v) && v@ == d@),
{
    match mapped {
        None => SampleAction::Reply(Flow::EndOfStream),
        Some(data) => match cast_to_bytes(data) {
            Ok(samples) => SampleAction::Forward(vstd::slice::slice_to_vec(samples)),
            Err(_) => SampleAction::Reply(Flow::Error),
        },
    }
}

/// The flow reported after forwarding a sample: `Continue` when the send succeeded,
/// `Error` when the voice output channel refused it.
pub fn on_sent(sent: bool) -> (f: Flow)
    ensures
        f == (if sent { Flow::Continue } else { Flow::Error }),
{
    if sent {
        Flow::Continue
    } else {
        Flow::Error
    }
}

} // verus!
