//! How an operation that needs the outside world is carried out.
//!
//! An operation is a function of its request and of the facts learnt so far. It
//! either asks for one more fact, or is done. The caller finds out what was asked
//! for, records it among the facts, and calls the function again.
use vstd::prelude::*;

verus! {

/// Where an operation stands.
#[derive(Debug)]
pub enum Progress<S, T, E> {
    /// The operation asks for this step.
    Need(S),
    /// The operation is over.
    Done(Result<T, E>),
}

impl<S: View, T: View, E: View> View for Progress<S, T, E> {
    type V = Progress<S::V, T::V, E::V>;

    open spec fn view(&self) -> Progress<S::V, T::V, E::V> {
        match self {
            Progress::Need(step) => Progress::Need(step@),
            Progress::Done(Ok(value)) => Progress::Done(Ok(value@)),
            Progress::Done(Err(error)) => Progress::Done(Err(error@)),
        }
    }
}

/// How an attempt at changing something ended.
#[derive(Debug)]
pub enum Attempt {
    Succeeded,
    /// It failed, for the given reason.
    Failed(String),
}

/// How running a program ended.
#[derive(Debug)]
pub enum Run {
    /// The program could not be run, for the given reason.
    NotRun { error: String },
    /// The program ran and exited.
    Exited { success: bool, stdout: Vec<u8>, stderr: Vec<u8> },
}

/// What `String::from_utf8_lossy` makes of bytes.
pub uninterp spec fn utf8_lossy(bytes: Seq<u8>) -> Seq<char>;

/// The text in the output of a program, read with `String::from_utf8_lossy`:
/// a function of the bytes alone, and the text itself where they are valid
/// UTF-8. What stands in place of invalid bytes is left to that function.
#[verifier::external_body]
pub(crate) fn lossy_text(bytes: &[u8]) -> (text: String)
    ensures
        text@ == utf8_lossy(bytes@),
        vstd::utf8::valid_utf8(bytes@) ==> text@ == vstd::utf8::decode_utf8(bytes@),
{
    String::from_utf8_lossy(bytes).to_string()
}

/// Where an operation stands is seen as it is.
pub proof fn law_progress_is_seen_as_it_is<S: View, T: View, E: View>(progress: Progress<S, T, E>)
    ensures
        match (progress, progress@) {
            (Progress::Need(step), Progress::Need(seen)) => seen == step@,
            (Progress::Done(Ok(value)), Progress::Done(Ok(seen))) => seen == value@,
            (Progress::Done(Err(error)), Progress::Done(Err(seen))) => seen == error@,
            _ => false,
        },
{
}

} // verus!
