use vstd::prelude::*;
use crate::store::Update;
use vstd::string::{StrSliceExecFns, StringSliceAdditionalSpecFns};

verus! {

/// The body a fetch answers with when the store closed before any artifact.
pub const SHUTDOWN_NOTICE: &'static str = "We must be shutting down.";

pub open spec fn shutdown_notice() -> Seq<u8> {
    SHUTDOWN_NOTICE.spec_bytes()
}

/// The body of a fetch, from what the store gave: the artifact when there is
/// one, the shutdown notice once the store closed without one, and `None` while
/// the fetch must go on waiting.
pub fn serve_pdf_body(outcome: Update) -> (r: Option<Vec<u8>>)
    ensures
        match outcome {
            Update::Ready(b) => r is Some && r->0@ == b@,
            Update::Closed => r is Some && r->0@ == shutdown_notice(),
            Update::Pending => r is None,
        },
{
    match outcome {
        Update::Ready(b) => Some(b),
        Update::Closed => Some(SHUTDOWN_NOTICE.as_bytes_vec()),
        Update::Pending => None,
    }
}

} // verus!
