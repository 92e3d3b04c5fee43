//! What a failed unit reports.

use vstd::prelude::*;

verus! {

/// The ways in which a case can disagree with the engine.
#[derive(Clone, Copy, Debug, PartialEq, Eq, Structural)]
pub enum TestErrorKind {
    /// The canonical bytes of the constructed transaction differ from the raw
    /// bytes that the case declares.
    TxBytesMismatch,
    /// The consensus gate turned the transaction down and the case did not
    /// expect that failure.
    ConsensusCheckMismatch,
    /// The engine rejected the transaction where none or another rejection was
    /// expected, or included it where a rejection was expected.
    OutcomeMismatch,
    /// The state after fee settlement is not the one the case describes.
    PostStateMismatch,
}

/// A failure together with the unit it came from.
#[derive(Debug, PartialEq, Eq)]
pub struct TestError {
    pub name: String,
    pub path: String,
    pub kind: TestErrorKind,
}

} // verus!
