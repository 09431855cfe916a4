//! Error taxonomy of the decoder.
//!
//! Every fatal failure of a decode operation is one of the variants below.
//! Out-of-place but recognized records met during frame traversal are not
//! fatal: the traversal absorbs them and reports their class tags to the
//! caller (see `FrameReadout::anomalies`), so they never appear as an `Err`.

use vstd::prelude::*;

verus! {

/// A fatal decoding failure.
#[derive(Clone, Copy, Debug, PartialEq, Eq, Structural)]
pub enum DecodeError {
    /// The byte source ended in the middle of a field, or a record's
    /// declared span is shorter than its own preamble.
    TruncatedStream,
    /// A length-prefixed text field holds bytes that are not valid UTF-8.
    MalformedText,
    /// A record preamble carries a class tag outside the known set;
    /// the payload holds the offending tag.
    UnknownStructureClass(u8),
    /// A record was decoded, but its class does not match the class the
    /// calling operation required: a protocol-ordering violation.
    UnexpectedStructureClass,
}

} // verus!
