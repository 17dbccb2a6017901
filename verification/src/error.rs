//! The ways in which a run can fail before anything is written.

use vstd::prelude::*;

verus! {

/// Why no configuration came about.
#[derive(Debug)]
pub enum ConfigError {
    /// The operator gave up, or the input channel closed.
    InputAborted,
    /// A position in the list of levels that names no level.
    InvalidChoice,
    /// A reply of another kind than the question asks for, or a reply when
    /// no question is open.
    UnexpectedReply,
    /// The serializer reported a failure.
    Serialization(serde_json::Error),
}

} // verus!
