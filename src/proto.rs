use vstd::prelude::*;

verus! {

/// The initial payload handed to a restricted kernel on startup: the
/// application binary and the serialized endorsements.
#[derive(Clone, Debug, PartialEq, Eq, Default)]
pub struct InitialData {
    /// The application ELF binary.
    pub application_bytes: Vec<u8>,
    /// The serialized endorsement bytes.
    pub endorsement_bytes: Vec<u8>,
}

} // verus!
