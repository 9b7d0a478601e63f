use vstd::prelude::*;
use vstd::string::StringExecFns;

verus! {

/// The request-shape invariant that a builder found violated.
#[derive(Clone, Copy, Debug, PartialEq, Eq, Structural)]
pub enum ValidationFault {
    /// A tenant, database or collection name was empty.
    EmptyIdentifier,
    /// Parallel record arrays do not all share the length of `ids`.
    LengthMismatch,
    /// The embeddings present do not all share one dimensionality.
    RaggedEmbeddings,
    /// An `ids` selection list was given but empty.
    EmptyIdList,
}

/// Every failure this layer can report over the foreign error channel.
///
/// Decode faults (`MalformedIdentifier`, `MalformedMetadata`, `MalformedFilter`)
/// and `Validation` are caller errors detected before the engine is touched.
/// `Engine` carries an engine diagnostic verbatim; `Init` is a construction-time
/// failure; `Serialization` marks an internal invariant violation while encoding
/// a result.
#[derive(Clone, Debug, PartialEq, Eq)]
pub enum BindError {
    MalformedIdentifier(String),
    MalformedMetadata(String),
    MalformedFilter(String),
    MalformedConfiguration(String),
    Validation(ValidationFault),
    Engine(String),
    Init(String),
    Serialization(String),
}

/// Wraps an engine diagnostic for the foreign channel, content unchanged.
pub fn engine_failure(diagnostic: String) -> (e: BindError)
    ensures
        e == BindError::Engine(diagnostic),
{
    BindError::Engine(diagnostic)
}

/// The fatal report for a handle whose exclusive-access lock was poisoned
/// by a panic in an earlier critical section: such a handle must refuse
/// all further calls rather than run on possibly inconsistent state.
pub fn poisoned_handle_failure() -> (e: BindError)
    ensures
        e matches BindError::Engine(m) && m@ == "engine handle lock poisoned; handle unusable"@,
{
    BindError::Engine(String::from_str("engine handle lock poisoned; handle unusable"))
}

} // verus!
