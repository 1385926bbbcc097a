use vstd::prelude::*;

verus! {

/// Errors surfaced by the storage facade, the address codec and the
/// dispatch layer.
///
/// Absence of a key is not an error: typed reads report it as a normal
/// outcome through [`Eventually`].
#[derive(Clone, Copy, Debug, PartialEq, Eq, Structural)]
pub enum StdError {
    /// Stored bytes do not match the shape the requested type expects.
    Decode,
    /// An address cannot be converted to the requested representation.
    Codec,
    /// The raw storage backend itself failed.
    Backend,
    /// A dispatch handler failed at the business-logic level.
    Handler,
    /// No handler recognizes the dispatched message variant; no handler
    /// was invoked.
    Routing,
}

/// Every operation reports success or failure explicitly.
pub type StdResult<T> = Result<T, StdError>;

/// Result of an operation with nothing to report on success.
pub type UsuallyOk = StdResult<()>;

/// Result of a typed read: `Ok(None)` means the key was never written,
/// which is a normal outcome, not a fault.
pub type Eventually<Value> = StdResult<Option<Value>>;

} // verus!
