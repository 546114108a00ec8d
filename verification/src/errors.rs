use vstd::prelude::*;

verus! {

/// Every failure of an entry point, with the human-readable message that
/// the host exception carries verbatim.
#[derive(Debug)]
pub enum BridgeError {
    /// A model name, or the handle for an object identity, was not found.
    NotFound(String),
    /// The engine could not be constructed for a resolved encoding.
    Construction(String),
    /// A host value could not be converted into a native one.
    Marshal(String),
    /// The engine itself reported a failure during tokenization.
    RuntimeEncode(String),
    /// A handle already existed for the identity at initialization.
    AlreadyInitialized(String),
}

impl BridgeError {
    /// The message that the host exception will carry.
    pub open spec fn message(&self) -> Seq<char> {
        match self {
            BridgeError::NotFound(m) => m@,
            BridgeError::Construction(m) => m@,
            BridgeError::Marshal(m) => m@,
            BridgeError::RuntimeEncode(m) => m@,
            BridgeError::AlreadyInitialized(m) => m@,
        }
    }

    /// Surrenders the message, for the host exception's text.
    pub fn into_message(self) -> (m: String)
        ensures
            m@ == self.message(),
    {
        match self {
            BridgeError::NotFound(m) => m,
            BridgeError::Construction(m) => m,
            BridgeError::Marshal(m) => m,
            BridgeError::RuntimeEncode(m) => m,
            BridgeError::AlreadyInitialized(m) => m,
        }
    }
}

/// The error bridge: decide what an entry point hands the host runtime.
/// While an exception is already pending on the calling context, no second
/// one may be raised: the default value is returned and nothing is thrown.
/// Otherwise a failure becomes the message to throw, beside the default.
pub fn unwrap_or_throw<T>(exception_pending: bool, result: Result<T, BridgeError>, default: T) -> (out: (
    T,
    Option<String>,
))
    ensures
        exception_pending ==> out.0 == default && out.1 is None,
        !exception_pending ==> match result {
            Ok(v) => out.0 == v && out.1 is None,
            Err(e) => out.0 == default && (out.1 matches Some(m) && m@ == e.message()),
        },
{
    if exception_pending {
        (default, None)
    } else {
        match result {
            Ok(v) => (v, None),
            Err(e) => (default, Some(e.into_message())),
        }
    }
}

} // verus!
