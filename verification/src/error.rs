use vstd::prelude::*;

verus! {

/// Every failure the broker reports to a caller.
#[derive(Debug)]
pub enum SimmerError {
    /// The round trip to the registry task produced no response for this actor's
    /// channel: the registry is gone or the reply was dropped.
    GetChannel(String),
    /// The value stored under the requested identity does not carry the
    /// requested message type.
    DowncastError,
    /// Shutdown was already requested, so this request cannot succeed again.
    Shutdown,
    /// A generic channel was converted to the wrong concrete handle kind:
    /// the first name is what was asked for, the second what was found.
    WrongSide(&'static str, &'static str),
}

pub type SimmerResult<T> = Result<T, SimmerError>;

} // verus!
