//! Why an operation of the minter failed.

use vstd::prelude::*;

verus! {

/// The ways in which an operation can fail. A failed operation leaves the
/// state as it found it.
#[derive(Clone, Debug, PartialEq, Eq)]
pub enum ContractError {
    /// The host could not read or write the state, or could not encode a message.
    Std(String),
    /// An arithmetic operation left the range of its type.
    OverflowError(String),
    /// A number did not fit into the type it was converted to.
    ConversionOverflowError(String),
    /// The caller may not do this. No operation returns it at present.
    Unauthorized {},
    /// A reply carried an identifier that the minter never handed out.
    UnrecognizedReply {},
    /// Every identifier has been drawn; nothing is left to mint.
    PoolExhausted {},
    /// The reply to the creation of the child contract does not name its address.
    InvalidInstantiateReply {},
}

} // verus!
