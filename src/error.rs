use vstd::prelude::*;

verus! {

/// The rule that an evaluation broke. Carries no payload: the same violation
/// always gives the same value.
#[derive(Debug, Clone, Copy, PartialEq, Eq, Structural)]
pub enum Error {
    /// The script is longer than the largest size allowed.
    ScriptSize,
    /// A byte names no opcode, or a push runs past the end of the script.
    BadOpcode,
    /// An opcode needs more stack items than there are.
    InvalidStackOperation,
    /// The unconditional-fail opcode was executed.
    ReturnOpcode,
    /// The equality-verify opcode found two different items.
    EqualVerify,
    /// A number is wider than the width allowed where it is read.
    NumberOverflow,
    /// A number carries a superfluous leading zero byte.
    NumberNotMinimallyEncoded,
    /// A time lock is negative.
    NegativeLocktime,
    /// The checker refused the time lock.
    UnsatisfiedLocktime,
    /// A reserved no-op opcode was used while it is discouraged.
    DiscourageUpgradableNops,
    /// A push did not use the shortest opcode for its data.
    Minimaldata,
    /// A signature is not in the strict DER form.
    SignatureDer,
    /// A signature's S value is in the upper half of the curve order.
    SignatureHighS,
    /// A signature's hash type is not defined.
    SignatureHashtype,
    /// A public key has neither the compressed nor the uncompressed form.
    PubkeyType,
}

} // verus!
