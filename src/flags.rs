use vstd::prelude::*;

verus! {

/// Independently toggleable consensus rules, one rule per field.
#[derive(Debug, Clone, Copy, PartialEq, Eq, Structural)]
pub struct VerificationFlags {
    /// Evaluate pay-to-script-hash outputs.
    pub verify_p2sh: bool,
    /// Signatures and public keys must be strictly encoded.
    pub verify_strictenc: bool,
    /// Signatures must be strict DER.
    pub verify_dersig: bool,
    /// Signatures must have an S value in the lower half of the curve order.
    pub verify_low_s: bool,
    /// Pushes must use the shortest opcode, numbers the shortest encoding.
    pub verify_minimaldata: bool,
    /// Reserved no-op opcodes are an error.
    pub verify_discourage_upgradable_nops: bool,
    /// The lock-time-verify opcode is active.
    pub verify_clocktimeverify: bool,
    /// The sequence-verify opcode is active.
    pub verify_checksequenceverify: bool,
}

impl VerificationFlags {
    /// Every rule switched off.
    pub open spec fn none() -> VerificationFlags {
        VerificationFlags {
            verify_p2sh: false,
            verify_strictenc: false,
            verify_dersig: false,
            verify_low_s: false,
            verify_minimaldata: false,
            verify_discourage_upgradable_nops: false,
            verify_clocktimeverify: false,
            verify_checksequenceverify: false,
        }
    }
}

impl Default for VerificationFlags {
    fn default() -> (r: VerificationFlags)
        ensures
            r == VerificationFlags::none(),
    {
        VerificationFlags {
            verify_p2sh: false,
            verify_strictenc: false,
            verify_dersig: false,
            verify_low_s: false,
            verify_minimaldata: false,
            verify_discourage_upgradable_nops: false,
            verify_clocktimeverify: false,
            verify_checksequenceverify: false,
        }
    }
}

} // verus!
