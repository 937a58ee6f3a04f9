//! An interpreter for a stack-based script language that states when a
//! transaction output may be spent, with the byte-level rules it enforces on
//! signatures, public keys, pushes and numbers.

use vstd::prelude::*;

pub mod error;
pub mod flags;
pub mod interpreter;
pub mod num;
pub mod opcode;
pub mod script;
pub mod sign;

pub use error::Error;
pub use flags::VerificationFlags;
pub use interpreter::{eval_script, NoopSignatureChecker, SignatureChecker};
pub use num::Num;
pub use opcode::Opcode;
pub use script::{Instruction, Script, MAX_SCRIPT_SIZE};
pub use sign::{
    check_minimal_push, check_pubkey_encoding, check_signature_encoding, is_defined_hashtype_signature,
    is_low_der_signature, is_public_key, is_valid_signature_encoding, SignatureHash, SignatureVersion,
};

verus! {

} // verus!
