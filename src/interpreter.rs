use vstd::prelude::*;

use crate::error::Error;
use crate::flags::VerificationFlags;
use crate::num::{Num, decode_num, encode_num, is_minimal_num};
use crate::opcode::Opcode;
use crate::script::{Instruction, InstructionView, MAX_SCRIPT_SIZE, Script, parse_instruction};
use crate::sign::{SignatureVersion, check_minimal_push, is_minimal_push_spec};

verus! {

/// What the interpreter asks of the transaction context: signatures, lock
/// times and sequences are accepted or refused by the checker.
pub trait SignatureChecker {
    /// Whether the checker accepts the signature for the key, script and digest version.
    spec fn accepts_signature(
        &self,
        script_signature: Seq<u8>,
        public: Seq<u8>,
        script: Seq<u8>,
        version: SignatureVersion,
    ) -> bool;

    /// Whether the checker accepts the lock time.
    spec fn accepts_lock_time(&self, lock_time: int) -> bool;

    /// Whether the checker accepts the sequence.
    spec fn accepts_sequence(&self, sequence: int) -> bool;

    fn check_signature(
        &self,
        script_signature: &[u8],
        public: &[u8],
        script: &Script,
        version: SignatureVersion,
    ) -> (r: bool)
        ensures
            r == self.accepts_signature(script_signature@, public@, script@, version),
    ;

    fn check_lock_time(&self, lock_time: Num) -> (r: bool)
        ensures
            r == self.accepts_lock_time(lock_time@),
    ;

    fn check_sequence(&self, sequence: Num) -> (r: bool)
        ensures
            r == self.accepts_sequence(sequence@),
    ;
}

/// A checker for use without a transaction: it refuses every request.
pub struct NoopSignatureChecker;

impl SignatureChecker for NoopSignatureChecker {
    open spec fn accepts_signature(
        &self,
        script_signature: Seq<u8>,
        public: Seq<u8>,
        script: Seq<u8>,
        version: SignatureVersion,
    ) -> bool {
        false
    }

    open spec fn accepts_lock_time(&self, lock_time: int) -> bool {
        false
    }

    open spec fn accepts_sequence(&self, sequence: int) -> bool {
        false
    }

    fn check_signature(
        &self,
        script_signature: &[u8],
        public: &[u8],
        script: &Script,
        version: SignatureVersion,
    ) -> (r: bool) {
        false
    }

    fn check_lock_time(&self, lock_time: Num) -> (r: bool) {
        false
    }

    fn check_sequence(&self, sequence: Num) -> (r: bool) {
        false
    }
}

/// The stack as a sequence of byte strings, bottom first.
pub open spec fn stack_view(v: Seq<Vec<u8>>) -> Seq<Seq<u8>> {
    v.map_values(|x: Vec<u8>| x@)
}

/// Every byte is zero; the empty string counts as all zero.
pub open spec fn all_zero(b: Seq<u8>) -> bool {
    forall|i: int| 0 <= i < b.len() ==> b[i] == 0
}

/// A final stack accepts when it is not empty and its top item is not all zero bytes.
pub open spec fn stack_accepts(stack: Seq<Seq<u8>>) -> bool {
    stack.len() > 0 && !all_zero(stack.last())
}

/// The reserved no-op opcodes kept for later upgrades.
pub open spec fn is_upgradable_nop(op: Opcode) -> bool {
    op == Opcode::OP_NOP1 || op == Opcode::OP_NOP4 || op == Opcode::OP_NOP5 || op == Opcode::OP_NOP6
        || op == Opcode::OP_NOP7 || op == Opcode::OP_NOP8 || op == Opcode::OP_NOP9 || op
        == Opcode::OP_NOP10
}

/// The outcome of the lock-time-verify opcode; it leaves the stack as it is.
pub open spec fn lock_time_outcome<C: SignatureChecker>(
    stack: Seq<Seq<u8>>,
    flags: VerificationFlags,
    checker: C,
) -> Result<(), Error> {
    if !flags.verify_clocktimeverify {
        if flags.verify_discourage_upgradable_nops {
            Err(Error::DiscourageUpgradableNops)
        } else {
            Ok(())
        }
    } else if stack.len() == 0 {
        Err(Error::InvalidStackOperation)
    } else {
        let top = stack.last();
        if top.len() > 5 {
            Err(Error::NumberOverflow)
        } else if flags.verify_minimaldata && !is_minimal_num(top) {
            Err(Error::NumberNotMinimallyEncoded)
        } else if decode_num(top) < 0 {
            Err(Error::NegativeLocktime)
        } else if !checker.accepts_lock_time(decode_num(top)) {
            Err(Error::UnsatisfiedLocktime)
        } else {
            Ok(())
        }
    }
}

/// The stack after an opcode that is not a push, and its outcome.
pub open spec fn opcode_step<C: SignatureChecker>(
    stack: Seq<Seq<u8>>,
    op: Opcode,
    flags: VerificationFlags,
    checker: C,
) -> (Seq<Seq<u8>>, Result<(), Error>) {
    if op == Opcode::OP_CHECKLOCKTIMEVERIFY {
        (stack, lock_time_outcome(stack, flags, checker))
    } else if is_upgradable_nop(op) {
        (stack, if flags.verify_discourage_upgradable_nops {
            Err(Error::DiscourageUpgradableNops)
        } else {
            Ok(())
        })
    } else if op == Opcode::OP_RETURN {
        (stack, Err(Error::ReturnOpcode))
    } else if op == Opcode::OP_EQUAL || op == Opcode::OP_EQUALVERIFY {
        if stack.len() < 2 {
            (stack, Err(Error::InvalidStackOperation))
        } else {
            let equal = stack.last() == stack[stack.len() - 2];
            let rest = stack.subrange(0, stack.len() - 2);
            if op == Opcode::OP_EQUAL {
                (rest.push(if equal { seq![1u8] } else { seq![0u8] }), Ok(()))
            } else {
                (rest, if equal { Ok(()) } else { Err(Error::EqualVerify) })
            }
        }
    } else {
        (stack, Ok(()))
    }
}

/// The stack after one instruction, and its outcome.
pub open spec fn instruction_step<C: SignatureChecker>(
    stack: Seq<Seq<u8>>,
    ins: InstructionView,
    flags: VerificationFlags,
    checker: C,
) -> (Seq<Seq<u8>>, Result<(), Error>) {
    match ins {
        InstructionView::PushValue(_, v) => (stack.push(encode_num(v)), Ok(())),
        InstructionView::PushBytes(op, b) => {
            if flags.verify_minimaldata && !is_minimal_push_spec(b, op) {
                (stack, Err(Error::Minimaldata))
            } else {
                (stack.push(b), Ok(()))
            }
        },
        InstructionView::Normal(op) => opcode_step(stack, op, flags, checker),
    }
}

/// The stack after running the script from `pos` on, and the outcome: the first
/// error, of parsing or of an instruction, ends the run.
pub open spec fn run_from<C: SignatureChecker>(
    stack: Seq<Seq<u8>>,
    script: Seq<u8>,
    pos: int,
    flags: VerificationFlags,
    checker: C,
) -> (Seq<Seq<u8>>, Result<(), Error>)
    decreases script.len() - pos,
{
    if pos < 0 || pos >= script.len() {
        (stack, Ok(()))
    } else {
        match parse_instruction(script, pos) {
            Err(e) => (stack, Err(e)),
            Ok((ins, next)) => {
                let (after, outcome) = instruction_step(stack, ins, flags, checker);
                if outcome is Err {
                    (after, outcome)
                } else {
                    run_from(after, script, next, flags, checker)
                }
            },
        }
    }
}

/// The stack after evaluating a script, and the verdict or the error.
pub open spec fn evaluation<C: SignatureChecker>(
    stack: Seq<Seq<u8>>,
    script: Seq<u8>,
    flags: VerificationFlags,
    checker: C,
) -> (Seq<Seq<u8>>, Result<bool, Error>) {
    if script.len() > MAX_SCRIPT_SIZE {
        (stack, Err(Error::ScriptSize))
    } else {
        let (after, outcome) = run_from(stack, script, 0, flags, checker);
        (after, match outcome {
            Ok(_) => Ok(stack_accepts(after)),
            Err(e) => Err(e),
        })
    }
}

fn bytes_equal(a: &Vec<u8>, b: &Vec<u8>) -> (r: bool)
    ensures
        r == (a@ == b@),
{
    if a.len() != b.len() {
        return false;
    }
    let mut i: usize = 0;
    while i < a.len()
        invariant
            a@.len() == b@.len(),
            i <= a@.len(),
            a@.subrange(0, i as int) == b@.subrange(0, i as int),
        decreases a@.len() - i,
    {
        if a[i] != b[i] {
            assert(a@[i as int] != b@[i as int]);
            return false;
        }
        i = i + 1;
        assert(a@.subrange(0, i as int) =~= b@.subrange(0, i as int));
    }
    assert(a@ =~= a@.subrange(0, i as int));
    assert(b@ =~= b@.subrange(0, i as int));
    true
}

fn is_all_zero(b: &Vec<u8>) -> (r: bool)
    ensures
        r == all_zero(b@),
{
    let mut i: usize = 0;
    while i < b.len()
        invariant
            i <= b@.len(),
            forall|j: int| 0 <= j < i ==> b@[j] == 0,
        decreases b@.len() - i,
    {
        if b[i] != 0 {
            return false;
        }
        i = i + 1;
    }
    true
}

fn push_item(stack: &mut Vec<Vec<u8>>, item: Vec<u8>)
    ensures
        final(stack)@.len() == old(stack)@.len() + 1,
        stack_view(final(stack)@) == stack_view(old(stack)@).push(item@),
{
    let ghost before = stack@;
    stack.push(item);
    assert(stack_view(stack@) =~= stack_view(before).push(item@));
}

fn pop_item(stack: &mut Vec<Vec<u8>>) -> (r: Vec<u8>)
    requires
        old(stack)@.len() > 0,
    ensures
        final(stack)@.len() == old(stack)@.len() - 1,
        stack_view(final(stack)@) == stack_view(old(stack)@).drop_last(),
        r@ == stack_view(old(stack)@).last(),
{
    let ghost before = stack@;
    let r = stack.pop().unwrap();
    assert(stack_view(stack@) =~= stack_view(before).drop_last());
    r
}

/// Runs the lock-time-verify opcode.
fn check_lock_time_verify<C: SignatureChecker>(
    stack: &Vec<Vec<u8>>,
    flags: &VerificationFlags,
    checker: &C,
) -> (r: Result<(), Error>)
    ensures
        r == lock_time_outcome(stack_view(stack@), *flags, *checker),
{
    if !flags.verify_clocktimeverify {
        if flags.verify_discourage_upgradable_nops {
            return Err(Error::DiscourageUpgradableNops);
        }
        return Ok(());
    }
    let n = stack.len();
    if n == 0 {
        return Err(Error::InvalidStackOperation);
    }
    let lock_time = match Num::from_slice(stack[n - 1].as_slice(), flags.verify_minimaldata, 5) {
        Ok(v) => v,
        Err(e) => return Err(e),
    };
    if lock_time.is_negative() {
        return Err(Error::NegativeLocktime);
    }
    if !checker.check_lock_time(lock_time) {
        return Err(Error::UnsatisfiedLocktime);
    }
    Ok(())
}

/// Runs an opcode that is not a push.
fn execute_opcode<C: SignatureChecker>(
    stack: &mut Vec<Vec<u8>>,
    op: Opcode,
    flags: &VerificationFlags,
    checker: &C,
) -> (r: Result<(), Error>)
    ensures
        (stack_view(final(stack)@), r) == opcode_step(stack_view(old(stack)@), op, *flags, *checker),
{
    if op == Opcode::OP_CHECKLOCKTIMEVERIFY {
        check_lock_time_verify(stack, flags, checker)
    } else if op == Opcode::OP_NOP1 || op == Opcode::OP_NOP4 || op == Opcode::OP_NOP5 || op
        == Opcode::OP_NOP6 || op == Opcode::OP_NOP7 || op == Opcode::OP_NOP8 || op
        == Opcode::OP_NOP9 || op == Opcode::OP_NOP10 {
        if flags.verify_discourage_upgradable_nops {
            Err(Error::DiscourageUpgradableNops)
        } else {
            Ok(())
        }
    } else if op == Opcode::OP_RETURN {
        Err(Error::ReturnOpcode)
    } else if op == Opcode::OP_EQUAL || op == Opcode::OP_EQUALVERIFY {
        if stack.len() < 2 {
            return Err(Error::InvalidStackOperation);
        }
        let ghost before = stack_view(stack@);
        let a = pop_item(stack);
        let b = pop_item(stack);
        assert(stack_view(stack@) =~= before.subrange(0, before.len() - 2));
        let equal = bytes_equal(&a, &b);
        if op == Opcode::OP_EQUAL {
            let item = if equal { vec![1u8] } else { vec![0u8] };
            assert(item@ == (if equal { seq![1u8] } else { seq![0u8] }));
            push_item(stack, item);
            Ok(())
        } else if equal {
            Ok(())
        } else {
            Err(Error::EqualVerify)
        }
    } else {
        Ok(())
    }
}

/// Runs one instruction.
fn execute_instruction<C: SignatureChecker>(
    stack: &mut Vec<Vec<u8>>,
    ins: Instruction,
    flags: &VerificationFlags,
    checker: &C,
) -> (r: Result<(), Error>)
    ensures
        (stack_view(final(stack)@), r) == instruction_step(stack_view(old(stack)@), ins@, *flags, *checker),
{
    match ins {
        Instruction::PushValue(_, n) => {
            push_item(stack, n.to_vec());
            Ok(())
        },
        Instruction::PushBytes(op, bytes) => {
            if flags.verify_minimaldata && !check_minimal_push(bytes.as_slice(), op) {
                return Err(Error::Minimaldata);
            }
            push_item(stack, bytes);
            Ok(())
        },
        Instruction::Normal(op) => execute_opcode(stack, op, flags, checker),
    }
}

/// Evaluates `script` on `stack`. Fails with the first rule broken; otherwise
/// tells whether the final stack accepts: it is not empty and its top item is
/// not all zero bytes. A script over the size limit fails before any instruction
/// runs, with the stack untouched. The signature version selects the digest
/// for signature opcodes, none of which this dispatch runs yet.
pub fn eval_script<C: SignatureChecker>(
    stack: &mut Vec<Vec<u8>>,
    script: &Script,
    flags: &VerificationFlags,
    checker: &C,
    _version: SignatureVersion,
) -> (r: Result<bool, Error>)
    ensures
        (stack_view(final(stack)@), r) == evaluation(stack_view(old(stack)@), script@, *flags, *checker),
{
    let len = script.len();
    if len > MAX_SCRIPT_SIZE {
        return Err(Error::ScriptSize);
    }
    let ghost start = stack_view(stack@);
    let mut pos: usize = 0;
    while pos < len
        invariant
            len == script@.len(),
            len <= MAX_SCRIPT_SIZE,
            start == stack_view(old(stack)@),
            pos <= len,
            run_from(start, script@, 0, *flags, *checker) == run_from(
                stack_view(stack@),
                script@,
                pos as int,
                *flags,
                *checker,
            ),
        decreases len - pos,
    {
        let (ins, next) = match script.get_instruction(pos) {
            Ok(parsed) => parsed,
            Err(e) => return Err(e),
        };
        match execute_instruction(stack, ins, flags, checker) {
            Ok(()) => {},
            Err(e) => return Err(e),
        }
        pos = next;
    }
    let n = stack.len();
    if n == 0 {
        return Ok(false);
    }
    assert(stack_view(stack@).last() == stack@[n - 1]@);
    Ok(!is_all_zero(&stack[n - 1]))
}

/// The script made of the one byte of `op`.
pub open spec fn single_opcode_script(op: Opcode) -> Seq<u8> {
    seq![op.byte()]
}

proof fn lemma_single_opcode_run<C: SignatureChecker>(
    stack: Seq<Seq<u8>>,
    op: Opcode,
    flags: VerificationFlags,
    checker: C,
)
    requires
        op.byte() > Opcode::OP_16.byte(),
    ensures
        run_from(stack, single_opcode_script(op), 0, flags, checker) == opcode_step(
            stack,
            op,
            flags,
            checker,
        ),
{
    let script = single_opcode_script(op);
    assert(Opcode::from_byte(op.byte()) == Some(op));
    assert(parse_instruction(script, 0) == Ok::<(InstructionView, int), Error>(
        (InstructionView::Normal(op), 1),
    ));
    reveal_with_fuel(run_from, 2);
}

/// Two equal items through the equality opcode leave `1` on top, so the script
/// accepts; two different items leave `0`, so it refuses. Either way the two
/// items are gone.
pub proof fn lemma_equal_pushes_comparison<C: SignatureChecker>(
    stack: Seq<Seq<u8>>,
    a: Seq<u8>,
    b: Seq<u8>,
    flags: VerificationFlags,
    checker: C,
)
    ensures
        evaluation(stack.push(a).push(b), single_opcode_script(Opcode::OP_EQUAL), flags, checker)
            == (stack.push(if a == b { seq![1u8] } else { seq![0u8] }), Ok::<bool, Error>(a == b)),
{
    let s = stack.push(a).push(b);
    lemma_single_opcode_run(s, Opcode::OP_EQUAL, flags, checker);
    assert(s.subrange(0, s.len() - 2) =~= stack);
    let top = if a == b { seq![1u8] } else { seq![0u8] };
    if a != b {
        assert(all_zero(top));
    } else {
        assert(top[0] != 0);
    }
}

/// The equality and equality-verify opcodes on fewer than two items fail with a
/// stack error and leave the stack as it was.
pub proof fn lemma_equal_underflow<C: SignatureChecker>(
    stack: Seq<Seq<u8>>,
    op: Opcode,
    flags: VerificationFlags,
    checker: C,
)
    requires
        stack.len() < 2,
        op == Opcode::OP_EQUAL || op == Opcode::OP_EQUALVERIFY,
    ensures
        evaluation(stack, single_opcode_script(op), flags, checker) == (
            stack,
            Err::<bool, Error>(Error::InvalidStackOperation),
        ),
{
    lemma_single_opcode_run(stack, op, flags, checker);
}

/// The equality-verify opcode on two different items fails, and the two items
/// are popped all the same.
pub proof fn lemma_equalverify_mismatch<C: SignatureChecker>(
    stack: Seq<Seq<u8>>,
    a: Seq<u8>,
    b: Seq<u8>,
    flags: VerificationFlags,
    checker: C,
)
    requires
        a != b,
    ensures
        evaluation(stack.push(a).push(b), single_opcode_script(Opcode::OP_EQUALVERIFY), flags, checker)
            == (stack, Err::<bool, Error>(Error::EqualVerify)),
{
    let s = stack.push(a).push(b);
    lemma_single_opcode_run(s, Opcode::OP_EQUALVERIFY, flags, checker);
    assert(s.subrange(0, s.len() - 2) =~= stack);
}

/// The unconditional-fail opcode fails on every stack, the empty one included,
/// under every set of flags.
pub proof fn lemma_return_always_fails<C: SignatureChecker>(
    stack: Seq<Seq<u8>>,
    flags: VerificationFlags,
    checker: C,
)
    ensures
        evaluation(stack, single_opcode_script(Opcode::OP_RETURN), flags, checker) == (
            stack,
            Err::<bool, Error>(Error::ReturnOpcode),
        ),
{
    lemma_single_opcode_run(stack, Opcode::OP_RETURN, flags, checker);
}

/// With the lock-time rule off and reserved no-ops not discouraged, the
/// lock-time-verify opcode changes nothing and raises no error.
pub proof fn lemma_lock_time_inactive_is_noop<C: SignatureChecker>(
    stack: Seq<Seq<u8>>,
    flags: VerificationFlags,
    checker: C,
)
    requires
        !flags.verify_clocktimeverify,
        !flags.verify_discourage_upgradable_nops,
    ensures
        evaluation(stack, single_opcode_script(Opcode::OP_CHECKLOCKTIMEVERIFY), flags, checker)
            == (stack, Ok::<bool, Error>(stack_accepts(stack))),
{
    lemma_single_opcode_run(stack, Opcode::OP_CHECKLOCKTIMEVERIFY, flags, checker);
}

/// A script over the size limit fails with the size error, and the stack is untouched.
pub proof fn lemma_oversized_script_fails<C: SignatureChecker>(
    stack: Seq<Seq<u8>>,
    script: Seq<u8>,
    flags: VerificationFlags,
    checker: C,
)
    requires
        script.len() > MAX_SCRIPT_SIZE,
    ensures
        evaluation(stack, script, flags, checker) == (stack, Err::<bool, Error>(Error::ScriptSize)),
{
}

} // verus!
