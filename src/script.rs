use vstd::prelude::*;

use crate::error::Error;
use crate::num::{Num, le_value};
use crate::opcode::Opcode;
use crate::sign::{lemma_pow256_monotone, pow256};

verus! {

/// The largest number of bytes that a script may have.
pub const MAX_SCRIPT_SIZE: usize = 10000;

/// A script: an immutable sequence of bytes.
pub struct Script {
    data: Vec<u8>,
}

/// One parsed instruction.
pub enum Instruction {
    /// A small number that the opcode itself stands for.
    PushValue(Opcode, Num),
    /// Bytes that follow the opcode in the script.
    PushBytes(Opcode, Vec<u8>),
    /// Any other opcode.
    Normal(Opcode),
}

/// What an instruction stands for, over mathematical values.
pub enum InstructionView {
    PushValue(Opcode, int),
    PushBytes(Opcode, Seq<u8>),
    Normal(Opcode),
}

impl View for Script {
    type V = Seq<u8>;

    closed spec fn view(&self) -> Seq<u8> {
        self.data@
    }
}

impl View for Instruction {
    type V = InstructionView;

    open spec fn view(&self) -> InstructionView {
        match self {
            Instruction::PushValue(op, n) => InstructionView::PushValue(*op, n@),
            Instruction::PushBytes(op, b) => InstructionView::PushBytes(*op, b@),
            Instruction::Normal(op) => InstructionView::Normal(*op),
        }
    }
}

/// The push of the `n` bytes from `start` on, if the script holds them.
pub open spec fn push_range(script: Seq<u8>, op: Opcode, start: int, n: int) -> Result<
    (InstructionView, int),
    Error,
> {
    if start + n > script.len() {
        Err(Error::BadOpcode)
    } else {
        Ok((InstructionView::PushBytes(op, script.subrange(start, start + n)), start + n))
    }
}

/// The instruction that starts at `pos`, and the position after it. Opcodes up
/// to the 75-byte push take as many bytes as their value; the three PUSHDATA
/// opcodes read a 1, 2 or 4 byte little-endian length first; the negative-one and
/// small-integer opcodes stand for their number; a byte that names no opcode, or
/// a push that runs past the end, is an error.
pub open spec fn parse_instruction(script: Seq<u8>, pos: int) -> Result<(InstructionView, int), Error> {
    let b = script[pos];
    match Opcode::from_byte(b) {
        None => Err(Error::BadOpcode),
        Some(op) => {
            if b <= Opcode::OP_PUSHBYTES_75.byte() {
                push_range(script, op, pos + 1, b as int)
            } else if op == Opcode::OP_PUSHDATA1 || op == Opcode::OP_PUSHDATA2 || op
                == Opcode::OP_PUSHDATA4 {
                let w: int = if op == Opcode::OP_PUSHDATA1 {
                    1
                } else if op == Opcode::OP_PUSHDATA2 {
                    2
                } else {
                    4
                };
                if pos + 1 + w > script.len() {
                    Err(Error::BadOpcode)
                } else {
                    push_range(
                        script,
                        op,
                        pos + 1 + w,
                        le_value(script.subrange(pos + 1, pos + 1 + w)) as int,
                    )
                }
            } else if op == Opcode::OP_1NEGATE {
                Ok((InstructionView::PushValue(op, -1), pos + 1))
            } else if Opcode::OP_1.byte() <= b <= Opcode::OP_16.byte() {
                Ok((InstructionView::PushValue(op, b - Opcode::OP_1.byte() + 1), pos + 1))
            } else {
                Ok((InstructionView::Normal(op), pos + 1))
            }
        },
    }
}

/// The parse of a result, over mathematical values.
pub open spec fn parsed_view(r: Result<(Instruction, usize), Error>) -> Result<(InstructionView, int), Error> {
    match r {
        Ok((ins, next)) => Ok((ins@, next as int)),
        Err(e) => Err(e),
    }
}

impl Script {
    /// A script of the given bytes.
    pub fn new(data: Vec<u8>) -> (r: Script)
        ensures
            r@ == data@,
    {
        Script { data }
    }

    /// The number of bytes of the script.
    pub fn len(&self) -> (r: usize)
        ensures
            r == self@.len(),
    {
        self.data.len()
    }

    /// The bytes from `start` up to `end`.
    fn copy_range(&self, start: usize, end: usize) -> (r: Vec<u8>)
        requires
            start <= end <= self@.len(),
        ensures
            r@ == self@.subrange(start as int, end as int),
    {
        let mut out: Vec<u8> = Vec::new();
        let mut i: usize = start;
        while i < end
            invariant
                start <= i <= end,
                end <= self@.len(),
                out@ == self@.subrange(start as int, i as int),
            decreases end - i,
        {
            out.push(self.data[i]);
            i = i + 1;
            assert(out@ =~= self@.subrange(start as int, i as int));
        }
        out
    }

    /// The little-endian number held by the `w` bytes from `start` on.
    fn read_length(&self, start: usize, w: usize) -> (r: u64)
        requires
            w <= 4,
            start + w <= self@.len(),
        ensures
            r == le_value(self@.subrange(start as int, start + w)),
    {
        let ghost s = self@.subrange(start as int, start + w);
        let len = self.data.len();
        let mut acc: u64 = 0;
        let mut p: u64 = 1;
        let mut i: usize = 0;
        while i < w
            invariant
                w <= 4,
                start + w <= len,
                len == self@.len(),
                s == self@.subrange(start as int, start + w),
                i <= w,
                acc == le_value(s.subrange(0, i as int)),
                p == pow256(i as nat),
                acc < p,
            decreases w - i,
        {
            proof {
                assert(s.subrange(0, i + 1).drop_last() =~= s.subrange(0, i as int));
                lemma_pow256_monotone((i + 1) as nat, 4);
                reveal_with_fuel(pow256, 5);
                assert(256 * p == pow256((i + 1) as nat));
                let v = s[i as int] as nat;
                assert(acc + v * p < 256 * p) by (nonlinear_arith)
                    requires
                        v <= 255,
                        acc < p,
                ;
            }
            let x = self.data[start + i] as u64;
            assert(x == s[i as int]);
            assert(acc + x * p < 4294967296);
            acc = acc + x * p;
            p = p * 256;
            i = i + 1;
        }
        assert(s.subrange(0, w as int) =~= s);
        acc
    }

    /// The push of the `n` bytes from `start` on.
    fn take_push(&self, op: Opcode, start: usize, n: u64) -> (r: Result<(Instruction, usize), Error>)
        requires
            start <= self@.len(),
        ensures
            parsed_view(r) == push_range(self@, op, start as int, n as int),
    {
        if n > (self.data.len() - start) as u64 {
            return Err(Error::BadOpcode);
        }
        let end = start + n as usize;
        let bytes = self.copy_range(start, end);
        Ok((Instruction::PushBytes(op, bytes), end))
    }

    /// Parses the instruction that starts at `pos`, and gives the position after it.
    pub fn get_instruction(&self, pos: usize) -> (r: Result<(Instruction, usize), Error>)
        requires
            pos < self@.len(),
        ensures
            parsed_view(r) == parse_instruction(self@, pos as int),
            r matches Ok((_, next)) ==> pos < next <= self@.len(),
    {
        let len = self.data.len();
        let b = self.data[pos];
        let op = match Opcode::from_u8(b) {
            None => return Err(Error::BadOpcode),
            Some(op) => op,
        };
        if b <= Opcode::OP_PUSHBYTES_75.to_u8() {
            self.take_push(op, pos + 1, b as u64)
        } else if op == Opcode::OP_PUSHDATA1 || op == Opcode::OP_PUSHDATA2 || op
            == Opcode::OP_PUSHDATA4 {
            let w: usize = if op == Opcode::OP_PUSHDATA1 {
                1
            } else if op == Opcode::OP_PUSHDATA2 {
                2
            } else {
                4
            };
            if w > len - pos - 1 {
                return Err(Error::BadOpcode);
            }
            let n = self.read_length(pos + 1, w);
            self.take_push(op, pos + 1 + w, n)
        } else if op == Opcode::OP_1NEGATE {
            Ok((Instruction::PushValue(op, Num { value: -1 }), pos + 1))
        } else if Opcode::OP_1.to_u8() <= b && b <= Opcode::OP_16.to_u8() {
            let v = (b - Opcode::OP_1.to_u8() + 1) as i64;
            Ok((Instruction::PushValue(op, Num { value: v }), pos + 1))
        } else {
            Ok((Instruction::Normal(op), pos + 1))
        }
    }
}

} // verus!
