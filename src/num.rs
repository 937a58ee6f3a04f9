use vstd::prelude::*;

use crate::error::Error;
use crate::sign::{lemma_pow256_monotone, pow256};

verus! {

/// A number of the scripting language.
#[derive(Debug, Clone, Copy, PartialEq, Eq, Structural)]
pub struct Num {
    pub value: i64,
}

impl View for Num {
    type V = int;

    open spec fn view(&self) -> int {
        self.value as int
    }
}

/// The unsigned integer that bytes hold, least significant byte first.
pub open spec fn le_value(s: Seq<u8>) -> nat
    decreases s.len(),
{
    if s.len() == 0 {
        0
    } else {
        le_value(s.drop_last()) + s.last() as nat * pow256((s.len() - 1) as nat)
    }
}

/// The number that bytes encode: the magnitude little-endian, with the sign in
/// the high bit of the last byte. No bytes encode zero.
pub open spec fn decode_num(s: Seq<u8>) -> int {
    if s.len() == 0 {
        0
    } else {
        let last = s.last();
        let magnitude = le_value(s.drop_last()) + (last % 0x80) as nat * pow256((s.len() - 1) as nat);
        if last >= 0x80 {
            -(magnitude as int)
        } else {
            magnitude as int
        }
    }
}

/// The encoding has no superfluous last byte: the last byte carries more than
/// the sign, or is needed to keep the sign bit of the byte before it clear.
pub open spec fn is_minimal_num(s: Seq<u8>) -> bool {
    s.len() == 0 || s.last() % 0x80 != 0 || (s.len() > 1 && s[s.len() - 2] >= 0x80)
}

/// The bytes of a magnitude, least significant first, with no zero byte at the end.
pub open spec fn magnitude_bytes(m: nat) -> Seq<u8>
    decreases m,
{
    if m == 0 {
        Seq::empty()
    } else {
        seq![(m % 256) as u8] + magnitude_bytes(m / 256)
    }
}

/// The minimal encoding of a number.
pub open spec fn encode_num(v: int) -> Seq<u8> {
    let m: nat = if v < 0 { (-v) as nat } else { v as nat };
    let b = magnitude_bytes(m);
    if b.len() == 0 {
        b
    } else if b.last() >= 0x80 {
        b.push(if v < 0 { 0x80u8 } else { 0u8 })
    } else if v < 0 {
        b.update(b.len() - 1, (b.last() + 0x80) as u8)
    } else {
        b
    }
}

proof fn lemma_le_value_prepend(x: u8, t: Seq<u8>)
    ensures
        le_value(seq![x] + t) == x as nat + 256 * le_value(t),
    decreases t.len(),
{
    let s = seq![x] + t;
    if t.len() == 0 {
        assert(s.drop_last() =~= Seq::<u8>::empty());
        assert(s.last() == x);
        assert(pow256(0) == 1);
        assert(le_value(s) == le_value(s.drop_last()) + x as nat * pow256(0));
        assert(le_value(s) == x as nat);
        assert(le_value(t) == 0);
    } else {
        assert(s.drop_last() =~= seq![x] + t.drop_last());
        assert(s.last() == t.last());
        lemma_le_value_prepend(x, t.drop_last());
        let p = pow256((t.len() - 1) as nat);
        assert(pow256(t.len() as nat) == 256 * p);
        let l = t.last() as nat;
        let a = le_value(t.drop_last());
        assert(le_value(s) == le_value(s.drop_last()) + l * pow256(t.len() as nat));
        assert(le_value(s.drop_last()) == x as nat + 256 * a);
        assert(le_value(t) == a + l * p);
        assert(256 * (a + l * p) == 256 * a + l * (256 * p)) by (nonlinear_arith);
        assert(le_value(s) == x as nat + 256 * le_value(t));
    }
}

proof fn lemma_magnitude_bytes(m: nat)
    ensures
        le_value(magnitude_bytes(m)) == m,
        m > 0 ==> magnitude_bytes(m).len() > 0 && magnitude_bytes(m).last() != 0,
    decreases m,
{
    if m > 0 {
        let rest = magnitude_bytes(m / 256);
        lemma_magnitude_bytes(m / 256);
        lemma_le_value_prepend((m % 256) as u8, rest);
        if m / 256 > 0 {
            assert((seq![(m % 256) as u8] + rest).last() == rest.last());
        }
    }
}

/// The minimal encoding of a number decodes to that number, and is minimal.
pub proof fn lemma_encode_decode_round_trip(v: int)
    ensures
        decode_num(encode_num(v)) == v,
        is_minimal_num(encode_num(v)),
{
    let m: nat = if v < 0 { (-v) as nat } else { v as nat };
    let b = magnitude_bytes(m);
    lemma_magnitude_bytes(m);
    let e = encode_num(v);
    if b.len() > 0 {
        let k = b.len();
        let p = pow256((k - 1) as nat);
        assert(le_value(b) == le_value(b.drop_last()) + b.last() as nat * p);
        if b.last() >= 0x80 {
            assert(e.drop_last() =~= b);
            assert(e.last() % 0x80 == 0);
            assert(decode_num(e) == (if v < 0 { -(m as int) } else { m as int }));
        } else if v < 0 {
            assert(e.drop_last() =~= b.drop_last());
            assert(e.last() == b.last() + 0x80);
            assert(e.last() % 0x80 == b.last());
            assert(decode_num(e) == -(m as int));
        } else {
            assert(e =~= b);
            assert(e.last() % 0x80 == b.last());
            assert(decode_num(e) == m as int);
        }
    }
}

impl Num {
    /// Reads a number from `data`. Fails where it is wider than `max_size`
    /// bytes, or, where `require_minimal` holds, not minimally encoded.
    pub fn from_slice(data: &[u8], require_minimal: bool, max_size: usize) -> (r: Result<Num, Error>)
        requires
            max_size <= 8,
        ensures
            r == (if data@.len() > max_size {
                Err(Error::NumberOverflow)
            } else if require_minimal && !is_minimal_num(data@) {
                Err(Error::NumberNotMinimallyEncoded)
            } else {
                Ok(Num { value: decode_num(data@) as i64 })
            }),
            r is Ok ==> r->Ok_0@ == decode_num(data@),
    {
        let n = data.len();
        if n > max_size {
            return Err(Error::NumberOverflow);
        }
        if n == 0 {
            return Ok(Num { value: 0 });
        }
        let last = data[n - 1];
        if require_minimal && last % 0x80 == 0 && (n <= 1 || data[n - 2] < 0x80) {
            return Err(Error::NumberNotMinimallyEncoded);
        }
        let ghost s = data@;
        let mut acc: u64 = 0;
        let mut p: u64 = 1;
        let mut i: usize = 0;
        while i < n - 1
            invariant
                n == s.len(),
                1 <= n <= 8,
                s == data@,
                i <= n - 1,
                acc == le_value(s.subrange(0, i as int)),
                p == pow256(i as nat),
                acc < p,
            decreases n - 1 - i,
        {
            proof {
                let t = s.subrange(0, i + 1);
                assert(t.drop_last() =~= s.subrange(0, i as int));
                lemma_pow256_monotone((i + 1) as nat, 7);
                reveal_with_fuel(pow256, 8);
                let v = s[i as int] as nat;
                assert(acc + v * p < 256 * p) by (nonlinear_arith)
                    requires
                        v <= 255,
                        acc < p,
                ;
            }
            acc = acc + data[i] as u64 * p;
            p = p * 256;
            i = i + 1;
        }
        proof {
            assert(s.subrange(0, (n - 1) as int) =~= s.drop_last());
            lemma_pow256_monotone((n - 1) as nat, 7);
            reveal_with_fuel(pow256, 8);
            let v = (last % 0x80) as nat;
            assert(acc + v * p < 0x80 * 72057594037927936) by (nonlinear_arith)
                requires
                    v <= 127,
                    acc < p,
                    p <= 72057594037927936,
            ;
        }
        let magnitude: u64 = acc + (last % 0x80) as u64 * p;
        if last >= 0x80 {
            Ok(Num { value: -(magnitude as i64) })
        } else {
            Ok(Num { value: magnitude as i64 })
        }
    }

    /// Whether the number is below zero.
    pub fn is_negative(&self) -> (r: bool)
        ensures
            r == (self@ < 0),
    {
        self.value < 0
    }

    /// The minimal encoding of the number.
    pub fn to_vec(&self) -> (r: Vec<u8>)
        ensures
            r@ == encode_num(self@),
    {
        let v = self.value;
        let m0: u64 = if v < 0 { (-(v + 1)) as u64 + 1 } else { v as u64 };
        let mut m: u64 = m0;
        let mut out: Vec<u8> = Vec::new();
        while m > 0
            invariant
                out@ + magnitude_bytes(m as nat) == magnitude_bytes(m0 as nat),
            decreases m,
        {
            let ghost rest = magnitude_bytes((m / 256) as nat);
            assert(out@ + magnitude_bytes(m as nat) =~= out@.push((m % 256) as u8) + rest);
            out.push((m % 256) as u8);
            m = m / 256;
        }
        assert(out@ =~= magnitude_bytes(m0 as nat));
        let n = out.len();
        if n == 0 {
            return out;
        }
        let last = out[n - 1];
        if last >= 0x80 {
            out.push(if v < 0 { 0x80 } else { 0 });
        } else if v < 0 {
            out.set(n - 1, last + 0x80);
        }
        out
    }
}

} // verus!
