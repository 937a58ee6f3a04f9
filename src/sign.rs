use vstd::prelude::*;

use crate::error::Error;
use crate::flags::VerificationFlags;
use crate::opcode::Opcode;

verus! {

/// The hash-type tags that a signature carries in its last byte.
#[derive(Debug, Clone, Copy, PartialEq, Eq, Structural)]
pub enum SignatureHash {
    /// Signs every output.
    All,
    /// Signs none of the outputs.
    NoOutputs,
    /// Signs the output of the same index as the input.
    Single,
    /// A bit that, added to a tag, signs this input alone.
    AnyoneCanPay,
}

impl SignatureHash {
    /// The byte value of the tag.
    pub open spec fn byte(self) -> u8 {
        match self {
            SignatureHash::All => 1,
            SignatureHash::NoOutputs => 2,
            SignatureHash::Single => 3,
            SignatureHash::AnyoneCanPay => 0x80,
        }
    }

    /// The byte value of the tag.
    pub fn to_u8(self) -> (r: u8)
        ensures
            r == self.byte(),
    {
        match self {
            SignatureHash::All => 1,
            SignatureHash::NoOutputs => 2,
            SignatureHash::Single => 3,
            SignatureHash::AnyoneCanPay => 0x80,
        }
    }
}

/// Which transaction-digest algorithm a signature was produced against.
#[derive(Debug, Clone, Copy, PartialEq, Eq, Structural)]
pub enum SignatureVersion {
    /// The digest of the whole script.
    Base,
    /// The digest of segregated-witness version 0.
    WitnessV0,
}

/// A public key is either compressed (33 bytes, prefix 0x02 or 0x03)
/// or uncompressed (65 bytes, prefix 0x04).
pub open spec fn is_public_key_spec(v: Seq<u8>) -> bool {
    (v.len() == 33 && (v[0] == 2u8 || v[0] == 3u8)) || (v.len() == 65 && v[0] == 4u8)
}

/// Tells whether `v` has the shape of a public key.
pub fn is_public_key(v: &[u8]) -> (r: bool)
    ensures
        r == is_public_key_spec(v@),
{
    if v.len() == 33 {
        v[0] == 2 || v[0] == 3
    } else if v.len() == 65 {
        v[0] == 4
    } else {
        false
    }
}

/// The strict DER form of a signature followed by its hash-type byte:
/// `0x30 total 0x02 lenR R 0x02 lenS S hashtype`, where `total` counts all but
/// the first two bytes and the hash type, R and S are non-empty, not negative
/// and carry no leading zero byte that the next byte's high bit does not need.
pub open spec fn is_valid_signature_encoding_spec(sig: Seq<u8>) -> bool {
    let n = sig.len();
    let len_r = sig[3] as int;
    let len_s = sig[len_r + 5] as int;
    &&& 9 <= n <= 73
    &&& sig[0] == 0x30u8
    &&& sig[1] as int == n - 3
    &&& len_r + 5 < n
    &&& len_r + len_s + 7 == n
    &&& sig[2] == 2u8
    &&& len_r != 0
    &&& sig[4] < 0x80u8
    &&& !(len_r > 1 && sig[4] == 0u8 && sig[5] < 0x80u8)
    &&& sig[len_r + 4] == 2u8
    &&& len_s != 0
    &&& sig[len_r + 6] < 0x80u8
    &&& !(len_s > 1 && sig[len_r + 6] == 0u8 && sig[len_r + 7] < 0x80u8)
}

/// Tells whether `sig` is a signature in strict DER form followed by a hash-type byte.
pub fn is_valid_signature_encoding(sig: &[u8]) -> (r: bool)
    ensures
        r == is_valid_signature_encoding_spec(sig@),
        sig@.len() < 9 || sig@.len() > 73 ==> !r,
{
    let n = sig.len();
    if n < 9 || n > 73 {
        return false;
    }
    if sig[0] != 0x30 {
        return false;
    }
    if sig[1] as usize != n - 3 {
        return false;
    }
    let len_r = sig[3] as usize;
    if len_r + 5 >= n {
        return false;
    }
    let len_s = sig[len_r + 5] as usize;
    if len_r + len_s + 7 != n {
        return false;
    }
    if sig[2] != 2 {
        return false;
    }
    if len_r == 0 {
        return false;
    }
    if sig[4] >= 0x80 {
        return false;
    }
    if len_r > 1 && sig[4] == 0 && sig[5] < 0x80 {
        return false;
    }
    if sig[len_r + 4] != 2 {
        return false;
    }
    if len_s == 0 {
        return false;
    }
    if sig[len_r + 6] >= 0x80 {
        return false;
    }
    if len_s > 1 && sig[len_r + 6] == 0 && sig[len_r + 7] < 0x80 {
        return false;
    }
    true
}

/// The positions of a signature that hold a tag or a length other than R's:
/// the compound tag, the total length, the two integer tags and S's length.
pub open spec fn is_checked_header_position(sig: Seq<u8>, i: int) -> bool {
    i == 0 || i == 1 || i == 2 || i == sig[3] + 4 || i == sig[3] + 5
}

/// The positions of the first bytes of R and of S, whose high bit is the sign.
pub open spec fn is_sign_position(sig: Seq<u8>, i: int) -> bool {
    i == 4 || i == sig[3] + 6
}

/// In a valid signature, changing a tag, the total length or S's length to any
/// other value, or setting the sign bit of R or of S, leaves an invalid signature.
pub proof fn lemma_structural_mutation_invalidates(sig: Seq<u8>, i: int, b: u8)
    requires
        is_valid_signature_encoding_spec(sig),
        (is_checked_header_position(sig, i) && b != sig[i])
            || (is_sign_position(sig, i) && b == sig[i] + 0x80),
    ensures
        !is_valid_signature_encoding_spec(sig.update(i, b)),
{
}

/// 256 to the power `n`.
pub open spec fn pow256(n: nat) -> nat
    decreases n,
{
    if n == 0 {
        1
    } else {
        256 * pow256((n - 1) as nat)
    }
}

/// The unsigned integer that bytes hold, most significant byte first.
pub open spec fn be_value(s: Seq<u8>) -> nat
    decreases s.len(),
{
    if s.len() == 0 {
        0
    } else {
        s[0] as nat * pow256((s.len() - 1) as nat) + be_value(s.subrange(1, s.len() as int))
    }
}

/// Half the order of the signature curve, rounded down, most significant byte first.
pub open spec fn half_curve_order() -> Seq<u8> {
    seq![0x7f, 0xff, 0xff, 0xff, 0xff, 0xff, 0xff, 0xff, 0xff, 0xff, 0xff, 0xff, 0xff, 0xff, 0xff, 0xff, 0x5d, 0x57, 0x6e, 0x73, 0x57, 0xa4, 0x50, 0x1d, 0xdf, 0xe9, 0x2f, 0x46, 0x68, 0x1b, 0x20, 0xa0]
}

/// The bytes of a valid signature that hold S.
pub open spec fn s_value_bytes(sig: Seq<u8>) -> Seq<u8> {
    let len_r = sig[3] as int;
    sig.subrange(len_r + 6, len_r + 6 + sig[len_r + 5] as int)
}

/// The S value of the signature is at most half the curve order.
pub open spec fn is_low_s_spec(sig: Seq<u8>) -> bool {
    be_value(s_value_bytes(sig)) <= be_value(half_curve_order())
}

proof fn lemma_pow256_positive(n: nat)
    ensures
        pow256(n) >= 1,
    decreases n,
{
    if n > 0 {
        lemma_pow256_positive((n - 1) as nat);
    }
}

pub proof fn lemma_pow256_monotone(a: nat, b: nat)
    requires
        a <= b,
    ensures
        pow256(a) <= pow256(b),
    decreases b,
{
    if a < b {
        lemma_pow256_monotone(a, (b - 1) as nat);
        lemma_pow256_positive((b - 1) as nat);
    }
}

proof fn lemma_be_value_bound(s: Seq<u8>)
    ensures
        be_value(s) < pow256(s.len()),
    decreases s.len(),
{
    if s.len() > 0 {
        let t = s.subrange(1, s.len() as int);
        lemma_be_value_bound(t);
        let p = pow256(t.len());
        let v = s[0] as nat;
        assert(v * p + be_value(t) < 256 * p) by (nonlinear_arith)
            requires
                v <= 255,
                be_value(t) < p,
        ;
    }
}

/// Of two byte strings of one length that agree before index `j` and differ
/// there, the one with the smaller byte at `j` holds the smaller integer.
proof fn lemma_be_value_lexicographic(a: Seq<u8>, b: Seq<u8>, j: int)
    requires
        a.len() == b.len(),
        0 <= j < a.len(),
        a.subrange(0, j) == b.subrange(0, j),
        a[j] < b[j],
    ensures
        be_value(a) < be_value(b),
    decreases j,
{
    let ta = a.subrange(1, a.len() as int);
    let tb = b.subrange(1, b.len() as int);
    let p = pow256(ta.len());
    if j == 0 {
        lemma_be_value_bound(ta);
        let x = a[0] as nat;
        let y = b[0] as nat;
        assert(x * p + be_value(ta) < y * p + be_value(tb)) by (nonlinear_arith)
            requires
                x < y,
                be_value(ta) < p,
        ;
    } else {
        assert(a[0] == a.subrange(0, j)[0]);
        assert(b[0] == b.subrange(0, j)[0]);
        assert(ta.subrange(0, j - 1) =~= a.subrange(0, j).subrange(1, j));
        assert(tb.subrange(0, j - 1) =~= b.subrange(0, j).subrange(1, j));
        lemma_be_value_lexicographic(ta, tb, j - 1);
    }
}

/// Tells whether a valid signature's S value is at most half the curve order.
fn is_low_s(sig: &[u8]) -> (r: bool)
    requires
        is_valid_signature_encoding_spec(sig@),
    ensures
        r == is_low_s_spec(sig@),
{
    let half: Vec<u8> = vec![0x7f, 0xff, 0xff, 0xff, 0xff, 0xff, 0xff, 0xff, 0xff, 0xff, 0xff, 0xff, 0xff, 0xff, 0xff, 0xff, 0x5d, 0x57, 0x6e, 0x73, 0x57, 0xa4, 0x50, 0x1d, 0xdf, 0xe9, 0x2f, 0x46, 0x68, 0x1b, 0x20, 0xa0];
    assert(half@ =~= half_curve_order());
    let len_r = sig[3] as usize;
    let start = len_r + 6;
    let end = start + sig[len_r + 5] as usize;
    let ghost whole = sig@.subrange(start as int, end as int);
    assert(whole == s_value_bytes(sig@));
    let mut k: usize = start;
    while k < end && sig[k] == 0
        invariant
            start <= k <= end,
            end <= sig@.len(),
            be_value(sig@.subrange(k as int, end as int)) == be_value(whole),
        decreases end - k,
    {
        let ghost cur = sig@.subrange(k as int, end as int);
        assert(cur[0] == 0);
        assert(cur.subrange(1, cur.len() as int) =~= sig@.subrange(k + 1, end as int));
        assert(be_value(cur) == be_value(sig@.subrange(k + 1, end as int)));
        k = k + 1;
    }
    let ghost t = sig@.subrange(k as int, end as int);
    let ghost h = half_curve_order();
    proof {
        lemma_be_value_bound(t);
        lemma_be_value_bound(h);
        lemma_pow256_positive(31);
        assert(h.subrange(1, 32).len() == 31);
        assert(be_value(h) >= 0x7f * pow256(31));
    }
    let m = end - k;
    if m > 32 {
        proof {
            assert(t[0] != 0);
            lemma_pow256_monotone(32, (m - 1) as nat);
            assert(be_value(t) >= t[0] as nat * pow256((m - 1) as nat));
            assert(t[0] as nat * pow256((m - 1) as nat) >= pow256((m - 1) as nat)) by (nonlinear_arith)
                requires
                    t[0] as nat >= 1,
            ;
        }
        return false;
    }
    if m < 32 {
        proof {
            lemma_pow256_monotone(m as nat, 31);
        }
        return true;
    }
    let mut j: usize = 0;
    while j < 32 && sig[k + j] == half[j]
        invariant
            m == 32,
            k + 32 == end,
            end <= sig@.len(),
            j <= 32,
            half@ == h,
            h.len() == 32,
            t == sig@.subrange(k as int, end as int),
            t.subrange(0, j as int) == h.subrange(0, j as int),
        decreases 32 - j,
    {
        assert(t.subrange(0, j + 1) =~= h.subrange(0, j + 1));
        j = j + 1;
    }
    if j == 32 {
        assert(t =~= t.subrange(0, 32));
        assert(h =~= h.subrange(0, 32));
        true
    } else if sig[k + j] < half[j] {
        proof {
            lemma_be_value_lexicographic(t, h, j as int);
        }
        true
    } else {
        proof {
            lemma_be_value_lexicographic(h, t, j as int);
        }
        false
    }
}

/// Checks that `sig` is a valid signature whose S value is in the lower half
/// of the curve order.
pub fn is_low_der_signature(sig: &[u8]) -> (r: Result<bool, Error>)
    ensures
        !is_valid_signature_encoding_spec(sig@) ==> r == Err::<bool, Error>(Error::SignatureDer),
        is_valid_signature_encoding_spec(sig@) && !is_low_s_spec(sig@)
            ==> r == Err::<bool, Error>(Error::SignatureHighS),
        is_valid_signature_encoding_spec(sig@) && is_low_s_spec(sig@) ==> r == Ok::<bool, Error>(true),
{
    if !is_valid_signature_encoding(sig) {
        return Err(Error::SignatureDer);
    }
    if !is_low_s(sig) {
        return Err(Error::SignatureHighS);
    }
    Ok(true)
}

/// The hash type of a signature, its last byte without the anyone-can-pay bit,
/// is one of the defined tags.
pub open spec fn is_defined_hashtype_spec(sig: Seq<u8>) -> bool {
    sig.len() > 0 && {
        let last = sig[sig.len() - 1];
        let base = if last >= 0x80u8 { (last - 0x80u8) as u8 } else { last };
        base == SignatureHash::All.byte() || base == SignatureHash::NoOutputs.byte()
            || base == SignatureHash::Single.byte()
    }
}

/// Tells whether the last byte of `sig`, without the anyone-can-pay bit, is a defined hash type.
pub fn is_defined_hashtype_signature(sig: &[u8]) -> (r: bool)
    ensures
        r == is_defined_hashtype_spec(sig@),
{
    if sig.len() == 0 {
        return false;
    }
    let last = sig[sig.len() - 1];
    let flag = SignatureHash::AnyoneCanPay.to_u8();
    let base = if last >= flag { last - flag } else { last };
    base == SignatureHash::All.to_u8() || base == SignatureHash::NoOutputs.to_u8()
        || base == SignatureHash::Single.to_u8()
}

/// What the encoding rules that `flags` switch on decide of a signature.
pub open spec fn signature_encoding_result(sig: Seq<u8>, flags: VerificationFlags) -> Result<bool, Error> {
    if sig.len() == 0 {
        Ok(true)
    } else if (flags.verify_dersig || flags.verify_low_s || flags.verify_strictenc)
        && !is_valid_signature_encoding_spec(sig) {
        Err(Error::SignatureDer)
    } else if flags.verify_low_s && !is_low_s_spec(sig) {
        Err(Error::SignatureHighS)
    } else if flags.verify_strictenc && !is_defined_hashtype_spec(sig) {
        Err(Error::SignatureHashtype)
    } else {
        Ok(true)
    }
}

/// Checks a signature against the encoding rules that `flags` switch on. The
/// empty signature always passes: it stands for a signature meant to fail.
pub fn check_signature_encoding(sig: &[u8], flags: &VerificationFlags) -> (r: Result<bool, Error>)
    ensures
        r == signature_encoding_result(sig@, *flags),
{
    if sig.len() == 0 {
        return Ok(true);
    }
    if (flags.verify_dersig || flags.verify_low_s || flags.verify_strictenc)
        && !is_valid_signature_encoding(sig) {
        Err(Error::SignatureDer)
    } else if flags.verify_low_s {
        match is_low_der_signature(sig) {
            Err(e) => Err(e),
            Ok(_) => {
                if flags.verify_strictenc && !is_defined_hashtype_signature(sig) {
                    Err(Error::SignatureHashtype)
                } else {
                    Ok(true)
                }
            },
        }
    } else if flags.verify_strictenc && !is_defined_hashtype_signature(sig) {
        Err(Error::SignatureHashtype)
    } else {
        Ok(true)
    }
}

/// Checks a public key's shape, where strict encoding is switched on.
pub fn check_pubkey_encoding(v: &[u8], flags: &VerificationFlags) -> (r: Result<bool, Error>)
    ensures
        r == (if flags.verify_strictenc && !is_public_key_spec(v@) {
            Err(Error::PubkeyType)
        } else {
            Ok(true)
        }),
{
    if flags.verify_strictenc && !is_public_key(v) {
        return Err(Error::PubkeyType);
    }
    Ok(true)
}

/// `opcode` is the shortest way to push `data`: the empty push for no bytes, the
/// small-integer opcodes for one byte from 1 to 16, the negative-one opcode for
/// the byte 0x81, a direct push up to 75 bytes, the one-byte-length push up to
/// 255 bytes and the two-byte-length push up to 65535 bytes. Longer data passes.
pub open spec fn is_minimal_push_spec(data: Seq<u8>, opcode: Opcode) -> bool {
    if data.len() == 0 {
        opcode == Opcode::OP_0
    } else if data.len() == 1 && 1 <= data[0] <= 16 {
        opcode.byte() == Opcode::OP_1.byte() + data[0] - 1
    } else if data.len() == 1 && data[0] == 0x81u8 {
        opcode == Opcode::OP_1NEGATE
    } else if data.len() <= 75 {
        opcode.byte() == data.len()
    } else if data.len() <= 255 {
        opcode == Opcode::OP_PUSHDATA1
    } else if data.len() <= 65535 {
        opcode == Opcode::OP_PUSHDATA2
    } else {
        true
    }
}

/// Tells whether `opcode` is the shortest way to push `data`.
pub fn check_minimal_push(data: &[u8], opcode: Opcode) -> (r: bool)
    ensures
        r == is_minimal_push_spec(data@, opcode),
{
    if data.len() == 0 {
        opcode == Opcode::OP_0
    } else if data.len() == 1 && data[0] >= 1 && data[0] <= 16 {
        opcode.to_u8() == Opcode::OP_1.to_u8() + (data[0] - 1)
    } else if data.len() == 1 && data[0] == 0x81 {
        opcode == Opcode::OP_1NEGATE
    } else if data.len() <= 75 {
        opcode.to_u8() as usize == data.len()
    } else if data.len() <= 255 {
        opcode == Opcode::OP_PUSHDATA1
    } else if data.len() <= 65535 {
        opcode == Opcode::OP_PUSHDATA2
    } else {
        true
    }
}

} // verus!
