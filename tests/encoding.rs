use script::num::Num;
use script::{check_minimal_push, check_pubkey_encoding, check_signature_encoding, is_defined_hashtype_signature};
use script::{is_low_der_signature, is_valid_signature_encoding, Error, Opcode, SignatureHash, VerificationFlags};

const HALF_ORDER: [u8; 32] = [
    0x7f, 0xff, 0xff, 0xff, 0xff, 0xff, 0xff, 0xff, 0xff, 0xff, 0xff, 0xff, 0xff, 0xff, 0xff, 0xff,
    0x5d, 0x57, 0x6e, 0x73, 0x57, 0xa4, 0x50, 0x1d, 0xdf, 0xe9, 0x2f, 0x46, 0x68, 0x1b, 0x20, 0xa0,
];

fn der(r: &[u8], s: &[u8], hashtype: u8) -> Vec<u8> {
    let mut v = vec![0x30, (r.len() + s.len() + 4) as u8, 0x02, r.len() as u8];
    v.extend_from_slice(r);
    v.push(0x02);
    v.push(s.len() as u8);
    v.extend_from_slice(s);
    v.push(hashtype);
    v
}

fn sample() -> Vec<u8> {
    der(&[0x11; 32], &[0x22; 32], 0x01)
}

#[test]
fn valid_signature_is_accepted() {
    assert!(is_valid_signature_encoding(&sample()));
    assert!(is_valid_signature_encoding(&der(&[0x00, 0x80], &[0x01], 0x01)));
}

#[test]
fn signature_length_bounds() {
    for n in 0..9 {
        assert!(!is_valid_signature_encoding(&vec![0x30; n]));
    }
    assert!(!is_valid_signature_encoding(&vec![0x30; 74]));
    let shortest = der(&[0x01], &[0x01], 0x01);
    assert_eq!(shortest.len(), 9);
    assert!(is_valid_signature_encoding(&shortest));
    let longest = der(&[0x7f; 33], &[0x7f; 33], 0x01);
    assert_eq!(longest.len(), 73);
    assert!(is_valid_signature_encoding(&longest));
}

#[test]
fn structural_mutations_are_rejected() {
    let sig = sample();
    let len_r = sig[3] as usize;
    for &i in &[0, 1, 2, len_r + 4, len_r + 5] {
        let mut m = sig.clone();
        m[i] = m[i].wrapping_add(1);
        assert!(!is_valid_signature_encoding(&m), "position {}", i);
    }
    for &i in &[4, len_r + 6] {
        let mut m = sig.clone();
        m[i] |= 0x80;
        assert!(!is_valid_signature_encoding(&m), "sign bit at {}", i);
    }
}

#[test]
fn r_length_change_can_keep_a_valid_shape() {
    let sig = vec![0x30, 0x08, 0x02, 0x03, 0x01, 0x02, 0x03, 0x02, 0x01, 0x01, 0x01];
    assert!(is_valid_signature_encoding(&sig));
    let mut changed = sig.clone();
    changed[3] = 0x01;
    assert!(is_valid_signature_encoding(&changed));
}

#[test]
fn padding_rules_for_r_and_s() {
    assert!(!is_valid_signature_encoding(&der(&[0x00, 0x01], &[0x01], 0x01)));
    assert!(!is_valid_signature_encoding(&der(&[0x01], &[0x00, 0x01], 0x01)));
    assert!(is_valid_signature_encoding(&der(&[0x01], &[0x00, 0x81], 0x01)));
    assert!(!is_valid_signature_encoding(&der(&[], &[0x01, 0x01], 0x01)));
}

#[test]
fn low_s_boundaries() {
    assert_eq!(is_low_der_signature(&der(&[0x01], &HALF_ORDER, 0x01)), Ok(true));
    let mut above = HALF_ORDER;
    above[31] += 1;
    assert_eq!(is_low_der_signature(&der(&[0x01], &above, 0x01)), Err(Error::SignatureHighS));
    let mut high = vec![0x00];
    high.extend_from_slice(&[0xff; 32]);
    assert_eq!(is_low_der_signature(&der(&[0x01], &high, 0x01)), Err(Error::SignatureHighS));
    assert_eq!(is_low_der_signature(&der(&[0x01], &[0x7f; 31], 0x01)), Ok(true));
    assert_eq!(is_low_der_signature(&[0x30, 0x01]), Err(Error::SignatureDer));
}

#[test]
fn hashtype_must_be_defined() {
    assert!(!is_defined_hashtype_signature(&[]));
    assert!(is_defined_hashtype_signature(&[0x01]));
    assert!(is_defined_hashtype_signature(&[0x83]));
    assert!(!is_defined_hashtype_signature(&[0x00]));
    assert!(!is_defined_hashtype_signature(&[0x04]));
    assert!(!is_defined_hashtype_signature(&[0x80]));
    assert_eq!(SignatureHash::AnyoneCanPay.to_u8(), 0x80);
    assert_eq!(SignatureHash::Single.to_u8(), 3);
}

#[test]
fn signature_encoding_errors_by_flag() {
    let none = VerificationFlags::default();
    let mut der_flags = VerificationFlags::default();
    der_flags.verify_dersig = true;
    let mut low_s = VerificationFlags::default();
    low_s.verify_low_s = true;
    let mut strict = VerificationFlags::default();
    strict.verify_strictenc = true;

    assert_eq!(check_signature_encoding(&[], &strict), Ok(true));
    assert_eq!(check_signature_encoding(&[0x30], &none), Ok(true));
    assert_eq!(check_signature_encoding(&[0x30], &der_flags), Err(Error::SignatureDer));
    let mut high = vec![0x00];
    high.extend_from_slice(&[0xff; 32]);
    let high_sig = der(&[0x01], &high, 0x01);
    assert_eq!(check_signature_encoding(&high_sig, &der_flags), Ok(true));
    assert_eq!(check_signature_encoding(&high_sig, &low_s), Err(Error::SignatureHighS));
    let bad_type = der(&[0x01], &[0x01], 0x05);
    assert_eq!(check_signature_encoding(&bad_type, &der_flags), Ok(true));
    assert_eq!(check_signature_encoding(&bad_type, &strict), Err(Error::SignatureHashtype));
    assert_eq!(check_signature_encoding(&sample(), &strict), Ok(true));
}

#[test]
fn pubkey_encoding_only_under_strict_encoding() {
    let mut strict = VerificationFlags::default();
    strict.verify_strictenc = true;
    assert_eq!(check_pubkey_encoding(&[1, 2, 3], &VerificationFlags::default()), Ok(true));
    assert_eq!(check_pubkey_encoding(&[1, 2, 3], &strict), Err(Error::PubkeyType));
    assert_eq!(check_pubkey_encoding(&[2; 33], &strict), Ok(true));
}

#[test]
fn minimal_push_cases() {
    assert!(check_minimal_push(&[], Opcode::OP_0));
    assert!(!check_minimal_push(&[], Opcode::OP_PUSHDATA1));
    assert!(check_minimal_push(&[5], Opcode::OP_5));
    assert!(!check_minimal_push(&[5], Opcode::OP_PUSHBYTES_1));
    assert!(!check_minimal_push(&[5], Opcode::OP_6));
    assert!(check_minimal_push(&[0x81], Opcode::OP_1NEGATE));
    assert!(!check_minimal_push(&[0x81], Opcode::OP_PUSHBYTES_1));
    assert!(check_minimal_push(&[0x5a], Opcode::OP_PUSHBYTES_1));
    assert!(check_minimal_push(&[0; 75], Opcode::OP_PUSHBYTES_75));
    assert!(!check_minimal_push(&[0; 76], Opcode::OP_PUSHBYTES_75));
    assert!(check_minimal_push(&[0; 76], Opcode::OP_PUSHDATA1));
    assert!(check_minimal_push(&[0; 255], Opcode::OP_PUSHDATA1));
    assert!(check_minimal_push(&vec![0; 256], Opcode::OP_PUSHDATA2));
    assert!(!check_minimal_push(&vec![0; 256], Opcode::OP_PUSHDATA4));
    assert!(check_minimal_push(&vec![0; 65536], Opcode::OP_PUSHDATA4));
}

#[test]
fn numbers_decode() {
    assert_eq!(Num::from_slice(&[], true, 4), Ok(Num { value: 0 }));
    assert_eq!(Num::from_slice(&[0x81], true, 4), Ok(Num { value: -1 }));
    assert_eq!(Num::from_slice(&[0xff, 0x00], true, 4), Ok(Num { value: 255 }));
    assert_eq!(Num::from_slice(&[0xff, 0x80], true, 4), Ok(Num { value: -255 }));
    assert_eq!(Num::from_slice(&[0x00, 0x00, 0x00, 0x00, 0x01], true, 5), Ok(Num { value: 1 << 32 }));
    assert_eq!(Num::from_slice(&[1, 2, 3, 4, 5], true, 4), Err(Error::NumberOverflow));
    assert_eq!(Num::from_slice(&[0x00], true, 4), Err(Error::NumberNotMinimallyEncoded));
    assert_eq!(Num::from_slice(&[0x05, 0x80], true, 4), Err(Error::NumberNotMinimallyEncoded));
    assert_eq!(Num::from_slice(&[0x05, 0x80], false, 4), Ok(Num { value: -5 }));
    assert!(Num::from_slice(&[0x81], false, 4).unwrap().is_negative());
}

#[test]
fn numbers_encode_minimally() {
    assert_eq!(Num { value: 0 }.to_vec(), Vec::<u8>::new());
    assert_eq!(Num { value: -1 }.to_vec(), vec![0x81]);
    assert_eq!(Num { value: 16 }.to_vec(), vec![16]);
    assert_eq!(Num { value: 255 }.to_vec(), vec![0xff, 0x00]);
    assert_eq!(Num { value: -255 }.to_vec(), vec![0xff, 0x80]);
    assert_eq!(Num { value: 0x1234 }.to_vec(), vec![0x34, 0x12]);
    assert_eq!(Num { value: i64::MIN }.to_vec(), vec![0, 0, 0, 0, 0, 0, 0, 0x80, 0x80]);
}
