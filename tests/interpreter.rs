use script::{eval_script, Error, NoopSignatureChecker, Opcode, Script, SignatureVersion, VerificationFlags};
use script::{is_public_key, MAX_SCRIPT_SIZE};

fn run(stack: &mut Vec<Vec<u8>>, bytes: Vec<u8>, flags: &VerificationFlags) -> Result<bool, Error> {
    eval_script(stack, &Script::new(bytes), flags, &NoopSignatureChecker, SignatureVersion::Base)
}

#[test]
fn tests_is_public_key() {
    let uncompressed: Vec<u8> = vec![
        0x04, 0x95, 0xdf, 0xb9, 0x0f, 0x20, 0x2c, 0x7d, 0x01, 0x6e, 0xf4, 0x2c, 0x65, 0xbc, 0x01, 0x0c,
        0xd2, 0x6b, 0xb8, 0x23, 0x7b, 0x06, 0x25, 0x3c, 0xc4, 0xd1, 0x21, 0x75, 0x09, 0x7b, 0xef, 0x76,
        0x7e, 0xd6, 0xb1, 0xfc, 0xb3, 0xca, 0xf1, 0xed, 0x57, 0xc9, 0x8d, 0x92, 0xe6, 0xcb, 0x70, 0x27,
        0x87, 0x21, 0xb9, 0x52, 0xe2, 0x9a, 0x33, 0x51, 0x34, 0x85, 0x7a, 0xcd, 0x4c, 0x19, 0x9b, 0x9d,
        0x2f,
    ];
    assert_eq!(uncompressed.len(), 65);
    assert!(!is_public_key(&[]));
    assert!(!is_public_key(&[1]));
    assert!(is_public_key(&uncompressed));
    assert!(is_public_key(&[2; 33]));
    assert!(is_public_key(&[3; 33]));
    assert!(!is_public_key(&[4; 33]));
}

#[test]
fn test_push_data() {
    let expected = vec![vec![0x5a]];
    let mut flags = VerificationFlags::default();
    let checker = NoopSignatureChecker;
    flags.verify_p2sh = true;
    let version = SignatureVersion::Base;
    let direct = Script::new(vec![Opcode::OP_PUSHBYTES_1 as u8, 0x5a]);
    let pushdata1 = Script::new(vec![Opcode::OP_PUSHDATA1 as u8, 0x1, 0x5a]);
    let pushdata2 = Script::new(vec![Opcode::OP_PUSHDATA2 as u8, 0x1, 0, 0x5a]);
    let pushdata4 = Script::new(vec![Opcode::OP_PUSHDATA4 as u8, 0x1, 0, 0, 0, 0x5a]);

    let mut direct_stack = vec![];
    let mut pushdata1_stack = vec![];
    let mut pushdata2_stack = vec![];
    let mut pushdata4_stack = vec![];
    assert!(eval_script(&mut direct_stack, &direct, &flags, &checker, version).unwrap());
    assert!(eval_script(&mut pushdata1_stack, &pushdata1, &flags, &checker, version).unwrap());
    assert!(eval_script(&mut pushdata2_stack, &pushdata2, &flags, &checker, version).unwrap());
    assert!(eval_script(&mut pushdata4_stack, &pushdata4, &flags, &checker, version).unwrap());

    assert_eq!(expected, direct_stack);
    assert_eq!(expected, pushdata1_stack);
    assert_eq!(expected, pushdata2_stack);
    assert_eq!(expected, pushdata4_stack);
}

#[test]
fn push_data_with_minimal_pushes_enforced() {
    let mut flags = VerificationFlags::default();
    flags.verify_minimaldata = true;
    let mut direct = vec![];
    assert_eq!(run(&mut direct, vec![Opcode::OP_PUSHBYTES_1 as u8, 0x5a], &flags), Ok(true));
    assert_eq!(direct, vec![vec![0x5a]]);
    let longer: Vec<Vec<u8>> = vec![
        vec![Opcode::OP_PUSHDATA1 as u8, 0x1, 0x5a],
        vec![Opcode::OP_PUSHDATA2 as u8, 0x1, 0, 0x5a],
        vec![Opcode::OP_PUSHDATA4 as u8, 0x1, 0, 0, 0, 0x5a],
    ];
    for bytes in longer {
        let mut stack = vec![];
        assert_eq!(run(&mut stack, bytes, &flags), Err(Error::Minimaldata));
        assert!(stack.is_empty());
    }
}

#[test]
fn equal_on_equal_items_pushes_one() {
    let mut stack = vec![vec![7, 8], vec![7, 8]];
    assert_eq!(run(&mut stack, vec![Opcode::OP_EQUAL as u8], &VerificationFlags::default()), Ok(true));
    assert_eq!(stack, vec![vec![1]]);
}

#[test]
fn equal_on_different_items_pushes_zero() {
    let mut stack = vec![vec![9], vec![7, 8], vec![7, 9]];
    assert_eq!(run(&mut stack, vec![Opcode::OP_EQUAL as u8], &VerificationFlags::default()), Ok(false));
    assert_eq!(stack, vec![vec![9], vec![0]]);
}

#[test]
fn equal_with_one_item_underflows() {
    let mut stack = vec![vec![1]];
    let r = run(&mut stack, vec![Opcode::OP_EQUAL as u8], &VerificationFlags::default());
    assert_eq!(r, Err(Error::InvalidStackOperation));
    assert_eq!(stack, vec![vec![1]]);
}

#[test]
fn equalverify_mismatch_fails_and_pops_both() {
    let mut stack = vec![vec![3], vec![1], vec![2]];
    let r = run(&mut stack, vec![Opcode::OP_EQUALVERIFY as u8], &VerificationFlags::default());
    assert_eq!(r, Err(Error::EqualVerify));
    assert_eq!(stack, vec![vec![3]]);
}

#[test]
fn equalverify_match_pops_both() {
    let mut stack = vec![vec![3], vec![1], vec![1]];
    let r = run(&mut stack, vec![Opcode::OP_EQUALVERIFY as u8], &VerificationFlags::default());
    assert_eq!(r, Ok(true));
    assert_eq!(stack, vec![vec![3]]);
}

#[test]
fn return_fails_on_empty_and_full_stacks() {
    let mut empty: Vec<Vec<u8>> = vec![];
    assert_eq!(run(&mut empty, vec![Opcode::OP_RETURN as u8], &VerificationFlags::default()), Err(Error::ReturnOpcode));
    let mut full = vec![vec![1]];
    assert_eq!(run(&mut full, vec![Opcode::OP_RETURN as u8], &VerificationFlags::default()), Err(Error::ReturnOpcode));
}

#[test]
fn lock_time_verify_inactive_is_a_no_op() {
    let mut stack = vec![vec![5]];
    let r = run(&mut stack, vec![Opcode::OP_CHECKLOCKTIMEVERIFY as u8], &VerificationFlags::default());
    assert_eq!(r, Ok(true));
    assert_eq!(stack, vec![vec![5]]);
}

#[test]
fn lock_time_verify_inactive_and_discouraged_fails() {
    let mut flags = VerificationFlags::default();
    flags.verify_discourage_upgradable_nops = true;
    let mut stack = vec![vec![5]];
    let r = run(&mut stack, vec![Opcode::OP_CHECKLOCKTIMEVERIFY as u8], &flags);
    assert_eq!(r, Err(Error::DiscourageUpgradableNops));
}

#[test]
fn lock_time_verify_active_errors() {
    let mut flags = VerificationFlags::default();
    flags.verify_clocktimeverify = true;
    let op = Opcode::OP_CHECKLOCKTIMEVERIFY as u8;
    let mut empty: Vec<Vec<u8>> = vec![];
    assert_eq!(run(&mut empty, vec![op], &flags), Err(Error::InvalidStackOperation));
    let mut negative = vec![vec![0x81]];
    assert_eq!(run(&mut negative, vec![op], &flags), Err(Error::NegativeLocktime));
    let mut refused = vec![vec![5]];
    assert_eq!(run(&mut refused, vec![op], &flags), Err(Error::UnsatisfiedLocktime));
    assert_eq!(refused, vec![vec![5]]);
    let mut wide = vec![vec![1, 2, 3, 4, 5, 6]];
    assert_eq!(run(&mut wide, vec![op], &flags), Err(Error::NumberOverflow));
    flags.verify_minimaldata = true;
    let mut padded = vec![vec![5, 0]];
    assert_eq!(run(&mut padded, vec![op], &flags), Err(Error::NumberNotMinimallyEncoded));
}

#[test]
fn reserved_nops_follow_discouragement() {
    let mut flags = VerificationFlags::default();
    let mut stack = vec![vec![1]];
    assert_eq!(run(&mut stack, vec![Opcode::OP_NOP1 as u8, Opcode::OP_NOP10 as u8], &flags), Ok(true));
    flags.verify_discourage_upgradable_nops = true;
    assert_eq!(run(&mut stack, vec![Opcode::OP_NOP4 as u8], &flags), Err(Error::DiscourageUpgradableNops));
    assert_eq!(run(&mut stack, vec![Opcode::OP_NOP as u8], &flags), Ok(true));
}

#[test]
fn oversized_script_fails_before_running() {
    let mut stack = vec![vec![1]];
    let bytes = vec![Opcode::OP_RETURN as u8; MAX_SCRIPT_SIZE + 1];
    assert_eq!(run(&mut stack, bytes, &VerificationFlags::default()), Err(Error::ScriptSize));
    assert_eq!(stack, vec![vec![1]]);
    let mut other = vec![vec![1]];
    let fits = vec![Opcode::OP_NOP as u8; MAX_SCRIPT_SIZE];
    assert_eq!(run(&mut other, fits, &VerificationFlags::default()), Ok(true));
}

#[test]
fn malformed_scripts_fail_to_parse() {
    let mut stack: Vec<Vec<u8>> = vec![];
    assert_eq!(run(&mut stack, vec![0xba], &VerificationFlags::default()), Err(Error::BadOpcode));
    assert_eq!(run(&mut stack, vec![Opcode::OP_PUSHBYTES_2 as u8, 1], &VerificationFlags::default()), Err(Error::BadOpcode));
    assert_eq!(run(&mut stack, vec![Opcode::OP_PUSHDATA2 as u8, 1], &VerificationFlags::default()), Err(Error::BadOpcode));
    assert!(stack.is_empty());
}

#[test]
fn small_number_opcodes_push_their_value() {
    let mut stack = vec![];
    let bytes = vec![Opcode::OP_1NEGATE as u8, Opcode::OP_16 as u8, Opcode::OP_0 as u8];
    assert_eq!(run(&mut stack, bytes, &VerificationFlags::default()), Ok(false));
    assert_eq!(stack, vec![vec![0x81], vec![16], vec![]]);
}

#[test]
fn verdict_depends_on_top_item() {
    let flags = VerificationFlags::default();
    let mut empty: Vec<Vec<u8>> = vec![];
    assert_eq!(run(&mut empty, vec![], &flags), Ok(false));
    let mut zeros = vec![vec![0, 0]];
    assert_eq!(run(&mut zeros, vec![], &flags), Ok(false));
    let mut sign_only = vec![vec![0, 0x80]];
    assert_eq!(run(&mut sign_only, vec![], &flags), Ok(true));
}
