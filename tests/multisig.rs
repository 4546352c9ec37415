use multisig::error::MultiSigError;
use multisig::instruction::{DecodeError, MultiSigInstruction};
use multisig::processor::Processor;
use multisig::state::{keys_equal, MultiSig};
use multisig::utils::is_signer;

fn key(b: u8) -> [u8; 32] {
    [b; 32]
}

fn fresh(threshold: u8) -> MultiSig {
    Processor::process_initialize(vec![key(1), key(2), key(3)], threshold).unwrap()
}

fn same(a: &MultiSig, b: &MultiSig) -> bool {
    a.owners == b.owners && a.threshold == b.threshold && a.approvals == b.approvals && a.executed == b.executed
}

fn copy(m: &MultiSig) -> MultiSig {
    MultiSig { owners: m.owners.clone(), threshold: m.threshold, approvals: m.approvals, executed: m.executed }
}

#[test]
fn create_scenario() {
    let m = fresh(2);
    assert_eq!(m.owners, vec![key(1), key(2), key(3)]);
    assert_eq!(m.threshold, 2);
    assert_eq!(m.approvals, 0);
    assert!(!m.executed);
}

#[test]
fn approve_twice_then_execute() {
    let mut m = fresh(2);
    assert!(Processor::process_approve(&mut m, &key(1), 7).is_ok());
    assert!(Processor::process_approve(&mut m, &key(2), 7).is_ok());
    assert_eq!(m.approvals, 2);
    assert!(Processor::process_execute(&mut m, 7).is_ok());
    assert!(m.executed);
}

#[test]
fn execute_before_approvals_fails() {
    let mut m = fresh(2);
    let before = copy(&m);
    assert_eq!(Processor::process_execute(&mut m, 1), Err(MultiSigError::InsufficientApprovals));
    assert!(same(&m, &before));
}

#[test]
fn approve_by_stranger_fails() {
    let mut m = fresh(2);
    Processor::process_approve(&mut m, &key(1), 1).unwrap();
    let before = copy(&m);
    assert_eq!(Processor::process_approve(&mut m, &key(9), 1), Err(MultiSigError::NotOwner));
    assert_eq!(m.approvals, 1);
    assert!(same(&m, &before));
}

#[test]
fn propose_after_execution_resets() {
    let mut m = fresh(2);
    Processor::process_approve(&mut m, &key(1), 1).unwrap();
    Processor::process_approve(&mut m, &key(2), 1).unwrap();
    Processor::process_execute(&mut m, 1).unwrap();
    Processor::process_submit_transaction(&mut m, 2);
    assert_eq!(m.approvals, 0);
    assert!(!m.executed);
    assert_eq!(m.threshold, 2);
    assert_eq!(m.owners.len(), 3);
}

#[test]
fn create_threshold_bounds() {
    assert_eq!(
        Processor::process_initialize(vec![key(1), key(2)], 0).err(),
        Some(MultiSigError::InvalidConfiguration)
    );
    assert_eq!(
        Processor::process_initialize(vec![key(1), key(2)], 3).err(),
        Some(MultiSigError::InvalidConfiguration)
    );
    assert_eq!(Processor::process_initialize(vec![], 1).err(), Some(MultiSigError::InvalidConfiguration));
    assert!(Processor::process_initialize(vec![key(1), key(2)], 2).is_ok());
    assert!(Processor::process_initialize(vec![key(1)], 1).is_ok());
}

#[test]
fn same_owner_may_approve_repeatedly() {
    let mut m = fresh(3);
    for _ in 0..3 {
        Processor::process_approve(&mut m, &key(2), 1).unwrap();
    }
    assert_eq!(m.approvals, 3);
    assert!(Processor::process_execute(&mut m, 1).is_ok());
    assert!(Processor::process_execute(&mut m, 1).is_ok());
    assert!(m.executed);
}

#[test]
fn key_equality_is_bytewise() {
    let a = key(4);
    let mut b = key(4);
    assert!(keys_equal(&a, &b));
    b[31] = 5;
    assert!(!keys_equal(&a, &b));
    assert!(is_signer(true, &a, &a));
    assert!(!is_signer(false, &a, &a));
    assert!(!is_signer(true, &a, &b));
}

#[test]
fn error_codes() {
    assert_eq!(MultiSigError::InsufficientApprovals.code(), 0);
    assert_eq!(MultiSigError::NotOwner.code(), 1);
    assert_eq!(MultiSigError::InvalidConfiguration.code(), 2);
    assert_eq!(MultiSigError::NotOwner.message(), "Owner not recognized");
}

#[test]
fn unpack_ids() {
    let mut data = vec![2u8];
    data.extend_from_slice(&0x0102030405060708u64.to_le_bytes());
    match MultiSigInstruction::unpack(&data) {
        Ok(MultiSigInstruction::Approve { transaction_id }) => assert_eq!(transaction_id, 0x0102030405060708),
        _ => panic!("expected an approval"),
    }
    data[0] = 1;
    assert!(matches!(
        MultiSigInstruction::unpack(&data),
        Ok(MultiSigInstruction::SubmitTransaction { transaction_id: 0x0102030405060708 })
    ));
    data[0] = 3;
    assert!(matches!(MultiSigInstruction::unpack(&data), Ok(MultiSigInstruction::Execute { transaction_id: 0x0102030405060708 })));
    assert!(matches!(MultiSigInstruction::unpack(&[3, 1, 2]), Err(DecodeError::InvalidInstructionData)));
    assert!(matches!(MultiSigInstruction::unpack(&[]), Err(DecodeError::InvalidInstructionData)));
    assert!(matches!(MultiSigInstruction::unpack(&[4, 0, 0, 0, 0, 0, 0, 0, 0]), Err(DecodeError::InvalidInstructionData)));
}

#[test]
fn unpack_initialize() {
    let mut data = vec![0u8, 2, 0, 0, 0];
    data.extend_from_slice(&key(7));
    let mut second = key(8);
    second[28] = 2;
    data.extend_from_slice(&second);
    match MultiSigInstruction::unpack(&data) {
        Ok(MultiSigInstruction::Initialize { owners, threshold }) => {
            assert_eq!(owners, vec![key(7), second]);
            assert_eq!(threshold, 2);
        }
        _ => panic!("expected an initialization"),
    }
    assert!(matches!(MultiSigInstruction::unpack(&[0, 1, 0, 0, 0, 9]), Err(DecodeError::MalformedOwners)));
    assert!(matches!(MultiSigInstruction::unpack(&[0, 0, 0, 0]), Err(DecodeError::MalformedOwners)));
    match MultiSigInstruction::unpack(&[0, 0, 0, 0, 0, 5]) {
        Ok(MultiSigInstruction::Initialize { owners, threshold }) => {
            assert!(owners.is_empty());
            assert_eq!(threshold, 0);
        }
        _ => panic!("expected an initialization"),
    }
}

#[test]
fn dispatch_routes_and_keeps_record_on_failure() {
    let mut m = fresh(1);
    let before = copy(&m);
    let r = Processor::process(&mut m, MultiSigInstruction::Initialize { owners: vec![key(1)], threshold: 2 }, &key(1));
    assert_eq!(r, Err(MultiSigError::InvalidConfiguration));
    assert!(same(&m, &before));
    assert_eq!(Processor::process(&mut m, MultiSigInstruction::Execute { transaction_id: 0 }, &key(1)), Err(MultiSigError::InsufficientApprovals));
    assert!(Processor::process(&mut m, MultiSigInstruction::Approve { transaction_id: 0 }, &key(3)).is_ok());
    assert!(Processor::process(&mut m, MultiSigInstruction::Execute { transaction_id: 0 }, &key(1)).is_ok());
    assert!(m.executed);
    assert!(Processor::process(&mut m, MultiSigInstruction::SubmitTransaction { transaction_id: 1 }, &key(1)).is_ok());
    assert_eq!(m.approvals, 0);
    assert!(!m.executed);
    assert!(Processor::process(&mut m, MultiSigInstruction::Initialize { owners: vec![key(5), key(6)], threshold: 2 }, &key(1)).is_ok());
    assert_eq!(m.owners, vec![key(5), key(6)]);
    assert_eq!(m.threshold, 2);
}

#[test]
fn stored_form_round_trip() {
    let m = MultiSig { owners: vec![key(1), key(2)], threshold: 2, approvals: 1, executed: true };
    let bytes = m.pack().unwrap();
    let mut expected = vec![2u8, 0, 0, 0];
    expected.extend_from_slice(&key(1));
    expected.extend_from_slice(&key(2));
    expected.extend_from_slice(&[2, 1, 1]);
    assert_eq!(bytes, expected);
    let back = MultiSig::unpack_from(&bytes).unwrap();
    assert!(same(&back, &m));
}

#[test]
fn stored_form_rejects_bad_bytes() {
    let m = fresh(2);
    let mut bytes = m.pack().unwrap();
    assert_eq!(bytes.len(), 4 + 96 + 3);
    assert_eq!(bytes[bytes.len() - 1], 0);
    bytes.push(0);
    assert!(MultiSig::unpack_from(&bytes).is_none());
    bytes.pop();
    let last = bytes.len() - 1;
    bytes[last] = 2;
    assert!(MultiSig::unpack_from(&bytes).is_none());
    assert!(MultiSig::unpack_from(&bytes[..10]).is_none());
    assert!(MultiSig::unpack_from(&[]).is_none());
}
