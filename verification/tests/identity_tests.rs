use time_index_state_type_script::error::IdentityError;
use time_index_state_type_script::identity::{
    check_args_when_create_cell, check_args_when_update_cell,
};
use time_index_state_type_script::transaction::{Cell, TransactionView};

const HASH: [u8; 32] = [0x42; 32];
const OTHER: [u8; 32] = [0x43; 32];

fn cell(hash: Option<[u8; 32]>, args: Option<&[u8]>) -> Cell {
    Cell { type_hash: hash, type_args: args.map(|a| a.to_vec()), data: vec![0, 12] }
}

fn view(args: &[u8], reference: &[u8], inputs: Vec<Cell>) -> TransactionView {
    TransactionView {
        script_hash: HASH,
        script_args: args.to_vec(),
        first_input_reference: reference.to_vec(),
        inputs,
        outputs: vec![cell(Some(HASH), Some(args))],
    }
}

#[test]
fn creation_binds_the_tag_to_the_first_input_reference() {
    let reference = [9u8; 36];
    let tx = view(&reference, &reference, vec![cell(None, None)]);
    assert_eq!(check_args_when_create_cell(&tx), Ok(()));
}

#[test]
fn creation_with_another_tag_is_a_mismatch() {
    let reference = [9u8; 36];
    let tx = view(b"test args", &reference, vec![cell(None, None)]);
    assert_eq!(check_args_when_create_cell(&tx), Err(IdentityError::IdentityMismatch));
}

#[test]
fn creation_with_an_empty_tag_is_a_mismatch() {
    let reference = [9u8; 36];
    let tx = view(&[], &reference, vec![cell(None, None)]);
    assert_eq!(check_args_when_create_cell(&tx), Err(IdentityError::IdentityMismatch));
}

#[test]
fn creation_with_a_tag_that_differs_in_one_byte_is_a_mismatch() {
    let reference = [9u8; 36];
    let mut args = reference;
    args[35] = 8;
    let tx = view(&args, &reference, vec![cell(None, None)]);
    assert_eq!(check_args_when_create_cell(&tx), Err(IdentityError::IdentityMismatch));
}

#[test]
fn creation_with_a_tag_that_is_only_a_prefix_is_a_mismatch() {
    let reference = [9u8; 36];
    let tx = view(&reference[..35], &reference, vec![cell(None, None)]);
    assert_eq!(check_args_when_create_cell(&tx), Err(IdentityError::IdentityMismatch));
}

#[test]
fn update_keeps_the_tag_of_the_consumed_record() {
    let args = [1u8, 2, 3];
    let tx = view(&args, &[0; 36], vec![cell(Some(HASH), Some(&args))]);
    assert_eq!(check_args_when_update_cell(&tx, HASH), Ok(()));
}

#[test]
fn update_with_an_empty_tag_has_no_identity() {
    let tx = view(&[], &[0; 36], vec![cell(Some(HASH), Some(&[]))]);
    assert_eq!(check_args_when_update_cell(&tx, HASH), Err(IdentityError::EmptyIdentity));
}

#[test]
fn update_with_an_empty_tag_has_no_identity_whatever_is_consumed() {
    let tx = view(&[], &[0; 36], vec![cell(None, None)]);
    assert_eq!(check_args_when_update_cell(&tx, HASH), Err(IdentityError::EmptyIdentity));
    let tx = view(&[], &[0; 36], vec![]);
    assert_eq!(check_args_when_update_cell(&tx, HASH), Err(IdentityError::EmptyIdentity));
}

#[test]
fn update_without_a_consumed_record_finds_none() {
    let args = [1u8, 2, 3];
    let tx = view(&args, &[0; 36], vec![cell(None, None), cell(Some(OTHER), Some(&args))]);
    assert_eq!(check_args_when_update_cell(&tx, HASH), Err(IdentityError::RecordNotFound));
    let tx = view(&args, &[0; 36], vec![]);
    assert_eq!(check_args_when_update_cell(&tx, HASH), Err(IdentityError::RecordNotFound));
}

#[test]
fn update_of_a_consumed_record_without_a_tag_finds_none() {
    let args = [1u8, 2, 3];
    let tx = view(&args, &[0; 36], vec![cell(Some(HASH), None)]);
    assert_eq!(check_args_when_update_cell(&tx, HASH), Err(IdentityError::RecordNotFound));
}

#[test]
fn update_with_a_changed_tag_is_a_mismatch() {
    let args = [1u8, 2, 3];
    let tx = view(&args, &[0; 36], vec![cell(Some(HASH), Some(&[1, 2, 4]))]);
    assert_eq!(check_args_when_update_cell(&tx, HASH), Err(IdentityError::IdentityMismatch));
    let tx = view(&args, &[0; 36], vec![cell(Some(HASH), Some(&[1, 2]))]);
    assert_eq!(check_args_when_update_cell(&tx, HASH), Err(IdentityError::IdentityMismatch));
    let tx = view(&args, &[0; 36], vec![cell(Some(HASH), Some(&[]))]);
    assert_eq!(check_args_when_update_cell(&tx, HASH), Err(IdentityError::IdentityMismatch));
}

#[test]
fn update_goes_by_the_first_consumed_record() {
    let args = [1u8, 2, 3];
    let tx = view(
        &args,
        &[0; 36],
        vec![
            cell(Some(OTHER), Some(&args)),
            cell(Some(HASH), Some(&[9])),
            cell(Some(HASH), Some(&args)),
        ],
    );
    assert_eq!(check_args_when_update_cell(&tx, HASH), Err(IdentityError::IdentityMismatch));
    let tx = view(
        &args,
        &[0; 36],
        vec![cell(None, None), cell(Some(HASH), Some(&args)), cell(Some(HASH), Some(&[9]))],
    );
    assert_eq!(check_args_when_update_cell(&tx, HASH), Ok(()));
}

#[test]
fn update_does_not_look_at_the_first_input_reference() {
    let args = [1u8, 2, 3];
    let tx = view(&args, &[], vec![cell(Some(HASH), Some(&args))]);
    assert_eq!(check_args_when_update_cell(&tx, HASH), Ok(()));
}
