//! The identity tag: set when a record is created, and unchanged ever after.

use vstd::prelude::*;
use crate::cardinality::{first_match, get_position_of_cell_with_type_script};
use crate::error::IdentityError;
use crate::transaction::{bytes_equal, Source, TransactionSpec, TransactionView};

verus! {

/// A record is bound at creation when the identity tag is, byte for byte, the
/// serialized reference of the first consumed input.
pub open spec fn bound_on_create(tx: TransactionSpec) -> Result<(), IdentityError> {
    if tx.script_args == tx.first_input_reference {
        Ok(())
    } else {
        Err(IdentityError::IdentityMismatch)
    }
}

/// A record keeps its identity in an update when the identity tag is not
/// empty and the first consumed entry that carries `hash` has a tag equal to
/// it. The checks are made in this order, and the first that fails decides.
///
/// The tag is held against the consumed record only. It is not held again
/// against the reference that it was bound to at creation: whether a tag, once
/// bound, may be taken on trust in every later update is an open question.
pub open spec fn kept_on_update(tx: TransactionSpec, hash: Seq<u8>) -> Result<(), IdentityError> {
    if tx.script_args.len() == 0 {
        Err(IdentityError::EmptyIdentity)
    } else {
        match first_match(tx.inputs, hash) {
            None => Err(IdentityError::RecordNotFound),
            Some(i) => match tx.inputs[i].type_args {
                None => Err(IdentityError::RecordNotFound),
                Some(args) => if args == tx.script_args {
                    Ok(())
                } else {
                    Err(IdentityError::IdentityMismatch)
                },
            },
        }
    }
}

/// Checks the identity tag of a record that is being created.
pub fn check_args_when_create_cell(tx: &TransactionView) -> (bound: Result<(), IdentityError>)
    ensures
        bound == bound_on_create(tx@),
{
    if bytes_equal(tx.first_input_reference.as_slice(), tx.script_args.as_slice()) {
        Ok(())
    } else {
        Err(IdentityError::IdentityMismatch)
    }
}

/// Checks the identity tag of a record that is being updated, against the
/// consumed entry whose type hash is `script_hash`.
pub fn check_args_when_update_cell(tx: &TransactionView, script_hash: [u8; 32]) -> (kept: Result<
    (),
    IdentityError,
>)
    ensures
        kept == kept_on_update(tx@, script_hash@),
{
    if tx.script_args.len() == 0 {
        return Err(IdentityError::EmptyIdentity);
    }
    let position = match get_position_of_cell_with_type_script(tx, script_hash, Source::Input) {
        Some(position) => position,
        None => {
            return Err(IdentityError::RecordNotFound);
        },
    };
    match &tx.inputs[position].type_args {
        Some(input_args) => {
            if bytes_equal(input_args.as_slice(), tx.script_args.as_slice()) {
                Ok(())
            } else {
                Err(IdentityError::IdentityMismatch)
            }
        },
        None => Err(IdentityError::RecordNotFound),
    }
}

} // verus!
