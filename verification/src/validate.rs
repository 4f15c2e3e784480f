//! The verdict on a transaction: whether it creates the record or updates
//! it, and whether it does so by the rules.

use vstd::prelude::*;
use crate::cardinality::{
    first_match,
    get_position_of_cell_with_type_script,
    get_script_hash_cell_count,
    has_match,
    lemma_count_one,
    lemma_count_zero,
    load_cell_data,
    matching_count,
    matching_payload,
};
use crate::error::Error;
use crate::identity::{
    bound_on_create,
    check_args_when_create_cell,
    check_args_when_update_cell,
    kept_on_update,
};
use crate::record::{check_cell_data, decode, Record, TIME_INDEX_CELL_DATA_N};
use crate::transaction::{CellSpec, Source, TransactionSpec, TransactionView};
use crate::transition::{check_create, check_update, creation_rule, update_rule};

verus! {

/// What a transaction does to the record.
#[derive(Clone, Copy, Debug, PartialEq, Eq, Structural)]
pub enum Transition {
    /// The record appears for the first time.
    Create,
    /// The record is consumed and produced again.
    Update,
}

/// A transaction updates the record when a consumed entry carries the hash of
/// the running script; otherwise it creates the record.
pub open spec fn classification(tx: TransactionSpec) -> Transition {
    if has_match(tx.inputs, tx.script_hash) {
        Transition::Update
    } else {
        Transition::Create
    }
}

/// The decoded record of the first entry that carries `hash`. The checks are
/// made in this order, and the first that fails decides: the entry is there,
/// and its payload is well formed.
pub open spec fn matching_record(cells: Seq<CellSpec>, hash: Seq<u8>, source: Source) -> Result<
    Record,
    Error,
> {
    match matching_payload(cells, hash, source) {
        Ok(data) => decode(data),
        Err(e) => Err(e),
    }
}

/// The verdict on a creation. The checks are made in this order, and the
/// first that fails decides: exactly one produced record, the identity tag
/// bound to the first consumed input, a well-formed payload, the counter at
/// zero.
pub open spec fn create_verdict(tx: TransactionSpec, hash: Seq<u8>) -> Result<(), Error> {
    if matching_count(tx.outputs, hash) != 1 {
        Err(Error::InvalidOutput)
    } else {
        match bound_on_create(tx) {
            Err(e) => Err(e.spec_kind()),
            Ok(()) => match matching_record(tx.outputs, hash, Source::Output) {
                Err(e) => Err(e),
                Ok(output) => creation_rule(output),
            },
        }
    }
}

/// The verdict on an update. The checks are made in this order, and the first
/// that fails decides: exactly one consumed record, exactly one produced
/// record, the identity tag kept, a well-formed consumed payload, a
/// well-formed produced payload, the counter one position further.
pub open spec fn update_verdict(tx: TransactionSpec, hash: Seq<u8>) -> Result<(), Error> {
    if matching_count(tx.inputs, hash) != 1 {
        Err(Error::InvalidInput)
    } else if matching_count(tx.outputs, hash) != 1 {
        Err(Error::InvalidOutput)
    } else {
        match kept_on_update(tx, hash) {
            Err(e) => Err(e.spec_kind()),
            Ok(()) => match matching_record(tx.inputs, hash, Source::Input) {
                Err(e) => Err(e),
                Ok(input) => match matching_record(tx.outputs, hash, Source::Output) {
                    Err(e) => Err(e),
                    Ok(output) => update_rule(input, output),
                },
            },
        }
    }
}

/// The verdict on a transaction: that of an update where it consumes the
/// record, that of a creation where it does not.
pub open spec fn verdict(tx: TransactionSpec) -> Result<(), Error> {
    match classification(tx) {
        Transition::Create => create_verdict(tx, tx.script_hash),
        Transition::Update => update_verdict(tx, tx.script_hash),
    }
}

/// Validates the creation of the record whose type hash is `script_hash`.
pub fn create(tx: &TransactionView, script_hash: [u8; 32]) -> (result: Result<(), Error>)
    ensures
        result == create_verdict(tx@, script_hash@),
{
    if get_script_hash_cell_count(tx, script_hash, Source::Output) != 1 {
        return Err(Error::InvalidOutput);
    }
    match check_args_when_create_cell(tx) {
        Ok(()) => {},
        Err(e) => {
            return Err(e.kind());
        },
    }
    let output_cell_data = match load_cell_data(tx, script_hash, Source::Output) {
        Ok(data) => data,
        Err(e) => {
            return Err(e);
        },
    };
    let output = match check_cell_data(&output_cell_data) {
        Ok(record) => record,
        Err(e) => {
            return Err(e);
        },
    };
    check_create(&output)
}

/// Validates the update of the record whose type hash is `script_hash`.
pub fn update(tx: &TransactionView, script_hash: [u8; 32]) -> (result: Result<(), Error>)
    ensures
        result == update_verdict(tx@, script_hash@),
{
    if get_script_hash_cell_count(tx, script_hash, Source::Input) != 1 {
        return Err(Error::InvalidInput);
    }
    if get_script_hash_cell_count(tx, script_hash, Source::Output) != 1 {
        return Err(Error::InvalidOutput);
    }
    match check_args_when_update_cell(tx, script_hash) {
        Ok(()) => {},
        Err(e) => {
            return Err(e.kind());
        },
    }
    let input_cell_data = match load_cell_data(tx, script_hash, Source::Input) {
        Ok(data) => data,
        Err(e) => {
            return Err(e);
        },
    };
    let input = match check_cell_data(&input_cell_data) {
        Ok(record) => record,
        Err(e) => {
            return Err(e);
        },
    };
    let output_cell_data = match load_cell_data(tx, script_hash, Source::Output) {
        Ok(data) => data,
        Err(e) => {
            return Err(e);
        },
    };
    let output = match check_cell_data(&output_cell_data) {
        Ok(record) => record,
        Err(e) => {
            return Err(e);
        },
    };
    check_update(&input, &output)
}

/// Tells a creation from an update.
pub fn classify(tx: &TransactionView) -> (transition: Transition)
    ensures
        transition == classification(tx@),
{
    match get_position_of_cell_with_type_script(tx, tx.script_hash, Source::Input) {
        Some(_) => Transition::Update,
        None => Transition::Create,
    }
}

/// Validates a transaction on behalf of the running script.
pub fn validate(tx: &TransactionView) -> (result: Result<(), Error>)
    ensures
        result == verdict(tx@),
{
    match classify(tx) {
        Transition::Update => update(tx, tx.script_hash),
        Transition::Create => create(tx, tx.script_hash),
    }
}

/// A transaction is an update exactly when it consumes at least one entry
/// that carries the hash of the running script.
pub proof fn lemma_classification_counts(tx: TransactionSpec)
    ensures
        classification(tx) == Transition::Update <==> matching_count(tx.inputs, tx.script_hash)
            > 0,
        classification(tx) == Transition::Create <==> matching_count(tx.inputs, tx.script_hash)
            == 0,
{
    lemma_count_zero(tx.inputs, tx.script_hash);
}

/// A creation is accepted exactly when one produced entry carries the hash,
/// the identity tag is the serialized reference of the first consumed input,
/// and the payload of that entry is the counter zero followed by the modulus.
pub proof fn lemma_create_accepted(tx: TransactionSpec, hash: Seq<u8>)
    ensures
        create_verdict(tx, hash) is Ok <==> {
            &&& matching_count(tx.outputs, hash) == 1
            &&& tx.script_args == tx.first_input_reference
            &&& first_match(tx.outputs, hash) matches Some(j)
            &&& tx.outputs[j].data == seq![0u8, TIME_INDEX_CELL_DATA_N]
        },
{
    if create_verdict(tx, hash) is Ok {
        let j = first_match(tx.outputs, hash)->Some_0;
        assert(tx.outputs[j].data =~= seq![0u8, TIME_INDEX_CELL_DATA_N]);
    }
}

/// An update is accepted exactly when one consumed and one produced entry
/// carry the hash, the identity tag is not empty and is the tag of that
/// consumed entry, both payloads are well formed, and the produced counter is
/// the consumed counter plus one, modulo the modulus.
pub proof fn lemma_update_accepted(tx: TransactionSpec, hash: Seq<u8>)
    ensures
        update_verdict(tx, hash) is Ok <==> {
            &&& matching_count(tx.inputs, hash) == 1
            &&& matching_count(tx.outputs, hash) == 1
            &&& tx.script_args.len() > 0
            &&& first_match(tx.inputs, hash) matches Some(i)
            &&& first_match(tx.outputs, hash) matches Some(j)
            &&& tx.inputs[i].type_args == Some(tx.script_args)
            &&& decode(tx.inputs[i].data) matches Ok(input)
            &&& decode(tx.outputs[j].data) matches Ok(output)
            &&& output.index == (input.index + 1) % (TIME_INDEX_CELL_DATA_N as int)
        },
{
}

/// Each rejection of a creation, with the transactions on which it comes.
pub proof fn lemma_create_rejected(tx: TransactionSpec, hash: Seq<u8>)
    ensures
        create_verdict(tx, hash) == Err::<(), Error>(Error::InvalidOutput) <==> matching_count(
            tx.outputs,
            hash,
        ) != 1,
        create_verdict(tx, hash) == Err::<(), Error>(Error::InvalidArgument) <==> {
            &&& matching_count(tx.outputs, hash) == 1
            &&& tx.script_args != tx.first_input_reference
        },
        create_verdict(tx, hash) == Err::<(), Error>(Error::MalformedRecord) <==> {
            &&& matching_count(tx.outputs, hash) == 1
            &&& tx.script_args == tx.first_input_reference
            &&& first_match(tx.outputs, hash) matches Some(j)
            &&& decode(tx.outputs[j].data) is Err
        },
        create_verdict(tx, hash) == Err::<(), Error>(Error::InvalidTransition) <==> {
            &&& matching_count(tx.outputs, hash) == 1
            &&& tx.script_args == tx.first_input_reference
            &&& first_match(tx.outputs, hash) matches Some(j)
            &&& decode(tx.outputs[j].data) matches Ok(output)
            &&& output.index != 0
        },
        create_verdict(tx, hash) != Err::<(), Error>(Error::InvalidInput),
        create_verdict(tx, hash) != Err::<(), Error>(Error::RecordNotFound),
{
    if matching_count(tx.outputs, hash) == 1 {
        lemma_count_one(tx.outputs, hash);
    }
}

/// Each rejection of an update, with the transactions on which it comes.
pub proof fn lemma_update_rejected(tx: TransactionSpec, hash: Seq<u8>)
    ensures
        update_verdict(tx, hash) == Err::<(), Error>(Error::InvalidInput) <==> matching_count(
            tx.inputs,
            hash,
        ) != 1,
        update_verdict(tx, hash) == Err::<(), Error>(Error::InvalidOutput) <==> {
            &&& matching_count(tx.inputs, hash) == 1
            &&& matching_count(tx.outputs, hash) != 1
        },
        update_verdict(tx, hash) == Err::<(), Error>(Error::InvalidArgument) <==> {
            &&& matching_count(tx.inputs, hash) == 1
            &&& matching_count(tx.outputs, hash) == 1
            &&& first_match(tx.inputs, hash) matches Some(i)
            &&& {
                ||| tx.script_args.len() == 0
                ||| tx.inputs[i].type_args matches Some(args) && args != tx.script_args
            }
        },
        update_verdict(tx, hash) == Err::<(), Error>(Error::RecordNotFound) <==> {
            &&& matching_count(tx.inputs, hash) == 1
            &&& matching_count(tx.outputs, hash) == 1
            &&& tx.script_args.len() > 0
            &&& first_match(tx.inputs, hash) matches Some(i)
            &&& tx.inputs[i].type_args is None
        },
        update_verdict(tx, hash) == Err::<(), Error>(Error::MalformedRecord) <==> {
            &&& matching_count(tx.inputs, hash) == 1
            &&& matching_count(tx.outputs, hash) == 1
            &&& kept_on_update(tx, hash) is Ok
            &&& first_match(tx.inputs, hash) matches Some(i)
            &&& first_match(tx.outputs, hash) matches Some(j)
            &&& {
                ||| decode(tx.inputs[i].data) is Err
                ||| decode(tx.outputs[j].data) is Err
            }
        },
        update_verdict(tx, hash) == Err::<(), Error>(Error::InvalidTransition) <==> {
            &&& matching_count(tx.inputs, hash) == 1
            &&& matching_count(tx.outputs, hash) == 1
            &&& kept_on_update(tx, hash) is Ok
            &&& first_match(tx.inputs, hash) matches Some(i)
            &&& first_match(tx.outputs, hash) matches Some(j)
            &&& decode(tx.inputs[i].data) matches Ok(input)
            &&& decode(tx.outputs[j].data) matches Ok(output)
            &&& output.index != (input.index + 1) % (TIME_INDEX_CELL_DATA_N as int)
        },
{
    if matching_count(tx.inputs, hash) == 1 && matching_count(tx.outputs, hash) == 1 {
        lemma_count_one(tx.inputs, hash);
        lemma_count_one(tx.outputs, hash);
    }
}

/// The verdict is a function of what the transaction holds: two views with
/// the same content get the same verdict, however often they are validated.
pub proof fn lemma_verdict_repeats(first: TransactionView, second: TransactionView)
    requires
        first@ == second@,
    ensures
        verdict(first@) == verdict(second@),
        classification(first@) == classification(second@),
{
}

/// An accepted transaction leaves exactly one produced entry that carries the
/// hash of the running script, and its payload holds a well-formed record.
pub proof fn lemma_accepted_leaves_one_record(tx: TransactionSpec)
    requires
        verdict(tx) is Ok,
    ensures
        matching_count(tx.outputs, tx.script_hash) == 1,
        matching_record(tx.outputs, tx.script_hash, Source::Output) matches Ok(record)
            && record.wf(),
{
}

} // verus!
