//! The payload of a time index cell: two bytes, the counter and the modulus.

use vstd::prelude::*;
use crate::error::Error;

verus! {

/// The length in bytes of a payload.
pub const TIME_INDEX_CELL_DATA_LEN: u8 = 2;

/// The modulus: the number of positions in the cycle. Every payload repeats
/// it as a self-check.
pub const TIME_INDEX_CELL_DATA_N: u8 = 12;

/// The state that a time index cell carries.
#[derive(Clone, Copy, Debug, PartialEq, Eq, Structural)]
pub struct Record {
    /// The current position in the cycle.
    pub index: u8,
    /// The self-check value stored beside the counter.
    pub modulus: u8,
}

impl Record {
    /// A record is well formed when its counter lies in the cycle and its
    /// self-check value is the modulus.
    pub open spec fn wf(self) -> bool {
        &&& self.index < TIME_INDEX_CELL_DATA_N
        &&& self.modulus == TIME_INDEX_CELL_DATA_N
    }

    /// The payload that holds this record.
    pub open spec fn payload(self) -> Seq<u8> {
        seq![self.index, self.modulus]
    }

    /// The record at position `index`, if that position lies in the cycle.
    pub fn new(index: u8) -> (record: Option<Record>)
        ensures
            index < TIME_INDEX_CELL_DATA_N ==> record == Some(
                Record { index, modulus: TIME_INDEX_CELL_DATA_N },
            ),
            index >= TIME_INDEX_CELL_DATA_N ==> record is None,
            record matches Some(r) ==> r.wf(),
    {
        if index < TIME_INDEX_CELL_DATA_N {
            Some(Record { index, modulus: TIME_INDEX_CELL_DATA_N })
        } else {
            None
        }
    }

    /// Writes the record as a payload.
    pub fn encode(&self) -> (data: Vec<u8>)
        ensures
            data@ == self.payload(),
            self.wf() ==> decode(data@) == Ok::<Record, Error>(*self),
    {
        let mut data: Vec<u8> = Vec::new();
        data.push(self.index);
        data.push(self.modulus);
        data
    }
}

/// A payload is well formed when it has exactly two bytes, the first a
/// position in the cycle and the second the modulus.
pub open spec fn well_formed(data: Seq<u8>) -> bool {
    &&& data.len() == TIME_INDEX_CELL_DATA_LEN
    &&& data[0] < TIME_INDEX_CELL_DATA_N
    &&& data[1] == TIME_INDEX_CELL_DATA_N
}

/// What a payload holds: the record, if the payload is well formed.
pub open spec fn decode(data: Seq<u8>) -> Result<Record, Error> {
    if well_formed(data) {
        Ok(Record { index: data[0], modulus: data[1] })
    } else {
        Err(Error::MalformedRecord)
    }
}

/// Reads a payload: all of it is checked, or nothing is accepted.
pub fn check_cell_data(data: &Vec<u8>) -> (record: Result<Record, Error>)
    ensures
        record == decode(data@),
        record matches Ok(r) ==> r.wf() && r.payload() == data@,
{
    if data.len() != TIME_INDEX_CELL_DATA_LEN as usize {
        return Err(Error::MalformedRecord);
    }
    let index: u8 = data[0];
    let modulus: u8 = data[1];
    if index >= TIME_INDEX_CELL_DATA_N || modulus != TIME_INDEX_CELL_DATA_N {
        return Err(Error::MalformedRecord);
    }
    Ok(Record { index, modulus })
}

/// Every record that `decode` accepts is well formed, and its payload is the
/// one that was read.
pub proof fn lemma_decode_wf(data: Seq<u8>)
    ensures
        decode(data) matches Ok(record) ==> record.wf() && record.payload() == data,
        decode(data) matches Err(e) ==> e == Error::MalformedRecord,
{
}

/// Writing a well-formed record and reading the payload back gives the same
/// record, for every position in the cycle.
pub proof fn lemma_encode_decode(record: Record)
    requires
        record.wf(),
    ensures
        decode(record.payload()) == Ok::<Record, Error>(record),
{
}

} // verus!
