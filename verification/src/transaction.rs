//! The transaction under validation, as an immutable snapshot of plain values.

use vstd::prelude::*;

verus! {

/// A side of the transaction.
#[derive(Clone, Copy, Debug, PartialEq, Eq, Structural)]
pub enum Source {
    /// The entries that the transaction consumes.
    Input,
    /// The entries that the transaction produces.
    Output,
}

/// One entry on a side of the transaction.
///
/// On the ledger an entry has a type hash and type args together or not at
/// all. Validation does not rest on that: it is decided for every value of
/// this type.
#[derive(Clone, Debug)]
pub struct Cell {
    /// The hash of the type script attached to the entry, if it has one.
    pub type_hash: Option<[u8; 32]>,
    /// The configuration argument of that type script, if the entry has one.
    pub type_args: Option<Vec<u8>>,
    /// The raw payload of the entry.
    pub data: Vec<u8>,
}

/// What a [`Cell`] holds, as mathematical values.
pub ghost struct CellSpec {
    pub type_hash: Option<Seq<u8>>,
    pub type_args: Option<Seq<u8>>,
    pub data: Seq<u8>,
}

impl View for Cell {
    type V = CellSpec;

    open spec fn view(&self) -> CellSpec {
        CellSpec {
            type_hash: match self.type_hash {
                Some(hash) => Some(hash@),
                None => None,
            },
            type_args: match self.type_args {
                Some(args) => Some(args@),
                None => None,
            },
            data: self.data@,
        }
    }
}

/// Everything the validator reads of one invocation: the script that is
/// running and the two sides of the transaction.
#[derive(Clone, Debug)]
pub struct TransactionView {
    /// The hash of the type script that is running.
    pub script_hash: [u8; 32],
    /// The identity tag: the configuration argument of the running script.
    pub script_args: Vec<u8>,
    /// The serialized reference of the first consumed input.
    pub first_input_reference: Vec<u8>,
    /// The consumed entries, in order.
    pub inputs: Vec<Cell>,
    /// The produced entries, in order.
    pub outputs: Vec<Cell>,
}

/// What a [`TransactionView`] holds, as mathematical values.
pub ghost struct TransactionSpec {
    pub script_hash: Seq<u8>,
    pub script_args: Seq<u8>,
    pub first_input_reference: Seq<u8>,
    pub inputs: Seq<CellSpec>,
    pub outputs: Seq<CellSpec>,
}

impl View for TransactionView {
    type V = TransactionSpec;

    open spec fn view(&self) -> TransactionSpec {
        TransactionSpec {
            script_hash: self.script_hash@,
            script_args: self.script_args@,
            first_input_reference: self.first_input_reference@,
            inputs: Seq::new(self.inputs@.len(), |i: int| self.inputs@[i]@),
            outputs: Seq::new(self.outputs@.len(), |i: int| self.outputs@[i]@),
        }
    }
}

impl TransactionSpec {
    /// The entries on one side.
    pub open spec fn cells(self, source: Source) -> Seq<CellSpec> {
        match source {
            Source::Input => self.inputs,
            Source::Output => self.outputs,
        }
    }
}

impl TransactionView {
    /// The entries on one side.
    pub fn cells(&self, source: Source) -> (cells: &Vec<Cell>)
        ensures
            source == Source::Input ==> *cells == self.inputs,
            source == Source::Output ==> *cells == self.outputs,
            cells@.len() == self@.cells(source).len(),
            forall|i: int|
                0 <= i < cells@.len() ==> (#[trigger] cells@[i])@ == self@.cells(source)[i],
    {
        match source {
            Source::Input => &self.inputs,
            Source::Output => &self.outputs,
        }
    }
}

/// Whether two byte strings are identical, byte for byte.
pub fn bytes_equal(a: &[u8], b: &[u8]) -> (same: bool)
    ensures
        same == (a@ == b@),
{
    if a.len() != b.len() {
        return false;
    }
    let mut i: usize = 0;
    while i < a.len()
        invariant
            a@.len() == b@.len(),
            i <= a@.len(),
            forall|j: int| 0 <= j < i ==> a@[j] == b@[j],
        decreases a@.len() - i,
    {
        if a[i] != b[i] {
            return false;
        }
        i += 1;
    }
    assert(a@ =~= b@);
    true
}

} // verus!
