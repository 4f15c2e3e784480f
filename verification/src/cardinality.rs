//! Counting and locating the entries that carry a given type hash.

use vstd::prelude::*;
use crate::error::Error;
use crate::transaction::{bytes_equal, Cell, CellSpec, Source, TransactionView};

verus! {

/// An entry carries `hash` when it has a type hash and that hash is `hash`.
/// An entry without a type hash carries nothing.
pub open spec fn carries(cell: CellSpec, hash: Seq<u8>) -> bool {
    cell.type_hash == Some(hash)
}

/// The number of entries that carry `hash`.
pub open spec fn matching_count(cells: Seq<CellSpec>, hash: Seq<u8>) -> nat {
    cells.filter(|cell: CellSpec| carries(cell, hash)).len()
}

/// Some entry carries `hash`.
pub open spec fn has_match(cells: Seq<CellSpec>, hash: Seq<u8>) -> bool {
    exists|i: int| 0 <= i < cells.len() && carries(#[trigger] cells[i], hash)
}

/// The entry at `i` carries `hash` and none before it does.
pub open spec fn is_first_match(cells: Seq<CellSpec>, hash: Seq<u8>, i: int) -> bool {
    &&& 0 <= i < cells.len()
    &&& carries(cells[i], hash)
    &&& forall|j: int| 0 <= j < i ==> !carries(#[trigger] cells[j], hash)
}

/// The entry at `i` carries `hash` and no other entry does.
pub open spec fn is_only_match(cells: Seq<CellSpec>, hash: Seq<u8>, i: int) -> bool {
    &&& 0 <= i < cells.len()
    &&& carries(cells[i], hash)
    &&& forall|j: int| 0 <= j < cells.len() && j != i ==> !carries(#[trigger] cells[j], hash)
}

/// The position of the first entry that carries `hash`, if there is one.
pub open spec fn first_match(cells: Seq<CellSpec>, hash: Seq<u8>) -> Option<int> {
    if has_match(cells, hash) {
        Some(choose|i: int| is_first_match(cells, hash, i))
    } else {
        None
    }
}

/// The payload of the first entry that carries `hash`; where no entry does,
/// the rejection that belongs to the side.
pub open spec fn matching_payload(
    cells: Seq<CellSpec>,
    hash: Seq<u8>,
    source: Source,
) -> Result<Seq<u8>, Error> {
    match first_match(cells, hash) {
        Some(i) => Ok(cells[i].data),
        None => match source {
            Source::Input => Err(Error::InvalidInput),
            Source::Output => Err(Error::InvalidOutput),
        },
    }
}

/// A first match is the only first match.
pub proof fn lemma_first_match_unique(cells: Seq<CellSpec>, hash: Seq<u8>, i: int)
    requires
        is_first_match(cells, hash, i),
    ensures
        first_match(cells, hash) == Some(i),
{
    let k = choose|k: int| is_first_match(cells, hash, k);
    assert(!(k < i) && !(i < k));
}

/// Where some entry carries `hash`, one of them is the first.
pub proof fn lemma_first_match_exists(cells: Seq<CellSpec>, hash: Seq<u8>)
    requires
        has_match(cells, hash),
    ensures
        first_match(cells, hash) matches Some(i) && is_first_match(cells, hash, i),
    decreases cells.len(),
{
    let w = choose|i: int| 0 <= i < cells.len() && carries(#[trigger] cells[i], hash);
    let front = cells.take(w);
    let first = if has_match(front, hash) {
        lemma_first_match_exists(front, hash);
        first_match(front, hash)->Some_0
    } else {
        w
    };
    assert forall|j: int| 0 <= j < first implies !carries(#[trigger] cells[j], hash) by {
        assert(front[j] == cells[j]);
    }
    lemma_first_match_unique(cells, hash, first);
}

/// Counting one entry more: the count grows by one exactly when the added
/// entry carries `hash`.
pub proof fn lemma_count_push(cells: Seq<CellSpec>, cell: CellSpec, hash: Seq<u8>)
    ensures
        carries(cell, hash) ==> matching_count(cells.push(cell), hash) == matching_count(
            cells,
            hash,
        ) + 1,
        !carries(cell, hash) ==> matching_count(cells.push(cell), hash) == matching_count(
            cells,
            hash,
        ),
{
    reveal_with_fuel(Seq::filter, 2);
    assert(cells.push(cell).drop_last() =~= cells);
}

/// The count is zero exactly when no entry carries `hash`.
pub proof fn lemma_count_zero(cells: Seq<CellSpec>, hash: Seq<u8>)
    ensures
        matching_count(cells, hash) == 0 <==> !has_match(cells, hash),
    decreases cells.len(),
{
    if cells.len() == 0 {
        reveal_with_fuel(Seq::filter, 1);
    } else {
        let front = cells.drop_last();
        assert(front.push(cells.last()) =~= cells);
        lemma_count_zero(front, hash);
        lemma_count_push(front, cells.last(), hash);
        if has_match(front, hash) {
            let w = choose|i: int| 0 <= i < front.len() && carries(#[trigger] front[i], hash);
            assert(carries(cells[w], hash));
        }
        if has_match(cells, hash) && !carries(cells.last(), hash) {
            let w = choose|i: int| 0 <= i < cells.len() && carries(#[trigger] cells[i], hash);
            assert(carries(front[w], hash));
        }
    }
}

/// Where exactly one entry carries `hash`, it stands at the first match and
/// no other position carries `hash`.
pub proof fn lemma_count_one(cells: Seq<CellSpec>, hash: Seq<u8>)
    requires
        matching_count(cells, hash) == 1,
    ensures
        first_match(cells, hash) matches Some(i) && is_only_match(cells, hash, i),
    decreases cells.len(),
{
    lemma_count_zero(cells, hash);
    lemma_first_match_exists(cells, hash);
    let i = first_match(cells, hash)->Some_0;
    let front = cells.drop_last();
    let last = cells.last();
    assert(front.push(last) =~= cells);
    lemma_count_push(front, last, hash);
    lemma_count_zero(front, hash);
    if !carries(last, hash) {
        lemma_count_one(front, hash);
    }
    assert forall|j: int| 0 <= j < cells.len() && j != i implies !carries(
        #[trigger] cells[j],
        hash,
    ) by {
        if j < front.len() {
            assert(front[j] == cells[j]);
        }
        if i < front.len() {
            assert(front[i] == cells[i]);
        }
    }
}

/// Where one entry carries `hash` and no other does, the count is one.
pub proof fn lemma_only_match_counts_one(cells: Seq<CellSpec>, hash: Seq<u8>, i: int)
    requires
        is_only_match(cells, hash, i),
    ensures
        matching_count(cells, hash) == 1,
    decreases cells.len(),
{
    let front = cells.drop_last();
    let last = cells.last();
    assert(front.push(last) =~= cells);
    lemma_count_push(front, last, hash);
    if i == cells.len() - 1 {
        lemma_count_zero(front, hash);
        if has_match(front, hash) {
            let w = choose|w: int| 0 <= w < front.len() && carries(#[trigger] front[w], hash);
            assert(carries(cells[w], hash));
        }
    } else {
        assert forall|j: int| 0 <= j < front.len() && j != i implies !carries(
            #[trigger] front[j],
            hash,
        ) by {
            assert(front[j] == cells[j]);
        }
        lemma_only_match_counts_one(front, hash, i);
    }
}

/// Whether the entry carries `script_hash`.
pub fn cell_carries(cell: &Cell, script_hash: &[u8; 32]) -> (found: bool)
    ensures
        found == carries(cell@, script_hash@),
{
    match &cell.type_hash {
        Some(type_hash) => bytes_equal(type_hash.as_slice(), script_hash.as_slice()),
        None => false,
    }
}

/// Counts the entries on one side whose type hash is `script_hash`.
pub fn get_script_hash_cell_count(
    tx: &TransactionView,
    script_hash: [u8; 32],
    source: Source,
) -> (count: usize)
    ensures
        count == matching_count(tx@.cells(source), script_hash@),
{
    let cells = tx.cells(source);
    let ghost all = tx@.cells(source);
    let mut count: usize = 0;
    let mut i: usize = 0;
    while i < cells.len()
        invariant
            i <= cells@.len(),
            cells@.len() == all.len(),
            forall|j: int| 0 <= j < cells@.len() ==> (#[trigger] cells@[j])@ == all[j],
            count <= i,
            count == matching_count(all.take(i as int), script_hash@),
        decreases cells@.len() - i,
    {
        proof {
            lemma_count_push(all.take(i as int), all[i as int], script_hash@);
            assert(all.take(i as int).push(all[i as int]) =~= all.take(i + 1));
        }
        if cell_carries(&cells[i], &script_hash) {
            count += 1;
        }
        i += 1;
    }
    assert(all.take(i as int) =~= all);
    count
}

/// Finds the first entry on one side whose type hash is `script_hash`.
pub fn get_position_of_cell_with_type_script(
    tx: &TransactionView,
    script_hash: [u8; 32],
    source: Source,
) -> (position: Option<usize>)
    ensures
        match position {
            Some(i) => first_match(tx@.cells(source), script_hash@) == Some(i as int),
            None => first_match(tx@.cells(source), script_hash@) is None,
        },
        position matches Some(i) ==> is_first_match(tx@.cells(source), script_hash@, i as int),
{
    let cells = tx.cells(source);
    let ghost all = tx@.cells(source);
    let mut i: usize = 0;
    while i < cells.len()
        invariant
            all == tx@.cells(source),
            i <= cells@.len(),
            cells@.len() == all.len(),
            forall|j: int| 0 <= j < cells@.len() ==> (#[trigger] cells@[j])@ == all[j],
            forall|j: int| 0 <= j < i ==> !carries(#[trigger] all[j], script_hash@),
        decreases cells@.len() - i,
    {
        if cell_carries(&cells[i], &script_hash) {
            proof {
                lemma_first_match_unique(all, script_hash@, i as int);
            }
            return Some(i);
        }
        i += 1;
    }
    None
}

/// Hands out the payload of the first entry on one side whose type hash is
/// `script_hash`. Where the side holds no such entry, the rejection names the
/// side.
pub fn load_cell_data(
    tx: &TransactionView,
    script_hash: [u8; 32],
    source: Source,
) -> (data: Result<Vec<u8>, Error>)
    ensures
        match matching_payload(tx@.cells(source), script_hash@, source) {
            Ok(payload) => data matches Ok(bytes) && bytes@ == payload,
            Err(e) => data == Err::<Vec<u8>, Error>(e),
        },
{
    match get_position_of_cell_with_type_script(tx, script_hash, source) {
        Some(position) => {
            let cells = tx.cells(source);
            Ok(cells[position].data.clone())
        },
        None => match source {
            Source::Input => Err(Error::InvalidInput),
            Source::Output => Err(Error::InvalidOutput),
        },
    }
}

} // verus!
