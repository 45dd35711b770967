//! The locked portion of a worker's cycle: acquire the cell, append one
//! tagged entry, release.

use vstd::prelude::*;

verus! {

use crate::cell::Mewtex;
use crate::protocol::run_update_cycles;

/// One full cycle on a cell of entries: acquires the cell, appends `tag`,
/// and releases. The cell ends open, holding exactly its old entries with
/// `tag` appended.
pub fn append_entry(cell: &mut Mewtex<Vec<String>>, tag: String)
    requires
        old(cell)@ is Some,
    ensures
        final(cell)@ is Some,
        final(cell)@.unwrap()@ == old(cell)@.unwrap()@.push(tag),
{
    let mut token = cell.lock();
    token.deref_mut().push(tag);
    token.release(cell);
}

/// Runs one append cycle per tag, in order: the cell ends open, holding its
/// old entries followed by every tag — none lost, none duplicated.
pub fn append_entries(cell: &mut Mewtex<Vec<String>>, tags: Vec<String>)
    requires
        old(cell)@ is Some,
    ensures
        final(cell)@ is Some,
        final(cell)@.unwrap()@ == run_update_cycles(old(cell)@.unwrap()@, tags@),
{
    let ghost initial_entries: Seq<String> = cell@.unwrap()@;
    let ghost scheduled: Seq<String> = tags@;
    let mut remaining = tags;
    while remaining.len() > 0
        invariant
            cell@ is Some,
            run_update_cycles(cell@.unwrap()@, remaining@) == run_update_cycles(
                initial_entries,
                scheduled,
            ),
        decreases remaining.len(),
    {
        let ghost pending: Seq<String> = remaining@;
        let tag = remaining.remove(0);
        proof {
            assert(remaining@ =~= pending.drop_first());
        }
        append_entry(cell, tag);
    }
}

} // verus!
