//! Lock-free cells, held to contracts.
//!
//! The phase counter of a probe context and the installed shadow snapshot
//! of a capability echo are updated without a mutex, so that the update
//! path stays branch-timing-invariant. The cells come from the crossbeam
//! crate; each operation the engine uses stands behind a contract over the
//! named cell contents. Every mutating wrapper takes the cell exclusively,
//! so the named contents are well defined at each call.

use vstd::prelude::*;
use crossbeam::atomic::AtomicCell;

verus! {

#[verifier::external_type_specification]
#[verifier::external_body]
#[verifier::reject_recursive_types(T)]
pub struct ExAtomicCell<T>(AtomicCell<T>);

/// The counter a phase cell holds.
pub uninterp spec fn phase_value(c: AtomicCell<u64>) -> u64;

/// The words an installed shadow snapshot holds.
pub uninterp spec fn snapshot_words(c: AtomicCell<[u64; 8]>) -> Seq<u64>;

/// Relies on crossbeam's `AtomicCell::new`: the fresh cell holds exactly
/// the value it was built from.
#[verifier::external_body]
pub fn phase_cell_new(v: u64) -> (c: AtomicCell<u64>)
    ensures
        phase_value(c) == v,
{
    AtomicCell::new(v)
}

/// Relies on crossbeam's `AtomicCell::load`: the cell hands back the value
/// it holds; no caller of this crate can write it concurrently, since every
/// writing wrapper borrows the cell exclusively.
#[verifier::external_body]
pub fn phase_cell_load(c: &AtomicCell<u64>) -> (v: u64)
    ensures
        v == phase_value(*c),
{
    c.load()
}

/// Relies on crossbeam's `AtomicCell::fetch_add`: one atomic increment that
/// wraps at the top of the range and returns the previous value.
#[verifier::external_body]
pub fn phase_cell_bump(c: &mut AtomicCell<u64>) -> (prev: u64)
    ensures
        prev == phase_value(*old(c)),
        phase_value(*final(c)) == (if prev == u64::MAX {
            0u64
        } else {
            (prev + 1) as u64
        }),
{
    c.fetch_add(1)
}

/// Relies on crossbeam's `AtomicCell::new`: the fresh snapshot cell holds
/// exactly the words it was built from.
#[verifier::external_body]
pub fn snapshot_cell_new(words: [u64; 8]) -> (c: AtomicCell<[u64; 8]>)
    ensures
        snapshot_words(c) == words@,
{
    AtomicCell::new(words)
}

/// Relies on crossbeam's `AtomicCell::load`: the cell hands back the words
/// it holds, as one torn-free snapshot.
#[verifier::external_body]
pub fn snapshot_cell_load(c: &AtomicCell<[u64; 8]>) -> (words: [u64; 8])
    ensures
        words@ == snapshot_words(*c),
{
    c.load()
}

/// Relies on crossbeam's `AtomicCell::store`: the cell holds the new words
/// afterwards; the previous snapshot is dropped inside the cell, never
/// observed torn.
#[verifier::external_body]
pub fn snapshot_cell_store(c: &mut AtomicCell<[u64; 8]>, words: [u64; 8])
    ensures
        snapshot_words(*final(c)) == words@,
{
    c.store(words)
}

} // verus!
