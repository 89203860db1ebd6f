//! What holds of one update of the lock file, from the content that was
//! read to the content that is read next.

use crate::identity::Identity;
use crate::lock_logic::retain_live;
use crate::lock_proofs::{
    lemma_after_operation_contains, lemma_after_operation_no_duplicates,
    lemma_dead_entry_reclaimed, lemma_retain_live_no_duplicates,
};
use crate::registry::{registry_of, registry_text};
use crate::store::next_registry;
use crate::registry_proofs::{lemma_registry_is_a_set, lemma_registry_round_trip};
use vstd::prelude::*;

verus! {

/// Whoever reads the lock file after an update finds the very registry that
/// the update computed, and finds nothing in it twice.
pub proof fn lemma_update_is_read_back(
    content: Seq<u8>,
    alive: Seq<bool>,
    me: Identity,
    add: bool,
)
    requires
        alive.len() == registry_of(content).len(),
    ensures
        registry_of(registry_text(next_registry(content, alive, me, add))) == next_registry(
            content,
            alive,
            me,
            add,
        ),
        next_registry(content, alive, me, add).no_duplicates(),
{
    let before = registry_of(content);
    let live = retain_live(before, alive, me);
    lemma_registry_is_a_set(content);
    lemma_retain_live_no_duplicates(before, alive, me);
    lemma_after_operation_no_duplicates(live, me, add);
    lemma_registry_round_trip(next_registry(content, alive, me, add));
}

/// After an update the lock file records the caller exactly if the caller
/// acquired: whatever the file held before, and whatever the probes said.
pub proof fn lemma_own_identity_recorded(
    content: Seq<u8>,
    alive: Seq<bool>,
    me: Identity,
    add: bool,
)
    requires
        alive.len() == registry_of(content).len(),
    ensures
        registry_of(registry_text(next_registry(content, alive, me, add))).contains(me) <==> add,
{
    lemma_update_is_read_back(content, alive, me, add);
    lemma_after_operation_contains(retain_live(registry_of(content), alive, me), me, add, me);
}

/// An identity whose every probe reported it dead is absent from the lock
/// file after the next update by another process.
pub proof fn lemma_stale_identity_reclaimed(
    content: Seq<u8>,
    alive: Seq<bool>,
    me: Identity,
    add: bool,
    dead: Identity,
)
    requires
        alive.len() == registry_of(content).len(),
        dead != me,
        forall|i: int|
            0 <= i < registry_of(content).len() && #[trigger] registry_of(content)[i] == dead
                ==> !alive[i],
    ensures
        !registry_of(registry_text(next_registry(content, alive, me, add))).contains(dead),
{
    lemma_update_is_read_back(content, alive, me, add);
    lemma_dead_entry_reclaimed(registry_of(content), alive, me, add, dead);
}

} // verus!
