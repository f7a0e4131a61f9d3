//! What a chunk lookup in a TOC resource answers, over all resources and chunk ids.

use vstd::prelude::*;
use super::chunk::IoChunkId;
use super::resource::{TocResourceView, index_from, lookup, seed_slot, hashed_slot};

verus! {

/// A scan from `i` finds the first position from `i` on that holds `id`, where there is one.
proof fn lemma_index_from(ids: Seq<IoChunkId>, id: IoChunkId, i: int)
    requires 0 <= i <= ids.len(),
    ensures
        index_from(ids, id, i) matches Some(j) ==> i <= j < ids.len() && ids[j] == id,
        (exists|j: int| i <= j < ids.len() && ids[j] == id) ==> index_from(ids, id, i) is Some,
    decreases ids.len() - i,
{
    if i < ids.len() {
        lemma_index_from(ids, id, i + 1);
        if ids[i] != id {
            if exists|j: int| i <= j < ids.len() && ids[j] == id {
                let j = choose|j: int| i <= j < ids.len() && ids[j] == id;
                assert(i + 1 <= j);
            }
        }
    }
}

/// A chunk lookup answers with the offset and length of an entry that holds the chunk id, and
/// only then; under a seed that is not zero, every chunk id that the container holds is found,
/// whether or not the slot that the seed hashes to holds it; under a zero seed nothing is.
pub proof fn lemma_lookup_finds_held_chunks(v: TocResourceView, id: IoChunkId)
    requires
        v.chunk_offsets_lengths.len() >= v.chunk_ids.len(),
        v.chunk_perfect_hash_seeds.len() > 0,
    ensures
        lookup(v, id) matches Some(o) ==> exists|j: int| 0 <= j < v.chunk_ids.len() && v.chunk_ids[j] == id
            && o == v.chunk_offsets_lengths[j],
        v.chunk_ids.contains(id)
            && v.chunk_perfect_hash_seeds[seed_slot(id, v.chunk_perfect_hash_seeds.len() as int)] != 0
            ==> lookup(v, id) is Some,
        v.chunk_perfect_hash_seeds[seed_slot(id, v.chunk_perfect_hash_seeds.len() as int)] == 0 ==> lookup(v, id) is None,
{
    lemma_index_from(v.chunk_ids, id, 0);
    if v.chunk_ids.contains(id) {
        let j = choose|j: int| 0 <= j < v.chunk_ids.len() && v.chunk_ids[j] == id;
        assert(exists|k: int| 0 <= k < v.chunk_ids.len() && v.chunk_ids[k] == id);
    }
    let seed = v.chunk_perfect_hash_seeds[seed_slot(id, v.chunk_perfect_hash_seeds.len() as int)];
    if seed != 0 {
        let slot = hashed_slot(v, id, seed);
        if slot < v.chunk_ids.len() && v.chunk_ids[slot] == id {
            assert(0 <= slot);
        } else {
            match index_from(v.chunk_ids, id, 0) {
                Some(k) => {},
                None => {},
            }
        }
    }
}

} // verus!
