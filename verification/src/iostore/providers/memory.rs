//! IoStore .ucas file provider using in-memory data

use vstd::prelude::*;
use crate::archive::ByteReader;
use crate::error::{Error, IoStoreError};

verus! {

/// The data of the last mapping named `name`.
pub open spec fn lookup(s: Seq<(Seq<char>, Seq<u8>)>, name: Seq<char>) -> Option<Seq<u8>>
    decreases s.len(),
{
    if s.len() == 0 {
        None
    } else if s.last().0 == name {
        Some(s.last().1)
    } else {
        lookup(s.drop_last(), name)
    }
}

/// The mappings without those named `name`.
pub open spec fn without(s: Seq<(Seq<char>, Seq<u8>)>, name: Seq<char>) -> Seq<(Seq<char>, Seq<u8>)>
    decreases s.len(),
{
    if s.len() == 0 {
        s
    } else if s.last().0 == name {
        without(s.drop_last(), name)
    } else {
        without(s.drop_last(), name).push(s.last())
    }
}

/// Removing the mappings of a name forgets it and keeps the others.
pub proof fn lemma_without(s: Seq<(Seq<char>, Seq<u8>)>, name: Seq<char>, other: Seq<char>)
    ensures lookup(without(s, name), other) == if other == name { None } else { lookup(s, other) },
    decreases s.len(),
{
    if s.len() > 0 {
        lemma_without(s.drop_last(), name, other);
        if s.last().0 != name {
            let w = without(s.drop_last(), name);
            assert(w.push(s.last()).drop_last() =~= w);
        }
    }
}

/// File provider using in-memory data
#[derive(Debug, Clone)]
pub struct IoStoreMemoryProvider {
    mappings: Vec<(String, Vec<u8>)>,
}

/// The names and data of mappings.
pub open spec fn entries(v: Seq<(String, Vec<u8>)>) -> Seq<(Seq<char>, Seq<u8>)> {
    v.map_values(|e: (String, Vec<u8>)| (e.0@, e.1@))
}

impl IoStoreMemoryProvider {
    /// The mappings, in the order they were added.
    pub closed spec fn spec_entries(&self) -> Seq<(Seq<char>, Seq<u8>)> {
        entries(self.mappings@)
    }

    /// The data mapped to each name.
    pub open spec fn view(&self) -> Map<Seq<char>, Seq<u8>> {
        Map::new(|n: Seq<char>| lookup(self.spec_entries(), n) is Some, |n: Seq<char>| lookup(self.spec_entries(), n)->0)
    }

    /// Creae a new `IoStoreMemoryProvider` instance; a later mapping of a name replaces an
    /// earlier one.
    pub fn new(mappings: Vec<(String, Vec<u8>)>) -> (r: Self)
        ensures r.spec_entries() == entries(mappings@),
    {
        IoStoreMemoryProvider { mappings }
    }

    /// Add a new file mapping to this instance
    pub fn add_mapping(&mut self, name: &str, data: Vec<u8>)
        ensures final(self).view() == old(self).view().insert(name@, data@),
    {
        let ghost before = entries(self.mappings@);
        self.mappings.push((name.to_owned(), data));
        proof {
            let after = entries(self.mappings@);
            assert(after =~= before.push((name@, data@)));
            assert(after.drop_last() =~= before);
            assert(final(self).view() =~= old(self).view().insert(name@, data@));
        }
    }

    /// Remove a file mapping from this instance
    pub fn remove_mapping(&mut self, name: &str)
        ensures final(self).view() == old(self).view().remove(name@),
    {
        let ghost before = entries(self.mappings@);
        let key = name.to_owned();
        let mut kept: Vec<(String, Vec<u8>)> = Vec::new();
        let mut old_mappings: Vec<(String, Vec<u8>)> = Vec::new();
        std::mem::swap(&mut old_mappings, &mut self.mappings);
        let mut i: usize = 0;
        while i < old_mappings.len()
            invariant
                i <= old_mappings.len(),
                entries(old_mappings@) == before,
                key@ == name@,
                entries(kept@) == without(before.take(i as int), name@),
            decreases old_mappings.len() - i,
        {
            let ghost k0 = kept@;
            let same = old_mappings[i].0 == key;
            if !same {
                let (n, d) = (old_mappings[i].0.clone(), copy_bytes(&old_mappings[i].1));
                kept.push((n, d));
                assert(entries(kept@) =~= entries(k0).push(before[i as int]));
            }
            proof {
                assert(before.take(i + 1).drop_last() =~= before.take(i as int));
                assert(before.take(i + 1).last() == before[i as int]);
            }
            i = i + 1;
        }
        self.mappings = kept;
        proof {
            assert(before.take(old_mappings.len() as int) =~= before);
            assert forall|n: Seq<char>| #![auto] true implies
                lookup(entries(self.mappings@), n) == if n == name@ { None } else { lookup(before, n) } by {
                lemma_without(before, name@, n);
            }
            assert(final(self).view() =~= old(self).view().remove(name@));
        }
    }

    /// Create a reader for a container with the given file name
    pub fn create_reader_for_file(&self, file_name: &str) -> (res: Result<ByteReader, Error>)
        ensures
            match res {
                Ok(r) => self.view().contains_key(file_name@) && r.data@ == self.view()[file_name@] && r.pos == 0,
                Err(e) => !self.view().contains_key(file_name@)
                    && (e matches Error::IoStore(IoStoreError::NoFile(n)) && n@ == file_name@),
            },
    {
        let key = file_name.to_owned();
        let mut i: usize = self.mappings.len();
        assert(entries(self.mappings@).take(i as int) =~= entries(self.mappings@));
        while i > 0
            invariant
                i <= self.mappings.len(),
                key@ == file_name@,
                lookup(entries(self.mappings@), file_name@) == lookup(entries(self.mappings@).take(i as int), file_name@),
            decreases i,
        {
            let ghost t = entries(self.mappings@).take(i as int);
            assert(t.drop_last() =~= entries(self.mappings@).take(i - 1));
            if self.mappings[i - 1].0 == key {
                return Ok(ByteReader::new(copy_bytes(&self.mappings[i - 1].1)));
            }
            i = i - 1;
        }
        Err(Error::IoStore(IoStoreError::NoFile(key)))
    }
}

/// A copy of bytes.
fn copy_bytes(b: &Vec<u8>) -> (r: Vec<u8>)
    ensures r@ == b@,
{
    let mut r: Vec<u8> = Vec::new();
    let mut i: usize = 0;
    while i < b.len()
        invariant i <= b.len(), r@ == b@.take(i as int),
        decreases b.len() - i,
    {
        r.push(b[i]);
        assert(r@ =~= b@.take(i + 1));
        i = i + 1;
    }
    assert(b@.take(b.len() as int) =~= b@);
    r
}

} // verus!
