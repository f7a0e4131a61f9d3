//! Walking a .utoc directory index into the paths of its files.

use vstd::prelude::*;
use super::index::{DirectoryIndexView, IoStoreDirectoryIndex};

verus! {

/// The name at `name` in the string table (an absent string reads as empty), or `None` where
/// the table has no such entry.
pub open spec fn entry_name(v: DirectoryIndexView, name: u32) -> Option<Seq<char>> {
    if name < v.string_table.len() {
        Some(match v.string_table[name as int] {
            Some(s) => s,
            None => Seq::empty(),
        })
    } else {
        None
    }
}

/// `prefix`, a slash, then `name`.
pub open spec fn join_path(prefix: Seq<char>, name: Seq<char>) -> Seq<char> {
    prefix + seq!['/'] + name
}

/// The files and subdirectories under directory `dir`, as (toc entry index, path) pairs in the
/// order of the walk: first its own file chain, then each child directory in turn. `None` where
/// an index points outside its table, or where the walk goes deeper than `fuel`.
pub open spec fn walk_dir(v: DirectoryIndexView, dir: u32, prefix: Seq<char>, fuel: nat)
    -> Option<Seq<(u32, Seq<char>)>>
    decreases fuel,
{
    if fuel == 0 || dir >= v.directory_entries.len() {
        None
    } else {
        let e = v.directory_entries[dir as int];
        match walk_files(v, e.first_file_entry, prefix, (fuel - 1) as nat) {
            Some(fs) => match walk_children(v, e.first_child_entry, prefix, (fuel - 1) as nat) {
                Some(cs) => Some(fs + cs),
                None => None,
            },
            None => None,
        }
    }
}

/// The file chain that starts at `file`, each file with its path under `prefix`.
pub open spec fn walk_files(v: DirectoryIndexView, file: u32, prefix: Seq<char>, fuel: nat)
    -> Option<Seq<(u32, Seq<char>)>>
    decreases fuel,
{
    if file == IoStoreDirectoryIndex::INVALID_INDEX {
        Some(Seq::empty())
    } else if fuel == 0 || file >= v.file_entries.len() {
        None
    } else {
        let f = v.file_entries[file as int];
        match entry_name(v, f.name) {
            Some(n) => match walk_files(v, f.next_file_entry, prefix, (fuel - 1) as nat) {
                Some(rest) => Some(seq![(f.user_data, join_path(prefix, n))] + rest),
                None => None,
            },
            None => None,
        }
    }
}

/// The sibling chain of directories that starts at `dir`, each walked under its own path.
pub open spec fn walk_children(v: DirectoryIndexView, dir: u32, prefix: Seq<char>, fuel: nat)
    -> Option<Seq<(u32, Seq<char>)>>
    decreases fuel,
{
    if dir == IoStoreDirectoryIndex::INVALID_INDEX {
        Some(Seq::empty())
    } else if fuel == 0 || dir >= v.directory_entries.len() {
        None
    } else {
        let d = v.directory_entries[dir as int];
        match entry_name(v, d.name) {
            Some(n) => match walk_dir(v, dir, join_path(prefix, n), (fuel - 1) as nat) {
                Some(a) => match walk_children(v, d.next_sibling_entry, prefix, (fuel - 1) as nat) {
                    Some(b) => Some(a + b),
                    None => None,
                },
                None => None,
            },
            None => None,
        }
    }
}

/// The depth to which a walk of `v` is followed: one step per link, two per directory, so
/// that a walk whose links never come back to an entry on the way stays within it.
pub open spec fn walk_budget(v: DirectoryIndexView) -> nat {
    2 * (v.directory_entries.len() + v.file_entries.len()) + 2
}

/// The pairs of `s` with their strings as character sequences.
pub open spec fn path_pairs(s: Seq<(u32, String)>) -> Seq<(u32, Seq<char>)> {
    s.map_values(|e: (u32, String)| (e.0, e.1@))
}

proof fn lemma_path_pairs_push(s: Seq<(u32, String)>, e: (u32, String))
    ensures path_pairs(s.push(e)) == path_pairs(s) + seq![(e.0, e.1@)],
{
    assert(path_pairs(s.push(e)) =~= path_pairs(s) + seq![(e.0, e.1@)]);
}

impl IoStoreDirectoryIndex {
    /// The path of `name` under `prefix`, or `None` where the string table has no entry `name`.
    fn child_path(&self, prefix: &String, name: u32) -> (r: Option<String>)
        ensures
            match entry_name(self.view(), name) {
                Some(n) => r matches Some(p) && p@ == join_path(prefix@, n),
                None => r is None,
            },
    {
        if name as usize >= self.string_table.len() {
            return None;
        }
        let mut p = prefix.clone();
        p.append("/");
        match &self.string_table[name as usize] {
            Some(s) => p.append(s.as_str()),
            None => {},
        }
        proof {
            reveal_strlit("/");
            assert(p@ =~= join_path(prefix@, entry_name(self.view(), name)->0));
        }
        Some(p)
    }

    fn walk_dir_into(&self, dir: u32, prefix: &String, fuel: u128, out: &mut Vec<(u32, String)>) -> (ok: bool)
        ensures
            ok == walk_dir(self.view(), dir, prefix@, fuel as nat) is Some,
            ok ==> path_pairs(final(out)@) == path_pairs(old(out)@) + walk_dir(self.view(), dir, prefix@, fuel as nat)->0,
        decreases fuel,
    {
        if fuel == 0 || dir as usize >= self.directory_entries.len() {
            return false;
        }
        let e = self.directory_entries[dir as usize];
        let ghost start = out@;
        if !self.walk_files_into(e.first_file_entry, prefix, fuel - 1, out) {
            return false;
        }
        let ghost mid = out@;
        if !self.walk_children_into(e.first_child_entry, prefix, fuel - 1, out) {
            return false;
        }
        proof {
            let fs = walk_files(self.view(), e.first_file_entry, prefix@, (fuel - 1) as nat)->0;
            let cs = walk_children(self.view(), e.first_child_entry, prefix@, (fuel - 1) as nat)->0;
            assert(path_pairs(out@) =~= path_pairs(start) + (fs + cs));
        }
        true
    }

    fn walk_files_into(&self, file: u32, prefix: &String, fuel: u128, out: &mut Vec<(u32, String)>) -> (ok: bool)
        ensures
            ok == walk_files(self.view(), file, prefix@, fuel as nat) is Some,
            ok ==> path_pairs(final(out)@) == path_pairs(old(out)@) + walk_files(self.view(), file, prefix@, fuel as nat)->0,
        decreases fuel,
    {
        if file == Self::INVALID_INDEX {
            assert(path_pairs(out@) =~= path_pairs(out@) + Seq::<(u32, Seq<char>)>::empty());
            return true;
        }
        if fuel == 0 || file as usize >= self.file_entries.len() {
            return false;
        }
        let f = self.file_entries[file as usize];
        let path = match self.child_path(prefix, f.name) {
            Some(p) => p,
            None => return false,
        };
        let ghost start = out@;
        let ghost pv = path@;
        proof {
            lemma_path_pairs_push(start, (f.user_data, path));
        }
        out.push((f.user_data, path));
        if !self.walk_files_into(f.next_file_entry, prefix, fuel - 1, out) {
            return false;
        }
        proof {
            let rest = walk_files(self.view(), f.next_file_entry, prefix@, (fuel - 1) as nat)->0;
            assert(path_pairs(out@) =~= path_pairs(start) + (seq![(f.user_data, pv)] + rest));
        }
        true
    }

    fn walk_children_into(&self, dir: u32, prefix: &String, fuel: u128, out: &mut Vec<(u32, String)>) -> (ok: bool)
        ensures
            ok == walk_children(self.view(), dir, prefix@, fuel as nat) is Some,
            ok ==> path_pairs(final(out)@) == path_pairs(old(out)@) + walk_children(self.view(), dir, prefix@, fuel as nat)->0,
        decreases fuel,
    {
        if dir == Self::INVALID_INDEX {
            assert(path_pairs(out@) =~= path_pairs(out@) + Seq::<(u32, Seq<char>)>::empty());
            return true;
        }
        if fuel == 0 || dir as usize >= self.directory_entries.len() {
            return false;
        }
        let d = self.directory_entries[dir as usize];
        let path = match self.child_path(prefix, d.name) {
            Some(p) => p,
            None => return false,
        };
        let ghost start = out@;
        if !self.walk_dir_into(dir, &path, fuel - 1, out) {
            return false;
        }
        let ghost mid = out@;
        if !self.walk_children_into(d.next_sibling_entry, prefix, fuel - 1, out) {
            return false;
        }
        proof {
            let a = walk_dir(self.view(), dir, path@, (fuel - 1) as nat)->0;
            let b = walk_children(self.view(), d.next_sibling_entry, prefix@, (fuel - 1) as nat)->0;
            assert(path_pairs(out@) =~= path_pairs(start) + (a + b));
        }
        true
    }

    /// Every file under directory `starting_index`, as the pair of its toc entry index and its
    /// path (each name preceded by a slash), in the order of the walk: a directory's own files
    /// first, then its subdirectories one by one. `None` where an index points outside its
    /// table, or where the walk goes deeper than `walk_budget`, as only links that come back
    /// to an entry already on the way can make it.
    pub fn iter(&self, starting_index: u32) -> (r: Option<Vec<(u32, String)>>)
        ensures
            match walk_dir(self.view(), starting_index, Seq::empty(), walk_budget(self.view())) {
                Some(s) => r matches Some(v) && path_pairs(v@) == s,
                None => r is None,
            },
    {
        let budget: u128 = 2 * (self.directory_entries.len() as u128 + self.file_entries.len() as u128) + 2;
        let mut out: Vec<(u32, String)> = Vec::new();
        let prefix = String::new();
        assert(path_pairs(out@) =~= Seq::<(u32, Seq<char>)>::empty());
        if self.walk_dir_into(starting_index, &prefix, budget, &mut out) {
            assert(path_pairs(out@) =~= walk_dir(self.view(), starting_index, Seq::empty(), walk_budget(self.view()))->0);
            Some(out)
        } else {
            None
        }
    }
}

/// The directory `k` steps along the sibling chain that starts at `first`, where the chain
/// reaches that far inside the directory table.
pub open spec fn sibling_at(v: DirectoryIndexView, first: u32, k: nat) -> Option<u32>
    decreases k,
{
    if first == IoStoreDirectoryIndex::INVALID_INDEX || first >= v.directory_entries.len() {
        None
    } else if k == 0 {
        Some(first)
    } else {
        sibling_at(v, v.directory_entries[first as int].next_sibling_entry, (k - 1) as nat)
    }
}

/// Every pair of `a` is a pair of `b`.
pub open spec fn pairs_within(a: Seq<(u32, Seq<char>)>, b: Seq<(u32, Seq<char>)>) -> bool {
    forall|i: int| 0 <= i < a.len() ==> b.contains(#[trigger] a[i])
}

/// A walk of a sibling chain holds the walk of each directory along it, under that
/// directory's path.
proof fn lemma_children_hold_each(v: DirectoryIndexView, first: u32, prefix: Seq<char>, fuel: nat, k: nat)
    requires
        walk_children(v, first, prefix, fuel) is Some,
        sibling_at(v, first, k) is Some,
    ensures ({
        let c = sibling_at(v, first, k)->0;
        &&& entry_name(v, v.directory_entries[c as int].name) is Some
        &&& exists|f: nat| f < fuel && #[trigger] walk_dir(v, c, join_path(prefix, entry_name(v, v.directory_entries[c as int].name)->0), f) is Some
            && pairs_within(walk_dir(v, c, join_path(prefix, entry_name(v, v.directory_entries[c as int].name)->0), f)->0,
                walk_children(v, first, prefix, fuel)->0)
    }),
    decreases k,
{
    let d = v.directory_entries[first as int];
    let n = entry_name(v, d.name)->0;
    let a = walk_dir(v, first, join_path(prefix, n), (fuel - 1) as nat)->0;
    let b = walk_children(v, d.next_sibling_entry, prefix, (fuel - 1) as nat)->0;
    let all = walk_children(v, first, prefix, fuel)->0;
    assert(all == a + b);
    if k == 0 {
        let f = (fuel - 1) as nat;
        assert forall|i: int| 0 <= i < a.len() implies all.contains(#[trigger] a[i]) by {
            assert(all[i] == a[i]);
        }
        assert(walk_dir(v, first, join_path(prefix, n), f) is Some);
    } else {
        lemma_children_hold_each(v, d.next_sibling_entry, prefix, (fuel - 1) as nat, (k - 1) as nat);
        let c = sibling_at(v, first, k)->0;
        let cn = entry_name(v, v.directory_entries[c as int].name)->0;
        let f = choose|f: nat| f < (fuel - 1) as nat && #[trigger] walk_dir(v, c, join_path(prefix, cn), f) is Some
            && pairs_within(walk_dir(v, c, join_path(prefix, cn), f)->0, b);
        let w = walk_dir(v, c, join_path(prefix, cn), f)->0;
        assert forall|i: int| 0 <= i < w.len() implies all.contains(#[trigger] w[i]) by {
            assert(b.contains(w[i]));
            let j = choose|j: int| 0 <= j < b.len() && b[j] == w[i];
            assert(all[a.len() + j] == w[i]);
        }
        assert(f < fuel);
    }
}

/// The walk of a directory holds the walk of every directory along its chain of
/// subdirectories, not the first alone: each subdirectory `k` steps along the chain that starts
/// at the directory's first child is walked under its own path, and all that that walk gives
/// is in the walk of the parent.
pub proof fn lemma_walk_holds_every_subdirectory(v: DirectoryIndexView, dir: u32, prefix: Seq<char>, fuel: nat, k: nat)
    requires
        walk_dir(v, dir, prefix, fuel) is Some,
        sibling_at(v, v.directory_entries[dir as int].first_child_entry, k) is Some,
    ensures ({
        let c = sibling_at(v, v.directory_entries[dir as int].first_child_entry, k)->0;
        let n = entry_name(v, v.directory_entries[c as int].name);
        &&& n is Some
        &&& exists|f: nat| f < fuel && #[trigger] walk_dir(v, c, join_path(prefix, n->0), f) is Some
            && pairs_within(walk_dir(v, c, join_path(prefix, n->0), f)->0, walk_dir(v, dir, prefix, fuel)->0)
    }),
{
    let e = v.directory_entries[dir as int];
    let fs = walk_files(v, e.first_file_entry, prefix, (fuel - 1) as nat)->0;
    let cs = walk_children(v, e.first_child_entry, prefix, (fuel - 1) as nat)->0;
    let all = walk_dir(v, dir, prefix, fuel)->0;
    assert(all == fs + cs);
    lemma_children_hold_each(v, e.first_child_entry, prefix, (fuel - 1) as nat, k);
    let c = sibling_at(v, e.first_child_entry, k)->0;
    let cn = entry_name(v, v.directory_entries[c as int].name)->0;
    let f = choose|f: nat| f < (fuel - 1) as nat && #[trigger] walk_dir(v, c, join_path(prefix, cn), f) is Some
        && pairs_within(walk_dir(v, c, join_path(prefix, cn), f)->0, cs);
    let w = walk_dir(v, c, join_path(prefix, cn), f)->0;
    assert forall|i: int| 0 <= i < w.len() implies all.contains(#[trigger] w[i]) by {
        assert(cs.contains(w[i]));
        let j = choose|j: int| 0 <= j < cs.len() && cs[j] == w[i];
        assert(all[fs.len() + j] == w[i]);
    }
}

/// The walk of a directory holds each of its own files, under the directory's path, along
/// its whole file chain.
pub proof fn lemma_walk_holds_own_files(v: DirectoryIndexView, dir: u32, prefix: Seq<char>, fuel: nat, k: nat)
    requires
        walk_dir(v, dir, prefix, fuel) is Some,
        file_at(v, v.directory_entries[dir as int].first_file_entry, k) is Some,
    ensures ({
        let f = file_at(v, v.directory_entries[dir as int].first_file_entry, k)->0;
        let e = v.file_entries[f as int];
        &&& entry_name(v, e.name) is Some
        &&& walk_dir(v, dir, prefix, fuel)->0.contains((e.user_data, join_path(prefix, entry_name(v, e.name)->0)))
    }),
{
    let e = v.directory_entries[dir as int];
    let fs = walk_files(v, e.first_file_entry, prefix, (fuel - 1) as nat)->0;
    let cs = walk_children(v, e.first_child_entry, prefix, (fuel - 1) as nat)->0;
    let all = walk_dir(v, dir, prefix, fuel)->0;
    assert(all == fs + cs);
    lemma_files_hold_each(v, e.first_file_entry, prefix, (fuel - 1) as nat, k);
    let f = file_at(v, e.first_file_entry, k)->0;
    let fe = v.file_entries[f as int];
    let p = (fe.user_data, join_path(prefix, entry_name(v, fe.name)->0));
    let j = choose|j: int| 0 <= j < fs.len() && fs[j] == p;
    assert(all[j] == p);
}

/// The file `k` steps along the file chain that starts at `first`, where the chain reaches
/// that far inside the file table.
pub open spec fn file_at(v: DirectoryIndexView, first: u32, k: nat) -> Option<u32>
    decreases k,
{
    if first == IoStoreDirectoryIndex::INVALID_INDEX || first >= v.file_entries.len() {
        None
    } else if k == 0 {
        Some(first)
    } else {
        file_at(v, v.file_entries[first as int].next_file_entry, (k - 1) as nat)
    }
}

/// A walk of a file chain holds each file along it.
proof fn lemma_files_hold_each(v: DirectoryIndexView, first: u32, prefix: Seq<char>, fuel: nat, k: nat)
    requires
        walk_files(v, first, prefix, fuel) is Some,
        file_at(v, first, k) is Some,
    ensures ({
        let f = file_at(v, first, k)->0;
        let e = v.file_entries[f as int];
        &&& entry_name(v, e.name) is Some
        &&& walk_files(v, first, prefix, fuel)->0.contains((e.user_data, join_path(prefix, entry_name(v, e.name)->0)))
    }),
    decreases k,
{
    let fe = v.file_entries[first as int];
    let n = entry_name(v, fe.name)->0;
    let rest = walk_files(v, fe.next_file_entry, prefix, (fuel - 1) as nat)->0;
    let all = walk_files(v, first, prefix, fuel)->0;
    assert(all == seq![(fe.user_data, join_path(prefix, n))] + rest);
    if k == 0 {
        assert(all[0] == (fe.user_data, join_path(prefix, n)));
    } else {
        lemma_files_hold_each(v, fe.next_file_entry, prefix, (fuel - 1) as nat, (k - 1) as nat);
        let f = file_at(v, first, k)->0;
        let e = v.file_entries[f as int];
        let p = (e.user_data, join_path(prefix, entry_name(v, e.name)->0));
        let j = choose|j: int| 0 <= j < rest.len() && rest[j] == p;
        assert(all[j + 1] == p);
    }
}

} // verus!
