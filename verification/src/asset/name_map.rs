//! Asset name map

use vstd::prelude::*;
use crate::archive::{ByteReader, ByteWriter, stepped, ser_i32};
use crate::error::Error;
use crate::exports::base_export::i32_at;
use crate::types::NameIndex;

verus! {

/// The texts of a list of strings.
pub open spec fn texts(v: Seq<String>) -> Seq<Seq<char>> {
    v.map_values(|s: String| s@)
}

/// The last position of `name` in `v`.
pub open spec fn last_index_of(v: Seq<Seq<char>>, name: Seq<char>) -> Option<int>
    decreases v.len(),
{
    if v.len() == 0 {
        None
    } else if v.last() == name {
        Some(v.len() - 1)
    } else {
        last_index_of(v.drop_last(), name)
    }
}

/// Where `last_index_of` finds a name: a position that holds it, after which none does; it
/// finds none exactly when the name is absent.
pub proof fn lemma_last_index_of(v: Seq<Seq<char>>, name: Seq<char>)
    ensures
        last_index_of(v, name) is Some <==> v.contains(name),
        last_index_of(v, name) matches Some(i) ==> 0 <= i < v.len() && v[i] == name
            && forall|j: int| i < j < v.len() ==> v[j] != name,
    decreases v.len(),
{
    if v.len() > 0 {
        lemma_last_index_of(v.drop_last(), name);
        if v.last() != name {
            let d = v.drop_last();
            if let Some(i) = last_index_of(d, name) {
                assert forall|j: int| i < j < v.len() implies v[j] != name by {
                    if j < v.len() - 1 {
                        assert(d[j] == v[j]);
                    }
                }
            }
            if v.contains(name) {
                let k = choose|k: int| 0 <= k < v.len() && v[k] == name;
                assert(v.drop_last()[k] == name);
            }
            if v.drop_last().contains(name) {
                let k = choose|k: int| 0 <= k < v.drop_last().len() && v.drop_last()[k] == name;
                assert(v[k] == name);
            }
        } else {
            assert(v[v.len() - 1] == name);
        }
    }
}

/// The names of `s` in order, each at its first occurrence only.
pub open spec fn first_occurrences(s: Seq<Seq<char>>) -> Seq<Seq<char>>
    decreases s.len(),
{
    if s.len() == 0 {
        Seq::empty()
    } else {
        let p = first_occurrences(s.drop_last());
        if p.contains(s.last()) { p } else { p.push(s.last()) }
    }
}

/// `first_occurrences` keeps each name of `s` once.
pub proof fn lemma_first_occurrences(s: Seq<Seq<char>>)
    ensures
        forall|x: Seq<char>| first_occurrences(s).contains(x) <==> s.contains(x),
        first_occurrences(s).no_duplicates(),
    decreases s.len(),
{
    if s.len() > 0 {
        let d = s.drop_last();
        lemma_first_occurrences(d);
        let p = first_occurrences(d);
        assert forall|x: Seq<char>| first_occurrences(s).contains(x) <==> s.contains(x) by {
            if s.contains(x) && x != s.last() {
                let k = choose|k: int| 0 <= k < s.len() && s[k] == x;
                assert(d[k] == x);
            }
            if d.contains(x) {
                let k = choose|k: int| 0 <= k < d.len() && d[k] == x;
                assert(s[k] == x);
            }
            if !p.contains(s.last()) && p.push(s.last()).contains(x) && x != s.last() {
                let k = choose|k: int| 0 <= k < p.push(s.last()).len() && p.push(s.last())[k] == x;
                assert(p[k] == x);
            }
            if !p.contains(s.last()) && x == s.last() {
                assert(p.push(s.last())[p.len() as int] == x);
            }
            if !p.contains(s.last()) && p.contains(x) {
                let k = choose|k: int| 0 <= k < p.len() && p[k] == x;
                assert(p.push(s.last())[k] == x);
            }
            if x == s.last() {
                assert(s[s.len() - 1] == x);
            }
        }
        if !p.contains(s.last()) {
            let w = p.push(s.last());
            assert forall|a: int, b: int| 0 <= a < b < w.len() implies w[a] != w[b] by {
                if b == w.len() - 1 {
                    assert(p.contains(p[a]));
                }
            }
        }
    }
}

/// The decimal digits of `n`.
pub open spec fn decimal_digits(n: nat) -> Seq<char>
    decreases n,
{
    if n < 10 {
        seq![((n + 48) as u32) as char]
    } else {
        decimal_digits(n / 10).push((((n % 10) + 48) as u32) as char)
    }
}

/// The decimal text of `n`, with a minus sign when it is negative.
pub open spec fn decimal_text(n: int) -> Seq<char> {
    if n < 0 { seq!['-'] + decimal_digits((-n) as nat) } else { decimal_digits(n as nat) }
}

/// The text of a decimal digit.
fn digit_text(d: u64) -> (r: &'static str)
    requires d < 10,
    ensures r@ == seq![((d + 48) as u32) as char],
{
    match d {
        0 => { proof { reveal_strlit("0"); } "0" },
        1 => { proof { reveal_strlit("1"); } "1" },
        2 => { proof { reveal_strlit("2"); } "2" },
        3 => { proof { reveal_strlit("3"); } "3" },
        4 => { proof { reveal_strlit("4"); } "4" },
        5 => { proof { reveal_strlit("5"); } "5" },
        6 => { proof { reveal_strlit("6"); } "6" },
        7 => { proof { reveal_strlit("7"); } "7" },
        8 => { proof { reveal_strlit("8"); } "8" },
        _ => { proof { reveal_strlit("9"); } "9" },
    }
}

/// The decimal digits of `n`.
pub(crate) fn digits_text(n: u64) -> (s: String)
    ensures s@ == decimal_digits(n as nat),
    decreases n,
{
    if n < 10 {
        String::from_str(digit_text(n))
    } else {
        let mut s = digits_text(n / 10);
        s.append(digit_text(n % 10));
        s
    }
}

/// The decimal text of `x`, with a minus sign when it is negative.
fn int_to_string(x: i64) -> (s: String)
    ensures s@ == decimal_text(x as int),
{
    if x < 0 {
        let m: u64 = ((-(x + 1)) as u64) + 1;
        let mut s = String::from_str("-");
        proof { reveal_strlit("-"); }
        let d = digits_text(m);
        s.append(d.as_str());
        s
    } else {
        digits_text(x as u64)
    }
}

/// The name at the start of `s`: its index and number, as little-endian `i32`s, when the index
/// lies in a name map of `n` names.
pub open spec fn parse_fname(s: Seq<u8>, n: nat) -> Option<(NameIndex, int)> {
    if s.len() >= 8 && 0 <= i32_at(s, 0) < n {
        Some((NameIndex { index: i32_at(s, 0), number: i32_at(s, 4) }, 8))
    } else {
        None
    }
}

/// The encoding of a name.
pub open spec fn ser_fname(name: NameIndex) -> Seq<u8> {
    ser_i32(name.index) + ser_i32(name.number)
}

/// Read a name, checking that its index lies in the name map.
pub fn read_fname(reader: &mut ByteReader, name_map: &NameMap) -> (res: Result<NameIndex, Error>)
    ensures stepped(*old(reader), *final(reader), res, parse_fname(old(reader).remaining(), name_map.names().len())),
{
    let b = reader.read_record(8)?;
    let index = crate::archive::u32_at(b.as_slice(), 0) as i32;
    let number = crate::archive::u32_at(b.as_slice(), 4) as i32;
    let ghost s = old(reader).remaining();
    assert(b@ == s.take(8));
    assert(b@.subrange(0, 4) =~= s.subrange(0, 4));
    assert(b@.subrange(4, 8) =~= s.subrange(4, 8));
    if index < 0 || index as usize >= name_map.names.len() {
        return Err(Error::fname(index, name_map.names.len()));
    }
    Ok(NameIndex { index, number })
}

/// Write a name: its index and number.
pub fn write_fname(writer: &mut ByteWriter, name: NameIndex)
    ensures final(writer).data@ == old(writer).data@ + ser_fname(name),
{
    writer.write_i32(name.index);
    writer.write_i32(name.number);
    assert(final(writer).data@ =~= old(writer).data@ + ser_fname(name));
}

/// Asset name map: a list of names, each found again by its text.
pub struct NameMap {
    names: Vec<String>,
    distinct: usize,
}

impl NameMap {
    /// The names, in order.
    pub closed spec fn names(&self) -> Seq<Seq<char>> {
        texts(self.names@)
    }

    /// The number of different names, which counts the entries of the lookup table.
    pub closed spec fn lookup_len(&self) -> nat {
        self.distinct as nat
    }

    /// The lookup count is the number of different names.
    pub closed spec fn wf(&self) -> bool {
        self.distinct as nat == texts(self.names@).to_set().len()
    }

    /// Creates an empty name map.
    pub fn new() -> (r: Self)
        ensures r.wf(), r.names() == Seq::<Seq<char>>::empty(), r.lookup_len() == 0,
    {
        let names: Vec<String> = Vec::new();
        proof {
            assert(texts(names@) =~= Seq::<Seq<char>>::empty());
            assert(texts(names@).to_set() =~= Set::<Seq<char>>::empty());
        }
        NameMap { names, distinct: 0 }
    }

    /// In a well-formed name map, the lookup count is the number of different names.
    pub proof fn lemma_lookup_len(&self)
        requires self.wf(),
        ensures self.lookup_len() == self.names().to_set().len(),
    {
    }

    /// The number of names.
    pub fn names_len(&self) -> (n: usize)
        ensures n == self.names().len(),
    {
        self.names.len()
    }

    /// Whether the name map holds no name.
    pub fn is_empty(&self) -> (b: bool)
        ensures b == (self.names().len() == 0),
    {
        self.names.len() == 0
    }

    /// All names, in order.
    pub fn get_name_map_index_list(&self) -> (r: &Vec<String>)
        ensures texts(r@) == self.names(),
    {
        &self.names
    }

    /// Add a name: without `force_add_duplicates`, a name already there is found again and
    /// nothing is added; otherwise the name is appended, and the result is the number of
    /// different names less one, which is the new position unless the name was there before.
    pub fn add_name_reference(&mut self, name: String, force_add_duplicates: bool) -> (r: i32)
        requires old(self).wf(), old(self).names().len() < usize::MAX,
        ensures
            final(self).wf(),
            match (force_add_duplicates, last_index_of(old(self).names(), name@)) {
                (false, Some(i)) => r == i as i32 && final(self).names() == old(self).names()
                    && final(self).lookup_len() == old(self).lookup_len(),
                _ => final(self).names() == old(self).names().push(name@)
                    && final(self).lookup_len() == old(self).lookup_len()
                        + (if old(self).names().contains(name@) { 0nat } else { 1nat })
                    && r == (final(self).lookup_len() - 1) as i32,
            },
            old(self).names().no_duplicates() && !force_add_duplicates && old(self).names().len() < i32::MAX ==> {
                &&& final(self).names().no_duplicates()
                &&& 0 <= r < final(self).names().len()
                &&& final(self).names()[r as int] == name@
                &&& last_index_of(final(self).names(), name@) == Some(r as int)
            },
    {
        let found = self.search_name_reference(name.as_str());
        proof { lemma_last_index_of(self.names(), name@); }
        if !force_add_duplicates {
            if let Some(existing) = found {
                return existing;
            }
        }
        proof {
            lemma_last_index_of(self.names(), name@);
            assert(texts(self.names@.push(name)) =~= self.names().push(name@));
            vstd::seq_lib::seq_to_set_is_finite(self.names());
            self.names().lemma_push_to_set_commute(name@);
            vstd::set::axiom_set_insert_len(self.names().to_set(), name@);
        }
        proof {
            if self.names().no_duplicates() && !force_add_duplicates {
                self.names().unique_seq_to_set();
                let w = self.names().push(name@);
                assert(w.no_duplicates()) by {
                    assert forall|a: int, b: int| 0 <= a < b < w.len() implies w[a] != w[b] by {
                        if b == w.len() - 1 {
                            assert(self.names().contains(self.names()[a]));
                        }
                    }
                }
                lemma_last_index_of(w, name@);
            }
        }
        let new_name = found.is_none();
        let ghost old_len = self.distinct;
        assert(self.distinct as nat == self.names().to_set().len());
        assert(self.names().to_set().len() <= self.names().len()) by {
            self.names().lemma_cardinality_of_set();
        }
        let distinct = if new_name { self.distinct + 1 } else { self.distinct };
        let mut names = Vec::new();
        std::mem::swap(&mut names, &mut self.names);
        names.push(name);
        *self = NameMap { names, distinct };
        (distinct - 1) as i32
    }

    /// Creates a name map of the names of a batch, in order, each name once.
    pub fn from_name_batch(name_batch: &[String]) -> (r: Self)
        requires name_batch@.len() < usize::MAX,
        ensures
            r.wf(),
            r.names() == first_occurrences(texts(name_batch@)),
    {
        let mut m = NameMap::new();
        let mut i: usize = 0;
        assert(texts(name_batch@.take(0)) =~= Seq::<Seq<char>>::empty());
        while i < name_batch.len()
            invariant
                i <= name_batch@.len() < usize::MAX,
                m.wf(),
                m.names() == first_occurrences(texts(name_batch@.take(i as int))),
                m.names().len() <= i,
            decreases name_batch@.len() - i,
        {
            let ghost before = m.names();
            proof { lemma_first_occurrences(texts(name_batch@.take(i as int))); }
            m.add_name_reference(name_batch[i].clone(), false);
            proof {
                let t = texts(name_batch@.take(i + 1));
                assert(t.drop_last() =~= texts(name_batch@.take(i as int)));
                assert(t.last() == name_batch@[i as int]@);
                lemma_last_index_of(before, name_batch@[i as int]@);
            }
            i = i + 1;
        }
        assert(name_batch@.take(i as int) =~= name_batch@);
        m
    }

    /// The text of a name index: the name there, or the decimal text of the index where it is
    /// out of range, without its sign where it is negative.
    pub fn get_name_reference(&self, index: i32) -> (r: String)
        requires index != i32::MIN,
        ensures
            r@ == if index < 0 {
                decimal_text(-index)
            } else if index >= self.names().len() {
                decimal_text(index as int)
            } else {
                self.names()[index as int]
            },
    {
        if index < 0 {
            return int_to_string(-(index as i64));
        }
        if index as usize >= self.names.len() {
            return int_to_string(index as i64);
        }
        self.names[index as usize].clone()
    }

    /// Creates a name for an index in this name map.
    pub fn create_fname(&self, index: i32, number: i32) -> (r: NameIndex)
        ensures r == (NameIndex { index, number }),
    {
        NameIndex { index, number }
    }

    /// Add a name, found again where it is there, with number 0.
    pub fn add_fname(&mut self, slice: &str) -> (r: NameIndex)
        requires old(self).wf(), old(self).names().len() < usize::MAX,
        ensures
            final(self).wf(),
            r.number == 0,
            match last_index_of(old(self).names(), slice@) {
                Some(i) => r.index == i as i32 && final(self).names() == old(self).names(),
                None => final(self).names() == old(self).names().push(slice@)
                    && r.index == old(self).lookup_len() as i32,
            },
            old(self).names().no_duplicates() && old(self).names().len() < i32::MAX ==> {
                &&& final(self).names().no_duplicates()
                &&& 0 <= r.index < final(self).names().len()
                &&& final(self).names()[r.index as int] == slice@
            },
    {
        self.add_fname_with_number(slice, 0)
    }

    /// Add a name, found again where it is there, with a number.
    pub fn add_fname_with_number(&mut self, slice: &str, number: i32) -> (r: NameIndex)
        requires old(self).wf(), old(self).names().len() < usize::MAX,
        ensures
            final(self).wf(),
            r.number == number,
            match last_index_of(old(self).names(), slice@) {
                Some(i) => r.index == i as i32 && final(self).names() == old(self).names(),
                None => final(self).names() == old(self).names().push(slice@)
                    && r.index == old(self).lookup_len() as i32,
            },
            old(self).names().no_duplicates() && old(self).names().len() < i32::MAX ==> {
                &&& final(self).names().no_duplicates()
                &&& 0 <= r.index < final(self).names().len()
                &&& final(self).names()[r.index as int] == slice@
            },
    {
        proof { lemma_last_index_of(self.names(), slice@); }
        let index = self.add_name_reference(slice.to_owned(), false);
        self.create_fname(index, number)
    }

    /// Search a name: the position that it was last added at.
    pub fn search_name_reference(&self, name: &str) -> (r: Option<i32>)
        ensures
            match last_index_of(self.names(), name@) {
                Some(i) => r == Some(i as i32),
                None => r is None,
            },
    {
        let target = name.to_owned();
        let mut i = self.names.len();
        assert(self.names().take(i as int) =~= self.names());
        while i > 0
            invariant
                i <= self.names@.len(),
                target@ == name@,
                last_index_of(self.names(), name@) == last_index_of(self.names().take(i as int), name@),
            decreases i,
        {
            let ghost v = self.names().take(i as int);
            assert(v.drop_last() =~= self.names().take(i - 1));
            if self.names[i - 1] == target {
                return Some((i - 1) as i32);
            }
            i = i - 1;
        }
        proof {
            assert(self.names().take(0) =~= Seq::<Seq<char>>::empty());
        }
        None
    }
}

} // verus!
