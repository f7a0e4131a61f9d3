//! Two byte sources read as one.

use vstd::prelude::*;
use crate::error::{Error, IoErrorKind};

verus! {

/// Where a seek moves from.
#[derive(Debug, Clone, Copy, PartialEq, Eq, Structural)]
pub enum SeekFrom {
    /// From the start, by an offset
    Start(u64),
    /// From the end, by an offset
    End(i64),
    /// From the current position, by an offset
    Current(i64),
}

/// A reader of the bytes of `first` followed by those of `second`.
pub struct Chain {
    first: Vec<u8>,
    second: Option<Vec<u8>>,
    pos: u64,
}

impl Chain {
    /// The bytes of the chain.
    pub closed spec fn data(&self) -> Seq<u8> {
        match self.second {
            Some(s) => self.first@ + s@,
            None => self.first@,
        }
    }

    /// Whether the chain has a second part.
    pub closed spec fn chained(&self) -> bool {
        self.second is Some
    }

    /// The position of the next byte to read.
    pub closed spec fn position(&self) -> u64 {
        self.pos
    }

    /// Creates a chain of `first` and, when given, `second`, positioned at the start.
    pub fn new(first: Vec<u8>, second: Option<Vec<u8>>) -> (r: Self)
        ensures
            r.data() == match second { Some(s) => first@ + s@, None => first@ },
            r.chained() == second is Some,
            r.position() == 0,
    {
        Chain { first, second, pos: 0 }
    }

    /// The number of bytes of the chain.
    pub fn len(&self) -> (n: u64)
        requires self.data().len() <= u64::MAX,
        ensures n == self.data().len(),
    {
        match &self.second {
            Some(s) => self.first.len() as u64 + s.len() as u64,
            None => self.first.len() as u64,
        }
    }

    /// The byte at `i`.
    fn byte_at(&self, i: u64) -> (b: u8)
        requires i < self.data().len(),
        ensures b == self.data()[i as int],
    {
        let fl = self.first.len();
        if i < fl as u64 {
            self.first[i as usize]
        } else {
            match &self.second {
                Some(s) => {
                    assert(self.data() =~= self.first@ + s@);
                    let k: u64 = i - fl as u64;
                    let sl: usize = s.len();
                    assert(k < sl);
                    let j: usize = k as usize;
                    assert(j == i - fl);
                    assert(self.data()[i as int] == s@[j as int]);
                    s[j]
                },
                None => 0,
            }
        }
    }

    /// Reads up to `len` bytes from the position, advancing past them.
    pub fn read(&mut self, len: usize) -> (r: Vec<u8>)
        requires old(self).data().len() <= u64::MAX,
        ensures
            final(self).data() == old(self).data(),
            final(self).chained() == old(self).chained(),
            r@ == if old(self).position() >= old(self).data().len() {
                Seq::empty()
            } else if old(self).position() + len >= old(self).data().len() {
                old(self).data().subrange(old(self).position() as int, old(self).data().len() as int)
            } else {
                old(self).data().subrange(old(self).position() as int, old(self).position() + len)
            },
            final(self).position() == old(self).position() + r@.len(),
    {
        let total = self.len();
        let mut r: Vec<u8> = Vec::new();
        if self.pos >= total {
            return r;
        }
        let end = if (len as u64) >= total - self.pos { total } else { self.pos + len as u64 };
        let start = self.pos;
        let mut i = start;
        while i < end
            invariant
                start <= i <= end <= total,
                total == self.data().len(),
                self.pos == start,
                r@ == self.data().subrange(start as int, i as int),
            decreases end - i,
        {
            let b = self.byte_at(i);
            r.push(b);
            assert(r@ =~= self.data().subrange(start as int, i + 1));
            i = i + 1;
        }
        self.pos = end;
        r
    }

    /// Reads the bytes from the position to the end.
    pub fn read_to_end(&mut self) -> (r: Vec<u8>)
        requires old(self).data().len() <= usize::MAX,
        ensures
            final(self).data() == old(self).data(),
            final(self).chained() == old(self).chained(),
            r@ == if old(self).position() >= old(self).data().len() {
                Seq::empty()
            } else {
                old(self).data().subrange(old(self).position() as int, old(self).data().len() as int)
            },
    {
        let total = self.len();
        self.read(total as usize)
    }

    /// Reads one byte.
    pub fn read_u8(&mut self) -> (res: Result<u8, Error>)
        requires old(self).data().len() <= u64::MAX,
        ensures
            final(self).data() == old(self).data(),
            final(self).chained() == old(self).chained(),
            match res {
                Ok(b) => old(self).position() < old(self).data().len()
                    && b == old(self).data()[old(self).position() as int]
                    && final(self).position() == old(self).position() + 1,
                Err(e) => old(self).position() >= old(self).data().len()
                    && e == Error::Io(IoErrorKind::UnexpectedEof)
                    && final(self).position() == old(self).position(),
            },
    {
        let r = self.read(1);
        if r.len() == 1 {
            Ok(r[0])
        } else {
            Err(Error::eof())
        }
    }

    /// Moves the position. With a second part, `End` and `Current` move by wrapping
    /// offsets; with one part alone they fail where the position would be negative or
    /// overflow. Returns the new position.
    pub fn seek(&mut self, from: SeekFrom) -> (res: Result<u64, Error>)
        requires
            old(self).data().len() <= i64::MAX,
            old(self).chained() ==> match from {
                SeekFrom::Current(o) => i64::MIN <= (old(self).position() as i64) + o <= i64::MAX,
                SeekFrom::End(o) => i64::MIN <= old(self).data().len() + o <= i64::MAX,
                SeekFrom::Start(_) => true,
            },
        ensures
            final(self).data() == old(self).data(),
            final(self).chained() == old(self).chained(),
            match res {
                Ok(p) => final(self).position() == p && p == seek_target(old(self).chained(), old(self).position(), old(self).data().len(), from)->0,
                Err(e) => seek_target(old(self).chained(), old(self).position(), old(self).data().len(), from) is None
                    && e == Error::Io(IoErrorKind::InvalidInput)
                    && final(self).position() == old(self).position(),
            },
    {
        let total = self.len();
        let chained = self.second.is_some();
        let target: Option<u64> = match from {
            SeekFrom::Start(o) => Some(o),
            SeekFrom::End(o) => {
                if chained {
                    Some((total as i64 + o) as u64)
                } else if o < 0 {
                    let back = (-(o as i128)) as u64;
                    if back <= total { Some(total - back) } else { None }
                } else {
                    total.checked_add(o as u64)
                }
            },
            SeekFrom::Current(o) => {
                if chained {
                    Some((self.pos as i64 + o) as u64)
                } else if o < 0 {
                    let back = (-(o as i128)) as u64;
                    if back <= self.pos { Some(self.pos - back) } else { None }
                } else {
                    self.pos.checked_add(o as u64)
                }
            },
        };
        match target {
            Some(p) => {
                self.pos = p;
                Ok(p)
            },
            None => Err(Error::Io(IoErrorKind::InvalidInput)),
        }
    }
}

/// Where a seek from `pos` in `len` bytes moves: with a second part by wrapping offsets, with
/// one part alone by exact offsets, failing below zero or above `u64::MAX`.
pub open spec fn seek_target(chained: bool, pos: u64, len: nat, from: SeekFrom) -> Option<u64> {
    match from {
        SeekFrom::Start(o) => Some(o),
        SeekFrom::End(o) => if chained {
            Some(((len as i64) + o) as i64 as u64)
        } else {
            let t = len + o;
            if 0 <= t <= u64::MAX { Some(t as u64) } else { None }
        },
        SeekFrom::Current(o) => if chained {
            Some(((pos as i64) + o) as i64 as u64)
        } else {
            let t = pos + o;
            if 0 <= t <= u64::MAX { Some(t as u64) } else { None }
        },
    }
}

} // verus!
