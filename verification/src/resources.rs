//! The shader source provider: an in-memory store of named,
//! nul-free source byte strings.
//!
//! Reading bytes from disk or from any other platform facility is the
//! embedding program's business; it fills a [`Resources`] value and the
//! library looks sources up by name.  A stored byte string that contains
//! a nul byte cannot be handed to the driver as a nul-terminated string,
//! so looking it up fails rather than truncating it.

use vstd::prelude::*;

verus! {

use vstd::slice::slice_to_vec;
use crate::text::str_eq;

/// Why a named resource could not be turned into shader source.
#[derive(Debug)]
pub enum Error {
    /// No resource of the requested name is in the store.
    NotFound,
    /// The stored bytes contain an interior nul byte.
    FileContainsNil,
}

struct ResEntry {
    name: String,
    bytes: Vec<u8>,
}

impl View for ResEntry {
    type V = (Seq<char>, Seq<u8>);

    closed spec fn view(&self) -> (Seq<char>, Seq<u8>) {
        (self.name@, self.bytes@)
    }
}

/// The bytes stored under `name`: the first entry with that name wins.
pub open spec fn lookup(entries: Seq<(Seq<char>, Seq<u8>)>, name: Seq<char>) -> Option<Seq<u8>>
    decreases entries.len(),
{
    if entries.len() == 0 {
        None
    } else if entries[0].0 == name {
        Some(entries[0].1)
    } else {
        lookup(entries.drop_first(), name)
    }
}

/// `bytes` contains a nul byte.
pub open spec fn has_nil(bytes: Seq<u8>) -> bool {
    exists|i: int| 0 <= i < bytes.len() && bytes[i] == 0
}

/// When none of the first `i` entries carries `name`, the lookup is
/// decided by the remaining entries.
proof fn lemma_lookup_skip(entries: Seq<(Seq<char>, Seq<u8>)>, name: Seq<char>, i: int)
    requires
        0 <= i <= entries.len(),
        forall|j: int| 0 <= j < i ==> entries[j].0 != name,
    ensures
        lookup(entries, name) == lookup(entries.skip(i), name),
    decreases i,
{
    if i > 0 {
        let d = entries.drop_first();
        assert(forall|j: int| 0 <= j < i - 1 ==> d[j] == entries[j + 1] && d[j].0 != name);
        lemma_lookup_skip(d, name, i - 1);
        assert(d.skip(i - 1) =~= entries.skip(i));
    } else {
        assert(entries.skip(0) =~= entries);
    }
}

/// An in-memory store of named shader sources.
pub struct Resources {
    entries: Vec<ResEntry>,
}

impl View for Resources {
    type V = Seq<(Seq<char>, Seq<u8>)>;

    closed spec fn view(&self) -> Seq<(Seq<char>, Seq<u8>)> {
        self.entries@.map_values(|e: ResEntry| e@)
    }
}

impl Resources {
    /// An empty store.
    pub fn new() -> (r: Resources)
        ensures
            r@ == Seq::<(Seq<char>, Seq<u8>)>::empty(),
    {
        let r = Resources { entries: Vec::new() };
        proof {
            assert(r@ =~= Seq::<(Seq<char>, Seq<u8>)>::empty());
        }
        r
    }

    /// Adds a named resource at the end of the store; an earlier entry
    /// of the same name keeps priority.
    pub fn insert(&mut self, name: String, bytes: Vec<u8>)
        ensures
            final(self)@ == old(self)@.push((name@, bytes@)),
    {
        let ghost entry_model = (name@, bytes@);
        self.entries.push(ResEntry { name, bytes });
        proof {
            assert(self@ =~= old(self)@.push(entry_model));
        }
    }

    /// Looks `name` up and returns its bytes, ready to be handed on as a
    /// nul-terminated source string: absent names and stored bytes with
    /// an interior nul are refused, each with its own error.
    pub fn load_cstring(&self, name: &str) -> (r: Result<Vec<u8>, Error>)
        ensures
            match r {
                Ok(bytes) => lookup(self@, name@) == Some(bytes@) && !has_nil(bytes@),
                Err(e) => match e {
                    Error::NotFound => lookup(self@, name@) is None,
                    Error::FileContainsNil => lookup(self@, name@) matches Some(b) && has_nil(b),
                },
            },
    {
        let n = self.entries.len();
        let mut i: usize = 0;
        while i < n
            invariant
                i <= n,
                n == self.entries@.len(),
                self@.len() == n,
                forall|j: int| 0 <= j < i ==> #[trigger] self@[j].0 != name@,
            decreases n - i,
        {
            proof {
                assert(self@[i as int] == self.entries@[i as int]@);
            }
            if str_eq(self.entries[i].name.as_str(), name) {
                proof {
                    lemma_lookup_skip(self@, name@, i as int);
                    assert(self@.skip(i as int)[0] == self@[i as int]);
                    assert(lookup(self@.skip(i as int), name@) == Some(self@[i as int].1));
                }
                let bytes = &self.entries[i].bytes;
                proof {
                    assert(lookup(self@, name@) == Some(bytes@));
                }
                let m = bytes.len();
                let mut k: usize = 0;
                while k < m
                    invariant
                        k <= m,
                        m == bytes@.len(),
                        lookup(self@, name@) == Some(bytes@),
                        forall|t: int| 0 <= t < k ==> bytes@[t] != 0,
                    decreases m - k,
                {
                    if bytes[k] == 0 {
                        proof {
                            assert(has_nil(bytes@));
                        }
                        return Err(Error::FileContainsNil);
                    }
                    k = k + 1;
                }
                return Ok(slice_to_vec(bytes.as_slice()));
            }
            i = i + 1;
        }
        proof {
            lemma_lookup_skip(self@, name@, n as int);
            assert(self@.skip(n as int) =~= Seq::<(Seq<char>, Seq<u8>)>::empty());
        }
        Err(Error::NotFound)
    }
}

} // verus!
