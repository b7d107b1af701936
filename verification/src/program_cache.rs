//! The bounded cache of compiled transition programs, shared by all outputs.
//!
//! Entries are kept in order of use, least recently used first. A lookup that
//! hits moves the entry to the back; an insert of a new name evicts from the
//! front until there is room.
//!
//! The entries are one vector of names with their programs, in that order:
//! the names are strings, for which a hash map has no model to reason with,
//! and the order of use is then the order of the vector.

use vstd::prelude::*;
use vstd::string::*;

verus! {

/// Least-recently-used cache from transition name to compiled program.
pub struct PipelineLRU<P> {
    entries: Vec<(String, P)>,
    max_size: usize,
}

/// Whether some entry of `s` is stored under `key`.
pub open spec fn has_key<P>(s: Seq<(Seq<char>, P)>, key: Seq<char>) -> bool {
    exists|i: int| 0 <= i < s.len() && (#[trigger] s[i]).0 == key
}

/// Whether `i` is the first position of `s` stored under `key`.
pub open spec fn is_first_match<P>(s: Seq<(Seq<char>, P)>, key: Seq<char>, i: int) -> bool {
    &&& 0 <= i < s.len()
    &&& s[i].0 == key
    &&& forall|j: int| 0 <= j < i ==> (#[trigger] s[j]).0 != key
}

/// The first position of `s` stored under `key`, where there is one.
pub open spec fn position_of<P>(s: Seq<(Seq<char>, P)>, key: Seq<char>) -> int {
    choose|i: int| is_first_match(s, key, i)
}

/// The program stored under `key`, where there is one.
pub open spec fn lookup<P>(s: Seq<(Seq<char>, P)>, key: Seq<char>) -> Option<P> {
    if has_key(s, key) {
        Some(s[position_of(s, key)].1)
    } else {
        None
    }
}

/// The entries after a lookup of `key`: a hit moves the entry to the back.
pub open spec fn after_get<P>(s: Seq<(Seq<char>, P)>, key: Seq<char>) -> Seq<(Seq<char>, P)> {
    if has_key(s, key) {
        s.remove(position_of(s, key)).push(s[position_of(s, key)])
    } else {
        s
    }
}

/// The entries after `program` was stored under `key` in a cache made with
/// `max_size`: an entry under `key` is replaced, else room is made from the
/// front; the new entry is at the back.
pub open spec fn after_insert<P>(
    s: Seq<(Seq<char>, P)>,
    max_size: nat,
    key: Seq<char>,
    program: P,
) -> Seq<(Seq<char>, P)> {
    if has_key(s, key) {
        s.remove(position_of(s, key)).push((key, program))
    } else {
        s.skip(evicted_for_insert(s.len(), max_size) as int).push((key, program))
    }
}

/// A name that is stored has exactly one first position.
pub proof fn lemma_first_match_unique<P>(s: Seq<(Seq<char>, P)>, key: Seq<char>, i: int)
    requires
        is_first_match(s, key, i),
    ensures
        has_key(s, key),
        position_of(s, key) == i,
{
    let j = position_of(s, key);
    assert(is_first_match(s, key, j));
    if j < i {
        assert(s[j].0 != key);
    }
    if i < j {
        assert(s[i].0 != key);
    }
}

/// Among distinct names, a name that is stored has a first position.
pub proof fn lemma_stored_key_has_position<P>(s: Seq<(Seq<char>, P)>, key: Seq<char>)
    requires
        distinct_keys(s),
        has_key(s, key),
    ensures
        is_first_match(s, key, position_of(s, key)),
{
    let k = choose|k: int| 0 <= k < s.len() && (#[trigger] s[k]).0 == key;
    assert forall|j: int| 0 <= j < k implies (#[trigger] s[j]).0 != key by {
        assert(s[j].0 != s[k].0);
    }
    assert(is_first_match(s, key, k));
}

/// No name is stored twice.
pub open spec fn distinct_keys<P>(s: Seq<(Seq<char>, P)>) -> bool {
    forall|i: int, j: int|
        0 <= i < s.len() && 0 <= j < s.len() && i != j ==> (#[trigger] s[i]).0 != (#[trigger] s[j]).0
}

/// How many entries leave from the front so that one more fits under `max_size`.
pub open spec fn evicted_for_insert(len: nat, max_size: nat) -> nat {
    if len < max_size {
        0
    } else if max_size == 0 {
        len
    } else {
        (len - max_size + 1) as nat
    }
}

/// The most entries a cache made with `max_size` ever holds: an insert always
/// keeps what it was given, so a cache made with zero holds one.
pub open spec fn effective_capacity(max_size: nat) -> nat {
    if max_size == 0 {
        1
    } else {
        max_size
    }
}

spec fn entry_view<P>(e: (String, P)) -> (Seq<char>, P) {
    (e.0@, e.1)
}

impl<P> PipelineLRU<P> {
    /// The entries, least recently used first, each name as its characters.
    pub closed spec fn view(&self) -> Seq<(Seq<char>, P)> {
        self.entries@.map_values(|e: (String, P)| entry_view(e))
    }

    /// The bound the cache was made with.
    pub closed spec fn capacity(&self) -> nat {
        self.max_size as nat
    }

    /// No name is stored twice and the bound is kept.
    pub open spec fn wf(&self) -> bool {
        &&& distinct_keys(self@)
        &&& self@.len() <= effective_capacity(self.capacity())
    }

    /// An empty cache that keeps at most `max_size` programs.
    pub fn new(max_size: usize) -> (cache: Self)
        ensures
            cache@ == Seq::<(Seq<char>, P)>::empty(),
            cache.capacity() == max_size,
            cache.wf(),
    {
        let cache = PipelineLRU { entries: Vec::new(), max_size };
        assert(cache@ =~= Seq::<(Seq<char>, P)>::empty());
        cache
    }

    /// Number of cached programs.
    pub fn len(&self) -> (n: usize)
        ensures
            n == self@.len(),
    {
        self.entries.len()
    }

    /// Whether a program is cached under `key`. The order of use is not touched.
    pub fn contains_key(&self, key: &str) -> (found: bool)
        ensures
            found == has_key(self@, key@),
    {
        let i = self.position(key);
        i < self.entries.len()
    }

    /// First position stored under `key`, or the length when there is none.
    fn position(&self, key: &str) -> (i: usize)
        ensures
            i <= self@.len(),
            i < self@.len() ==> is_first_match(self@, key@, i as int),
            i == self@.len() ==> !has_key(self@, key@),
    {
        let wanted = key.to_owned();
        let mut i: usize = 0;
        while i < self.entries.len()
            invariant
                wanted@ == key@,
                i <= self.entries@.len(),
                self@.len() == self.entries@.len(),
                forall|j: int| 0 <= j < i ==> (#[trigger] self@[j]).0 != key@,
            decreases self.entries@.len() - i,
        {
            if self.entries[i].0 == wanted {
                assert(self@[i as int].0 == key@);
                return i;
            }
            assert(self@[i as int].0 != key@);
            i = i + 1;
        }
        i
    }

    /// Stores `pipeline` under `key` as the most recently used entry.
    ///
    /// A program already stored under `key` is replaced and nothing is
    /// evicted. Otherwise the least recently used entries leave until the new
    /// one fits.
    pub fn insert(&mut self, key: String, pipeline: P)
        ensures
            final(self).capacity() == old(self).capacity(),
            final(self)@ == after_insert(old(self)@, old(self).capacity(), key@, pipeline),
            old(self).wf() ==> final(self).wf(),
            has_key(final(self)@, key@),
            final(self)@.len() > 0 && final(self)@.last() == (key@, pipeline),
    {
        let ghost before = self@;
        let at = self.position(key.as_str());
        if at < self.entries.len() {
            let _stale = self.entries.remove(at);
            proof {
                lemma_first_match_unique(before, key@, at as int);
            }
            assert(self@ =~= before.remove(at as int));
        } else {
            let ghost mut gone: int = 0;
            while self.entries.len() >= self.max_size && self.entries.len() > 0
                invariant
                    0 <= gone <= before.len(),
                    self@ == before.skip(gone),
                    self.max_size == old(self).max_size,
                    gone <= evicted_for_insert(before.len(), self.max_size as nat),
                decreases self.entries@.len(),
            {
                let ghost prev = self@;
                let _evicted = self.entries.remove(0);
                proof {
                    assert(self@ =~= prev.remove(0));
                    assert(prev.remove(0) =~= before.skip(gone + 1));
                    gone = gone + 1;
                }
            }
            assert(gone == evicted_for_insert(before.len(), self.max_size as nat));
        }
        let ghost mid = self@;
        self.entries.push((key, pipeline));
        proof {
            assert(self@ =~= mid.push((key@, pipeline)));
            assert(self@.last() == (key@, pipeline));
            assert(self@[self@.len() - 1].0 == key@);
            if old(self).wf() {
                lemma_insert_keeps_distinct(before, mid, key@, pipeline);
            }
        }
    }
}

impl<P: Clone> PipelineLRU<P> {
    /// Looks `key` up. A hit hands out a clone of the program and makes the
    /// entry the most recently used; a miss changes nothing.
    pub fn get(&mut self, key: &str) -> (hit: Option<P>)
        ensures
            final(self).capacity() == old(self).capacity(),
            final(self)@.len() == old(self)@.len(),
            final(self)@ == after_get(old(self)@, key@),
            match hit {
                Some(p) => lookup(old(self)@, key@) matches Some(stored) && cloned(stored, p),
                None => lookup(old(self)@, key@).is_none(),
            },
            hit.is_some() == has_key(old(self)@, key@),
            old(self).wf() ==> final(self).wf(),
    {
        let ghost before = self@;
        let at = self.position(key);
        if at < self.entries.len() {
            proof {
                lemma_first_match_unique(before, key@, at as int);
            }
            let entry = self.entries.remove(at);
            let ghost mid = self@;
            let program = entry.1.clone();
            self.entries.push(entry);
            proof {
                assert(mid =~= before.remove(at as int));
                assert(self@ =~= mid.push(before[at as int]));
                assert(is_first_match(before, key@, at as int));
                if old(self).wf() {
                    lemma_insert_keeps_distinct(before, mid, key@, before[at as int].1);
                }
            }
            Some(program)
        } else {
            None
        }
    }
}

/// Removing every entry under `key`, or a run from the front, and then
/// appending one entry under `key` keeps the names distinct.
proof fn lemma_insert_keeps_distinct<P>(
    before: Seq<(Seq<char>, P)>,
    mid: Seq<(Seq<char>, P)>,
    key: Seq<char>,
    value: P,
)
    requires
        distinct_keys(before),
        (exists|i: int| is_first_match(before, key, i) && mid == before.remove(i)) || (!has_key(
            before,
            key,
        ) && exists|k: int| 0 <= k <= before.len() && mid == before.skip(k)),
    ensures
        distinct_keys(mid.push((key, value))),
        !has_key(mid, key),
{
    let after = mid.push((key, value));
    if exists|i: int| is_first_match(before, key, i) && mid == before.remove(i) {
        let i = choose|i: int| is_first_match(before, key, i) && mid == before.remove(i);
        assert forall|a: int| 0 <= a < mid.len() implies (#[trigger] mid[a]).0 != key by {
            let src = if a < i {
                a
            } else {
                a + 1
            };
            assert(mid[a] == before[src]);
            assert(before[src].0 != before[i].0);
        }
        assert forall|a: int, b: int|
            0 <= a < mid.len() && 0 <= b < mid.len() && a != b implies (#[trigger] mid[a]).0 != (
        #[trigger] mid[b]).0 by {
            let sa = if a < i {
                a
            } else {
                a + 1
            };
            let sb = if b < i {
                b
            } else {
                b + 1
            };
            assert(mid[a] == before[sa]);
            assert(mid[b] == before[sb]);
        }
    } else {
        let k = choose|k: int| 0 <= k <= before.len() && mid == before.skip(k);
        assert forall|a: int| 0 <= a < mid.len() implies (#[trigger] mid[a]).0 != key by {
            assert(mid[a] == before[a + k]);
        }
        assert forall|a: int, b: int|
            0 <= a < mid.len() && 0 <= b < mid.len() && a != b implies (#[trigger] mid[a]).0 != (
        #[trigger] mid[b]).0 by {
            assert(mid[a] == before[a + k]);
            assert(mid[b] == before[b + k]);
        }
    }
    assert forall|a: int, b: int|
        0 <= a < after.len() && 0 <= b < after.len() && a != b implies (#[trigger] after[a]).0 != (
    #[trigger] after[b]).0 by {
        if a < mid.len() {
            assert(after[a] == mid[a]);
        }
        if b < mid.len() {
            assert(after[b] == mid[b]);
        }
    }
}

/// What was stored under a name is what the next lookup of that name finds:
/// a program is made once for a name and then served from the cache.
pub proof fn lemma_stored_program_is_found<P>(
    s: Seq<(Seq<char>, P)>,
    max_size: nat,
    key: Seq<char>,
    program: P,
)
    requires
        distinct_keys(s),
    ensures
        has_key(after_insert(s, max_size, key, program), key),
        lookup(after_insert(s, max_size, key, program), key) == Some(program),
        distinct_keys(after_insert(s, max_size, key, program)),
{
    let after = after_insert(s, max_size, key, program);
    let mid = after.drop_last();
    if has_key(s, key) {
        lemma_stored_key_has_position(s, key);
        let i = position_of(s, key);
        assert(is_first_match(s, key, i));
        assert(mid =~= s.remove(i));
        lemma_insert_keeps_distinct(s, mid, key, program);
    } else {
        let k = evicted_for_insert(s.len(), max_size) as int;
        assert(mid =~= s.skip(k));
        lemma_insert_keeps_distinct(s, mid, key, program);
    }
    assert(after =~= mid.push((key, program)));
    let last = after.len() - 1;
    assert(after[last].0 == key);
    assert forall|j: int| 0 <= j < last implies (#[trigger] after[j]).0 != key by {
        assert(after[j] == mid[j]);
    }
    assert(is_first_match(after, key, last));
    lemma_first_match_unique(after, key, last);
}

/// A lookup keeps every program: it changes the order of use and nothing else.
pub proof fn lemma_lookup_keeps_programs<P>(s: Seq<(Seq<char>, P)>, key: Seq<char>, other: Seq<char>)
    requires
        distinct_keys(s),
    ensures
        has_key(after_get(s, key), other) == has_key(s, other),
        lookup(after_get(s, key), other) == lookup(s, other),
        distinct_keys(after_get(s, key)),
{
    let after = after_get(s, key);
    if has_key(s, key) {
        lemma_stored_key_has_position(s, key);
        let i = position_of(s, key);
        assert(is_first_match(s, key, i));
        let mid = s.remove(i);
        lemma_insert_keeps_distinct(s, mid, key, s[i].1);
        assert(after =~= mid.push(s[i]));
        assert(s[i] == (key, s[i].1));
        if has_key(s, other) {
            lemma_stored_key_has_position(s, other);
            let j = position_of(s, other);
            assert(is_first_match(s, other, j));
            let dest = if j == i {
                after.len() - 1
            } else if j < i {
                j
            } else {
                j - 1
            };
            assert(after[dest] == s[j]);
            assert forall|m: int| 0 <= m < dest implies (#[trigger] after[m]).0 != other by {
                let src = if m < i {
                    m
                } else {
                    m + 1
                };
                assert(after[m] == s[src]);
                assert(src != j);
            }
            assert(is_first_match(after, other, dest));
            lemma_first_match_unique(after, other, dest);
        } else {
            if has_key(after, other) {
                let m = position_of(after, other);
                assert(is_first_match(after, other, m));
                let src = if m == after.len() - 1 {
                    i
                } else if m < i {
                    m
                } else {
                    m + 1
                };
                assert(after[m] == s[src]);
                assert(s[src].0 == other);
            }
        }
    }
}

} // verus!
