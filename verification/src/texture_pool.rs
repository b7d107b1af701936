//! The pool of reusable textures, shared by all outputs.
//!
//! Free textures wait in buckets, one bucket per size. A texture is handed out
//! only while it is fresh; what has waited for the one fixed time to live is
//! expired and is dropped, at the next request for its size or at the next
//! sweep. A bucket holds a few textures at most: one released into a full
//! bucket goes back to the caller.
//!
//! The buckets are a vector, each with its size: a sweep walks and thins
//! every bucket in place, which a vector lets the proofs follow step by step.

use crate::timing::elapsed_between;
use crate::timing::elapsed_since;
use vstd::prelude::*;

verus! {

/// Most free textures kept for one size.
pub const MAX_TEXTURES_PER_BUCKET: usize = 3;

/// A free texture that has waited this long is expired: it is not handed
/// out again, and a sweep drops it.
pub const TEXTURE_TTL_US: u64 = 5_000_000;

/// Time between two sweeps.
pub const SWEEP_INTERVAL_US: u64 = 5_000_000;

/// A free texture and the time it was released at.
pub struct TexturePoolEntry<T> {
    pub texture: T,
    pub last_used: u64,
}

struct Bucket<T> {
    width: u32,
    height: u32,
    entries: Vec<TexturePoolEntry<T>>,
}

/// Free textures by size, with counts of the requests served from the pool and of those not.
pub struct TexturePool<T> {
    buckets: Vec<Bucket<T>>,
    hits: u64,
    misses: u64,
}

/// Whether a texture released at `last_used` is younger than `ttl_us` at `now`.
pub open spec fn is_fresh(last_used: u64, now: u64, ttl_us: u64) -> bool {
    elapsed_between(last_used, now) < ttl_us
}

/// The test that keeps the entries younger than `ttl_us` at `now`.
pub open spec fn fresh_pred<T>(now: u64, ttl_us: u64) -> spec_fn(TexturePoolEntry<T>) -> bool {
    |e: TexturePoolEntry<T>| is_fresh(e.last_used, now, ttl_us)
}

/// The entries of `bucket` that are younger than `ttl_us` at `now`, in their order.
pub open spec fn fresh_entries<T>(
    bucket: Seq<TexturePoolEntry<T>>,
    now: u64,
    ttl_us: u64,
) -> Seq<TexturePoolEntry<T>> {
    bucket.filter(fresh_pred(now, ttl_us))
}

/// The bucket after `texture` was released into it at `now`: appended where
/// there is room, unchanged where the bucket is full.
pub open spec fn released_into<T>(
    bucket: Seq<TexturePoolEntry<T>>,
    texture: T,
    now: u64,
) -> Seq<TexturePoolEntry<T>> {
    if bucket.len() < MAX_TEXTURES_PER_BUCKET {
        bucket.push(TexturePoolEntry { texture, last_used: now })
    } else {
        bucket
    }
}

/// A counter one higher, kept at its top once it is reached.
pub open spec fn bumped(n: u64) -> u64 {
    if n < u64::MAX {
        (n + 1) as u64
    } else {
        n
    }
}

/// Whether a sweep is due at `now`, the last one having run at `last_sweep`.
pub open spec fn sweep_is_due(last_sweep: u64, now: u64) -> bool {
    elapsed_between(last_sweep, now) >= SWEEP_INTERVAL_US
}

spec fn has_bucket<T>(bs: Seq<Bucket<T>>, w: u32, h: u32) -> bool {
    exists|i: int| 0 <= i < bs.len() && (#[trigger] bs[i]).width == w && bs[i].height == h
}

spec fn slot_of<T>(bs: Seq<Bucket<T>>, w: u32, h: u32) -> int {
    choose|i: int| 0 <= i < bs.len() && (#[trigger] bs[i]).width == w && bs[i].height == h
}

spec fn bucket_of<T>(bs: Seq<Bucket<T>>, w: u32, h: u32) -> Seq<TexturePoolEntry<T>> {
    if has_bucket(bs, w, h) {
        bs[slot_of(bs, w, h)].entries@
    } else {
        Seq::empty()
    }
}

spec fn distinct_sizes<T>(bs: Seq<Bucket<T>>) -> bool {
    forall|i: int, j: int|
        0 <= i < bs.len() && 0 <= j < bs.len() && i != j ==> !((#[trigger] bs[i]).width == (
        #[trigger] bs[j]).width && bs[i].height == bs[j].height)
}

spec fn capped<T>(bs: Seq<Bucket<T>>) -> bool {
    forall|i: int| 0 <= i < bs.len() ==> (#[trigger] bs[i]).entries@.len() <= MAX_TEXTURES_PER_BUCKET
}

spec fn same_sizes<T>(a: Seq<Bucket<T>>, b: Seq<Bucket<T>>) -> bool {
    &&& a.len() == b.len()
    &&& forall|i: int|
        0 <= i < a.len() ==> (#[trigger] a[i]).width == b[i].width && a[i].height == b[i].height
}

/// With distinct sizes, the bucket at `i` is the bucket of its size.
proof fn lemma_bucket_at<T>(bs: Seq<Bucket<T>>, i: int)
    requires
        distinct_sizes(bs),
        0 <= i < bs.len(),
    ensures
        has_bucket(bs, bs[i].width, bs[i].height),
        slot_of(bs, bs[i].width, bs[i].height) == i,
        bucket_of(bs, bs[i].width, bs[i].height) == bs[i].entries@,
{
    let w = bs[i].width;
    let h = bs[i].height;
    assert(bs[i].width == w && bs[i].height == h);
    let j = slot_of(bs, w, h);
    assert(0 <= j < bs.len() && bs[j].width == w && bs[j].height == h);
    assert(j == i);
}

/// Buckets that keep their sizes keep them distinct.
proof fn lemma_sizes_stay_distinct<T>(a: Seq<Bucket<T>>, b: Seq<Bucket<T>>)
    requires
        distinct_sizes(a),
        same_sizes(a, b),
    ensures
        distinct_sizes(b),
{
    assert forall|x: int, y: int| 0 <= x < b.len() && 0 <= y < b.len() && x != y implies !((
    #[trigger] b[x]).width == (#[trigger] b[y]).width && b[x].height == b[y].height) by {
        assert(a[x].width == b[x].width && a[y].width == b[y].width);
        assert(a[x].height == b[x].height && a[y].height == b[y].height);
    }
}

/// Changing the entries of one bucket leaves the buckets of all other sizes as they were.
proof fn lemma_other_buckets_kept<T>(a: Seq<Bucket<T>>, b: Seq<Bucket<T>>, i: int, w: u32, h: u32)
    requires
        distinct_sizes(a),
        same_sizes(a, b),
        0 <= i < a.len(),
        forall|j: int| 0 <= j < a.len() && j != i ==> (#[trigger] a[j]).entries@ == b[j].entries@,
        !(a[i].width == w && a[i].height == h),
    ensures
        bucket_of(b, w, h) == bucket_of(a, w, h),
{
    lemma_sizes_stay_distinct(a, b);
    if has_bucket(a, w, h) {
        let j = slot_of(a, w, h);
        assert(b[j].width == w && b[j].height == h);
        lemma_bucket_at(a, j);
        lemma_bucket_at(b, j);
    } else {
        if has_bucket(b, w, h) {
            let j = slot_of(b, w, h);
            assert(a[j].width == w && a[j].height == h);
        }
    }
}

/// One more step of a filter: the first `k + 1` entries, filtered, are the
/// first `k` filtered, and the entry at `k` where it passes.
proof fn lemma_filter_step<T>(s: Seq<TexturePoolEntry<T>>, k: int, now: u64, ttl_us: u64)
    requires
        0 <= k < s.len(),
    ensures
        fresh_entries(s.take(k + 1), now, ttl_us) == if is_fresh(s[k].last_used, now, ttl_us) {
            fresh_entries(s.take(k), now, ttl_us).push(s[k])
        } else {
            fresh_entries(s.take(k), now, ttl_us)
        },
{
    reveal(Seq::filter);
    assert(s.take(k + 1).drop_last() =~= s.take(k));
    assert(s.take(k + 1).last() == s[k]);
}

/// Drops from `entries` what is not younger than `ttl_us` at `now`.
fn retain_fresh<T>(entries: &mut Vec<TexturePoolEntry<T>>, now: u64, ttl_us: u64)
    ensures
        final(entries)@ == fresh_entries(old(entries)@, now, ttl_us),
{
    let ghost before = entries@;
    let ghost mut seen: int = 0;
    let mut i: usize = 0;
    proof {
        reveal(Seq::filter);
        assert(before.take(0) =~= Seq::<TexturePoolEntry<T>>::empty());
    }
    while i < entries.len()
        invariant
            0 <= seen <= before.len(),
            i <= entries@.len(),
            entries@.len() - i == before.len() - seen,
            entries@.take(i as int) == fresh_entries(before.take(seen), now, ttl_us),
            entries@.skip(i as int) == before.skip(seen),
        decreases entries@.len() - i,
    {
        let ghost current = entries@;
        proof {
            assert(current[i as int] == current.skip(i as int)[0]);
            assert(before.skip(seen)[0] == before[seen]);
            lemma_filter_step(before, seen, now, ttl_us);
        }
        if elapsed_since(entries[i].last_used, now) < ttl_us {
            proof {
                assert(current.take(i as int + 1) =~= current.take(i as int).push(current[i as int]));
                assert(current.skip(i as int + 1) =~= current.skip(i as int).skip(1));
                assert(before.skip(seen + 1) =~= before.skip(seen).skip(1));
                seen = seen + 1;
            }
            i = i + 1;
        } else {
            let _expired = entries.remove(i);
            proof {
                assert(entries@.take(i as int) =~= current.take(i as int));
                assert(entries@.skip(i as int) =~= current.skip(i as int).skip(1));
                assert(before.skip(seen + 1) =~= before.skip(seen).skip(1));
                seen = seen + 1;
            }
        }
    }
    proof {
        assert(entries@.take(i as int) =~= entries@);
        assert(before.take(seen) =~= before);
    }
}

impl<T> TexturePool<T> {
    /// The free textures of one size, oldest release first; empty where the pool has none.
    pub closed spec fn bucket(&self, width: u32, height: u32) -> Seq<TexturePoolEntry<T>> {
        bucket_of(self.buckets@, width, height)
    }

    /// Requests that were served from the pool.
    pub closed spec fn hit_count(&self) -> u64 {
        self.hits
    }

    /// Requests that found no fresh texture.
    pub closed spec fn miss_count(&self) -> u64 {
        self.misses
    }

    /// Each size has one bucket, and no bucket holds more than `MAX_TEXTURES_PER_BUCKET` textures.
    pub closed spec fn wf(&self) -> bool {
        &&& distinct_sizes(self.buckets@)
        &&& capped(self.buckets@)
    }

    /// In a pool that is in order no size has more than
    /// `MAX_TEXTURES_PER_BUCKET` free textures.
    pub proof fn lemma_buckets_are_capped(&self, width: u32, height: u32)
        requires
            self.wf(),
        ensures
            self.bucket(width, height).len() <= MAX_TEXTURES_PER_BUCKET,
    {
        if has_bucket(self.buckets@, width, height) {
            let i = slot_of(self.buckets@, width, height);
            assert(self.buckets@[i].entries@.len() <= MAX_TEXTURES_PER_BUCKET);
        }
    }

    /// What a request for a texture of the given size at `now` makes of the
    /// pool `before`, `hit` being what is handed out: what is expired leaves
    /// the bucket; of the rest the texture released last is handed out and
    /// counted as a hit; where nothing is left, nothing is handed out and a
    /// miss is counted. Other sizes are not touched.
    pub open spec fn acquired(
        before: Self,
        after: Self,
        width: u32,
        height: u32,
        now: u64,
        hit: Option<T>,
    ) -> bool {
        let fresh = fresh_entries(before.bucket(width, height), now, TEXTURE_TTL_US);
        &&& after.wf()
        &&& match hit {
            Some(texture) => {
                &&& fresh.len() > 0
                &&& texture == fresh.last().texture
                &&& after.bucket(width, height) == fresh.drop_last()
                &&& after.hit_count() == bumped(before.hit_count())
                &&& after.miss_count() == before.miss_count()
            },
            None => {
                &&& fresh.len() == 0
                &&& after.bucket(width, height) == Seq::<TexturePoolEntry<T>>::empty()
                &&& after.hit_count() == before.hit_count()
                &&& after.miss_count() == bumped(before.miss_count())
            },
        }
        &&& forall|w: u32, h: u32|
            !(w == width && h == height) ==> #[trigger] after.bucket(w, h) == before.bucket(w, h)
    }

    /// What the release of `texture` under the given size at `now` makes of
    /// the pool `before`, `excess` being what comes back: the texture joins
    /// its bucket where there is room and comes back where there is none.
    /// Other sizes and the counts are not touched.
    pub open spec fn released(
        before: Self,
        after: Self,
        texture: T,
        width: u32,
        height: u32,
        now: u64,
        excess: Option<T>,
    ) -> bool {
        &&& after.wf()
        &&& after.bucket(width, height) == released_into(before.bucket(width, height), texture, now)
        &&& excess == if before.bucket(width, height).len() < MAX_TEXTURES_PER_BUCKET {
            None
        } else {
            Some(texture)
        }
        &&& after.hit_count() == before.hit_count()
        &&& after.miss_count() == before.miss_count()
        &&& forall|w: u32, h: u32|
            !(w == width && h == height) ==> #[trigger] after.bucket(w, h) == before.bucket(w, h)
    }

    /// What a sweep at `now` makes of the pool `before`: every bucket keeps
    /// what is not expired, in its order, and nothing else; the counts are not touched.
    pub open spec fn swept(before: Self, after: Self, now: u64) -> bool {
        &&& after.wf()
        &&& forall|w: u32, h: u32| #[trigger]
            after.bucket(w, h) == fresh_entries(before.bucket(w, h), now, TEXTURE_TTL_US)
        &&& after.hit_count() == before.hit_count()
        &&& after.miss_count() == before.miss_count()
    }

    /// A pool without textures.
    pub fn new() -> (pool: Self)
        ensures
            pool.wf(),
            pool.hit_count() == 0,
            pool.miss_count() == 0,
            forall|w: u32, h: u32| #[trigger] pool.bucket(w, h) == Seq::<TexturePoolEntry<T>>::empty(),
    {
        TexturePool { buckets: Vec::new(), hits: 0, misses: 0 }
    }

    /// Requests served from the pool so far.
    pub fn hits(&self) -> (n: u64)
        ensures
            n == self.hit_count(),
    {
        self.hits
    }

    /// Requests that found no fresh texture so far.
    pub fn misses(&self) -> (n: u64)
        ensures
            n == self.miss_count(),
    {
        self.misses
    }

    fn find(&self, width: u32, height: u32) -> (at: usize)
        requires
            self.wf(),
        ensures
            at <= self.buckets@.len(),
            at < self.buckets@.len() ==> self.buckets@[at as int].width == width
                && self.buckets@[at as int].height == height && self.bucket(width, height)
                == self.buckets@[at as int].entries@,
            at == self.buckets@.len() ==> !has_bucket(self.buckets@, width, height),
    {
        let mut i: usize = 0;
        while i < self.buckets.len()
            invariant
                self.wf(),
                i <= self.buckets@.len(),
                forall|j: int|
                    0 <= j < i ==> !((#[trigger] self.buckets@[j]).width == width
                        && self.buckets@[j].height == height),
            decreases self.buckets@.len() - i,
        {
            if self.buckets[i].width == width && self.buckets[i].height == height {
                proof {
                    lemma_bucket_at(self.buckets@, i as int);
                }
                return i;
            }
            i = i + 1;
        }
        i
    }

    /// Takes a free texture of the given size out of the pool.
    ///
    /// What has waited `TEXTURE_TTL_US` or longer leaves the bucket first. Of
    /// what is left the texture released last is handed out, and is no longer
    /// in the pool. `None` says that the caller has to make a new texture.
    pub fn get_texture_from_pool(&mut self, width: u32, height: u32, now: u64) -> (hit: Option<T>)
        requires
            old(self).wf(),
        ensures
            TexturePool::acquired(*old(self), *final(self), width, height, now, hit),
    {
        let ghost before = self.buckets@;
        let at = self.find(width, height);
        let mut taken: Option<T> = None;
        if at < self.buckets.len() {
            let mut bucket = self.buckets.remove(at);
            retain_fresh(&mut bucket.entries, now, TEXTURE_TTL_US);
            match bucket.entries.pop() {
                Some(entry) => {
                    taken = Some(entry.texture);
                },
                None => {},
            }
            self.buckets.insert(at, bucket);
            proof {
                let after = self.buckets@;
                assert(same_sizes(before, after));
                assert forall|w: u32, h: u32| !(w == width && h == height) implies bucket_of(
                    after,
                    w,
                    h,
                ) == bucket_of(before, w, h) by {
                    lemma_other_buckets_kept(before, after, at as int, w, h);
                }
                lemma_sizes_stay_distinct(before, after);
                lemma_bucket_at(after, at as int);
            }
        } else {
            proof {
                reveal(Seq::filter);
            }
        }
        if taken.is_some() {
            if self.hits < u64::MAX {
                self.hits = self.hits + 1;
            }
        } else {
            if self.misses < u64::MAX {
                self.misses = self.misses + 1;
            }
        }
        proof {
            let fresh = fresh_entries(old(self).bucket(width, height), now, TEXTURE_TTL_US);
            assert(forall|w: u32, h: u32|
                !(w == width && h == height) ==> #[trigger] self.bucket(w, h) == old(self).bucket(
                    w,
                    h,
                ));
            if taken.is_some() {
                assert(fresh.len() > 0 && taken.unwrap() == fresh.last().texture);
                assert(self.bucket(width, height) == fresh.drop_last());
            } else {
                assert(fresh.len() == 0);
                assert(self.bucket(width, height) == Seq::<TexturePoolEntry<T>>::empty());
            }
        }
        taken
    }

    /// Gives a texture of the given size back for reuse.
    ///
    /// It joins its bucket where that holds fewer than
    /// `MAX_TEXTURES_PER_BUCKET` textures. From a full bucket it comes back to
    /// the caller, who destroys it.
    pub fn return_texture_to_pool(&mut self, texture: T, width: u32, height: u32, now: u64) -> (excess:
        Option<T>)
        requires
            old(self).wf(),
        ensures
            TexturePool::released(*old(self), *final(self), texture, width, height, now, excess),
    {
        let ghost before = self.buckets@;
        let at = self.find(width, height);
        if at < self.buckets.len() {
            if self.buckets[at].entries.len() < MAX_TEXTURES_PER_BUCKET {
                let mut bucket = self.buckets.remove(at);
                bucket.entries.push(TexturePoolEntry { texture, last_used: now });
                self.buckets.insert(at, bucket);
                proof {
                    let after = self.buckets@;
                    assert(same_sizes(before, after));
                    assert forall|w: u32, h: u32| !(w == width && h == height) implies bucket_of(
                        after,
                        w,
                        h,
                    ) == bucket_of(before, w, h) by {
                        lemma_other_buckets_kept(before, after, at as int, w, h);
                    }
                    lemma_sizes_stay_distinct(before, after);
                    lemma_bucket_at(after, at as int);
                }
                None
            } else {
                Some(texture)
            }
        } else {
            let mut entries: Vec<TexturePoolEntry<T>> = Vec::new();
            entries.push(TexturePoolEntry { texture, last_used: now });
            self.buckets.push(Bucket { width, height, entries });
            proof {
                let after = self.buckets@;
                let last = after.len() - 1;
                assert(after[last].width == width && after[last].height == height);
                assert forall|i: int, j: int|
                    0 <= i < after.len() && 0 <= j < after.len() && i != j implies !((
                #[trigger] after[i]).width == (#[trigger] after[j]).width && after[i].height
                    == after[j].height) by {
                    if i < last {
                        assert(after[i] == before[i]);
                    }
                    if j < last {
                        assert(after[j] == before[j]);
                    }
                }
                lemma_bucket_at(after, last);
                assert(after[last].entries@ =~= Seq::<TexturePoolEntry<T>>::empty().push(
                    TexturePoolEntry { texture, last_used: now },
                ));
                assert forall|w: u32, h: u32| !(w == width && h == height) implies bucket_of(
                    after,
                    w,
                    h,
                ) == bucket_of(before, w, h) by {
                    if has_bucket(before, w, h) {
                        let j = slot_of(before, w, h);
                        assert(after[j] == before[j]);
                        lemma_bucket_at(after, j);
                    } else {
                        if has_bucket(after, w, h) {
                            let j = slot_of(after, w, h);
                            assert(j < last);
                            assert(after[j] == before[j]);
                        }
                    }
                }
            }
            None
        }
    }

    /// Drops every free texture that has waited `TEXTURE_TTL_US` or longer.
    pub fn cleanup_texture_pool(&mut self, now: u64)
        requires
            old(self).wf(),
        ensures
            TexturePool::swept(*old(self), *final(self), now),
    {
        let ghost before = self.buckets@;
        let mut kept: Vec<Bucket<T>> = Vec::new();
        let ghost mut origin: Seq<int> = Seq::empty();
        let mut seen: usize = 0;
        let total = self.buckets.len();
        while self.buckets.len() > 0
            invariant
                self.hits == old(self).hits,
                self.misses == old(self).misses,
                capped(before),
                capped(kept@),
                total == before.len(),
                seen <= total,
                self.buckets@ == before.skip(seen as int),
                origin.len() == kept@.len(),
                forall|k: int|
                    0 <= k < kept@.len() ==> 0 <= #[trigger] origin[k] < seen && kept@[k].width
                        == before[origin[k]].width && kept@[k].height == before[origin[k]].height
                        && kept@[k].entries@ == fresh_entries(
                        before[origin[k]].entries@,
                        now,
                        TEXTURE_TTL_US,
                    ) && kept@[k].entries@.len() > 0,
                forall|a: int, b: int|
                    0 <= a < b < origin.len() ==> #[trigger] origin[a] < #[trigger] origin[b],
                forall|i: int|
                    0 <= i < seen && fresh_entries(
                        (#[trigger] before[i]).entries@,
                        now,
                        TEXTURE_TTL_US,
                    ).len() > 0 ==> exists|k: int| 0 <= k < origin.len() && origin[k] == i,
            decreases self.buckets@.len(),
        {
            let ghost rest = self.buckets@;
            let mut bucket = self.buckets.remove(0);
            proof {
                assert(bucket == before[seen as int]);
                assert(self.buckets@ =~= before.skip(seen as int + 1));
            }
            retain_fresh(&mut bucket.entries, now, TEXTURE_TTL_US);
            proof {
                before[seen as int].entries@.lemma_filter_len(fresh_pred(now, TEXTURE_TTL_US));
            }
            if bucket.entries.len() > 0 {
                let ghost old_origin = origin;
                let ghost old_kept = kept@;
                kept.push(bucket);
                proof {
                    origin = origin.push(seen as int);
                    assert forall|i: int|
                        0 <= i < seen + 1 && fresh_entries(
                            (#[trigger] before[i]).entries@,
                            now,
                            TEXTURE_TTL_US,
                        ).len() > 0 implies exists|k: int|
                        0 <= k < origin.len() && origin[k] == i by {
                        if i < seen {
                            let k = choose|k: int| 0 <= k < old_origin.len() && old_origin[k] == i;
                            assert(origin[k] == i);
                        } else {
                            assert(origin[origin.len() - 1] == i);
                        }
                    }
                }
            }
            seen = seen + 1;
        }
        self.buckets = kept;
        proof {
            let after = self.buckets@;
            assert forall|i: int, j: int|
                0 <= i < after.len() && 0 <= j < after.len() && i != j implies !((
            #[trigger] after[i]).width == (#[trigger] after[j]).width && after[i].height
                == after[j].height) by {
                if i < j {
                    assert(origin[i] < origin[j]);
                } else {
                    assert(origin[j] < origin[i]);
                }
                assert(before[origin[i]].width == after[i].width);
                assert(before[origin[j]].width == after[j].width);
            }
            assert forall|w: u32, h: u32| #[trigger]
                bucket_of(after, w, h) == fresh_entries(bucket_of(before, w, h), now, TEXTURE_TTL_US) by {
                if has_bucket(after, w, h) {
                    let k = slot_of(after, w, h);
                    let i = origin[k];
                    assert(before[i].width == w && before[i].height == h);
                    lemma_bucket_at(before, i);
                    lemma_bucket_at(after, k);
                } else {
                    if has_bucket(before, w, h) {
                        let i = slot_of(before, w, h);
                        lemma_bucket_at(before, i);
                        if fresh_entries(before[i].entries@, now, TEXTURE_TTL_US).len() > 0 {
                            let k = choose|k: int| 0 <= k < origin.len() && origin[k] == i;
                            assert(after[k].width == w && after[k].height == h);
                            assert(false);
                        }
                        assert(fresh_entries(before[i].entries@, now, TEXTURE_TTL_US)
                            =~= Seq::<TexturePoolEntry<T>>::empty());
                    } else {
                        reveal(Seq::filter);
                        assert(fresh_entries(Seq::<TexturePoolEntry<T>>::empty(), now, TEXTURE_TTL_US)
                            =~= Seq::<TexturePoolEntry<T>>::empty());
                    }
                }
            }
        }
    }
}

/// Whether the pool is due for a sweep at `now`.
pub fn sweep_due(last_sweep: u64, now: u64) -> (due: bool)
    ensures
        due == sweep_is_due(last_sweep, now),
{
    elapsed_since(last_sweep, now) >= SWEEP_INTERVAL_US
}

/// A texture released into a bucket with room, and asked for again before it
/// has waited `TEXTURE_TTL_US`, is the texture that is handed out, and the
/// bucket is then what was fresh in it before.
pub proof fn lemma_release_then_acquire_hits<T>(
    bucket: Seq<TexturePoolEntry<T>>,
    texture: T,
    released_at: u64,
    acquired_at: u64,
)
    requires
        bucket.len() < MAX_TEXTURES_PER_BUCKET,
        is_fresh(released_at, acquired_at, TEXTURE_TTL_US),
    ensures
        fresh_entries(released_into(bucket, texture, released_at), acquired_at, TEXTURE_TTL_US).len()
            > 0,
        fresh_entries(
            released_into(bucket, texture, released_at),
            acquired_at,
            TEXTURE_TTL_US,
        ).last().texture == texture,
        fresh_entries(
            released_into(bucket, texture, released_at),
            acquired_at,
            TEXTURE_TTL_US,
        ).drop_last() == fresh_entries(bucket, acquired_at, TEXTURE_TTL_US),
{
    reveal(Seq::filter);
    let entry = TexturePoolEntry { texture, last_used: released_at };
    let after = bucket.push(entry);
    assert(after.drop_last() =~= bucket);
    assert(after.last() == entry);
    let f = fresh_entries(bucket, acquired_at, TEXTURE_TTL_US);
    assert(fresh_entries(after, acquired_at, TEXTURE_TTL_US) == f.push(entry));
    assert(f.push(entry).drop_last() =~= f);
}

/// A texture that is released into a bucket with room and asked for again
/// before it expires is the texture that the request hands out: the request
/// is a hit, no miss is counted, and the bucket is then what was fresh in it
/// before. Below its top the count of hits is one higher.
pub proof fn lemma_recycled_texture_is_a_hit<T>(
    before: TexturePool<T>,
    between: TexturePool<T>,
    after: TexturePool<T>,
    texture: T,
    width: u32,
    height: u32,
    released_at: u64,
    acquired_at: u64,
    excess: Option<T>,
    hit: Option<T>,
)
    requires
        TexturePool::released(before, between, texture, width, height, released_at, excess),
        TexturePool::acquired(between, after, width, height, acquired_at, hit),
        before.bucket(width, height).len() < MAX_TEXTURES_PER_BUCKET,
        is_fresh(released_at, acquired_at, TEXTURE_TTL_US),
    ensures
        excess.is_none(),
        hit == Some(texture),
        after.bucket(width, height) == fresh_entries(
            before.bucket(width, height),
            acquired_at,
            TEXTURE_TTL_US,
        ),
        after.hit_count() == bumped(before.hit_count()),
        before.hit_count() < u64::MAX ==> after.hit_count() == before.hit_count() + 1,
        after.miss_count() == before.miss_count(),
{
    lemma_release_then_acquire_hits(before.bucket(width, height), texture, released_at, acquired_at);
}

/// What a request refuses as expired is what a sweep drops: after a sweep at
/// `now`, a request at `now` finds every texture of the bucket fresh.
pub proof fn lemma_sweep_and_request_agree<T>(
    before: TexturePool<T>,
    after: TexturePool<T>,
    now: u64,
    width: u32,
    height: u32,
)
    requires
        TexturePool::swept(before, after, now),
    ensures
        fresh_entries(after.bucket(width, height), now, TEXTURE_TTL_US) == after.bucket(width, height),
        after.bucket(width, height) == fresh_entries(
            before.bucket(width, height),
            now,
            TEXTURE_TTL_US,
        ),
{
    let pred = fresh_pred::<T>(now, TEXTURE_TTL_US);
    let kept = before.bucket(width, height).filter(pred);
    assert(after.bucket(width, height) == kept);
    lemma_filter_twice(before.bucket(width, height), now, TEXTURE_TTL_US);
}

proof fn lemma_filter_twice<T>(s: Seq<TexturePoolEntry<T>>, now: u64, ttl_us: u64)
    ensures
        fresh_entries(fresh_entries(s, now, ttl_us), now, ttl_us) == fresh_entries(s, now, ttl_us),
    decreases s.len(),
{
    reveal(Seq::filter);
    if s.len() > 0 {
        lemma_filter_twice(s.drop_last(), now, ttl_us);
        let rest = fresh_entries(s.drop_last(), now, ttl_us);
        if is_fresh(s.last().last_used, now, ttl_us) {
            let kept = rest.push(s.last());
            assert(kept.drop_last() =~= rest);
            assert(kept.last() == s.last());
        }
    }
}

} // verus!
