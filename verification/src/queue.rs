//! The order in which the files of an output are shown: the cursor that
//! walks the pool up or down, and the history that leads back.
//!
//! Picking by lot or by weight is not here: the lot is drawn, and the
//! weights are computed, by the caller.

use crate::config::SortingStrategy;
use crate::content::ContentType;
use crate::text::str_eq;
use vstd::prelude::*;
use vstd::string::*;

verus! {

/// Most files the history remembers.
pub const HISTORY_LIMIT: usize = 50;

/// Lots a draw for the kind of content is made from.
pub const VIDEO_LOTS: u8 = 100;

/// The files of an output and the place in them.
#[derive(Debug)]
pub struct SmartQueue {
    /// The files to pick from, in ascending order.
    pub pool: Vec<String>,
    /// Share of video among the picks, in percent.
    pub video_ratio: u8,
    pub strategy: SortingStrategy,
    /// The file the cursor points at.
    pub current_index: usize,
    /// The files that were picked, latest last.
    pub history: Vec<String>,
    pub active_playlist: Option<String>,
}

/// Where the cursor starts in a pool of `len` files: at the end for the
/// descending order, else at the start.
pub open spec fn first_index(strategy: SortingStrategy, len: nat) -> nat {
    if strategy == SortingStrategy::Descending && len > 0 {
        (len - 1) as nat
    } else {
        0
    }
}

/// Where the cursor moves to from `index` in a pool of `len` files: one
/// down or one up, around the ends.
pub open spec fn next_index(index: nat, len: nat, descending: bool) -> nat {
    if descending {
        if index == 0 {
            (len - 1) as nat
        } else {
            (index - 1) as nat
        }
    } else if index + 1 >= len {
        0
    } else {
        index + 1
    }
}

/// The history after `path` was picked: a file picked twice in a row is
/// remembered once, and the oldest file leaves once there are more than
/// `HISTORY_LIMIT`.
pub open spec fn remembered(history: Seq<Seq<char>>, path: Seq<char>) -> Seq<Seq<char>> {
    if history.len() > 0 && history.last() == path {
        history
    } else if history.len() + 1 > HISTORY_LIMIT {
        history.push(path).skip(1)
    } else {
        history.push(path)
    }
}

/// Whether a draw of `roll` out of a hundred lots asks for video, at the given share of video.
pub open spec fn asks_for_video(roll: u8, video_ratio: u8) -> bool {
    roll < video_ratio
}

/// The texts of strings.
pub open spec fn paths(strings: Seq<String>) -> Seq<Seq<char>> {
    strings.map_values(|s: String| s@)
}

/// Whether the file at `i` is of the kind that is asked for.
pub open spec fn is_wanted(kinds: Seq<ContentType>, video: bool, i: int) -> bool {
    0 <= i < kinds.len() && (kinds[i] == ContentType::Video) == video
}

/// Whether any file is of the kind that is asked for.
pub open spec fn any_wanted(kinds: Seq<ContentType>, video: bool) -> bool {
    exists|i: int| is_wanted(kinds, video, i)
}

/// Whether `places` are the places to pick from: those of the files of the
/// kind that is asked for, in ascending order; or, where there is no such
/// file, the places of all files.
pub open spec fn are_candidates(kinds: Seq<ContentType>, video: bool, places: Seq<usize>) -> bool {
    &&& forall|a: int, b: int| 0 <= a < b < places.len() ==> places[a] < places[b]
    &&& forall|a: int| 0 <= a < places.len() ==> (#[trigger] places[a]) < kinds.len()
    &&& forall|i: usize|
        i < kinds.len() ==> (#[trigger] places.contains(i) <==> (is_wanted(kinds, video, i as int)
            || !any_wanted(kinds, video)))
}

/// The places to pick from when a draw has asked for video, or for images:
/// `kinds` holds the kind of each file of the pool. Files of the other kind
/// are left out, unless that leaves nothing.
pub fn candidates(kinds: &Vec<ContentType>, video: bool) -> (places: Vec<usize>)
    ensures
        are_candidates(kinds@, video, places@),
        kinds@.len() > 0 ==> places@.len() > 0,
{
    let mut wanted: Vec<usize> = Vec::new();
    let mut i: usize = 0;
    while i < kinds.len()
        invariant
            i <= kinds@.len(),
            forall|a: int, b: int| 0 <= a < b < wanted@.len() ==> wanted@[a] < wanted@[b],
            forall|a: int| 0 <= a < wanted@.len() ==> (#[trigger] wanted@[a]) < i,
            forall|j: usize|
                j < i ==> (#[trigger] wanted@.contains(j) <==> is_wanted(kinds@, video, j as int)),
        decreases kinds@.len() - i,
    {
        let is_video = match kinds[i] {
            ContentType::Video => true,
            ContentType::Image => false,
        };
        let ghost before = wanted@;
        if is_video == video {
            wanted.push(i);
            proof {
                assert(wanted@[before.len() as int] == i);
                assert forall|j: usize| j < i + 1 implies (#[trigger] wanted@.contains(j)
                    <==> is_wanted(kinds@, video, j as int)) by {
                    if j < i {
                        if before.contains(j) {
                            let k = choose|k: int| 0 <= k < before.len() && before[k] == j;
                            assert(wanted@[k] == j);
                        }
                        if wanted@.contains(j) {
                            let k = choose|k: int| 0 <= k < wanted@.len() && wanted@[k] == j;
                            assert(k < before.len());
                            assert(before[k] == j);
                        }
                    }
                }
            }
        } else {
            proof {
                assert forall|j: usize| j < i + 1 implies (#[trigger] wanted@.contains(j)
                    <==> is_wanted(kinds@, video, j as int)) by {
                    if j == i && wanted@.contains(j) {
                        let k = choose|k: int| 0 <= k < wanted@.len() && wanted@[k] == j;
                        assert(wanted@[k] < i);
                    }
                }
            }
        }
        i = i + 1;
    }
    if wanted.len() > 0 {
        proof {
            assert(wanted@.contains(wanted@[0]));
            assert(is_wanted(kinds@, video, wanted@[0] as int));
        }
        return wanted;
    }
    proof {
        assert forall|j: int| !is_wanted(kinds@, video, j) by {
            if 0 <= j < kinds@.len() {
                assert(!wanted@.contains(j as usize));
            }
        }
    }
    let mut all: Vec<usize> = Vec::new();
    let mut j: usize = 0;
    while j < kinds.len()
        invariant
            j <= kinds@.len(),
            all@.len() == j,
            forall|a: int| 0 <= a < j ==> all@[a] == a,
        decreases kinds@.len() - j,
    {
        all.push(j);
        j = j + 1;
    }
    proof {
        assert forall|k: usize| k < kinds@.len() implies #[trigger] all@.contains(k) by {
            assert(all@[k as int] == k);
        }
    }
    all
}

/// Whether a draw of `roll` out of a hundred lots asks for video.
pub fn is_video_cycle(roll: u8, video_ratio: u8) -> (video: bool)
    ensures
        video == asks_for_video(roll, video_ratio),
{
    roll < video_ratio
}

impl SmartQueue {
    /// The cursor points into the pool, or the pool is empty.
    pub open spec fn wf(self) -> bool {
        self.pool@.len() == 0 || self.current_index < self.pool@.len()
    }

    /// A queue over `pool`, which is in ascending order, with the cursor at
    /// its start, or at its end for the descending order.
    pub fn new(pool: Vec<String>, video_ratio: u8, strategy: SortingStrategy) -> (queue: SmartQueue)
        ensures
            queue.pool == pool,
            queue.video_ratio == video_ratio,
            queue.strategy == strategy,
            queue.current_index == first_index(strategy, pool@.len()),
            queue.history@.len() == 0,
            queue.active_playlist.is_none(),
            queue.wf(),
    {
        let descending = match strategy {
            SortingStrategy::Descending => true,
            _ => false,
        };
        let current_index = if descending && pool.len() > 0 {
            pool.len() - 1
        } else {
            0
        };
        SmartQueue {
            pool,
            video_ratio,
            strategy,
            current_index,
            history: Vec::new(),
            active_playlist: None,
        }
    }

    /// Picks the file under the cursor and moves the cursor on, down the
    /// pool for the descending order and up otherwise, around the ends.
    /// Nothing is picked from an empty pool.
    pub fn pick_sequential(&mut self, descending: bool) -> (picked: Option<String>)
        requires
            old(self).wf(),
        ensures
            final(self).wf(),
            final(self).pool == old(self).pool,
            final(self).history == old(self).history,
            final(self).strategy == old(self).strategy,
            final(self).video_ratio == old(self).video_ratio,
            final(self).active_playlist == old(self).active_playlist,
            match picked {
                Some(path) => old(self).pool@.len() > 0 && path == old(self).pool@[old(
                    self,
                ).current_index as int] && final(self).current_index == next_index(
                    old(self).current_index as nat,
                    old(self).pool@.len(),
                    descending,
                ),
                None => old(self).pool@.len() == 0 && final(self).current_index == old(
                    self,
                ).current_index,
            },
    {
        let len = self.pool.len();
        if len == 0 {
            return None;
        }
        let picked = self.pool[self.current_index].clone();
        if descending {
            if self.current_index == 0 {
                self.current_index = len - 1;
            } else {
                self.current_index = self.current_index - 1;
            }
        } else if self.current_index + 1 >= len {
            self.current_index = 0;
        } else {
            self.current_index = self.current_index + 1;
        }
        Some(picked)
    }

    /// Remembers that `path` was picked.
    pub fn remember(&mut self, path: &str)
        ensures
            paths(final(self).history@) == remembered(paths(old(self).history@), path@),
            final(self).pool == old(self).pool,
            final(self).current_index == old(self).current_index,
            final(self).strategy == old(self).strategy,
            final(self).video_ratio == old(self).video_ratio,
            final(self).active_playlist == old(self).active_playlist,
    {
        let ghost before = paths(self.history@);
        let n = self.history.len();
        if n > 0 && str_eq(self.history[n - 1].as_str(), path) {
            assert(before.last() == path@);
            return ;
        }
        proof {
            if n > 0 {
                assert(before.last() == self.history@[n - 1]@);
            }
        }
        let entry = String::from_str(path);
        self.history.push(entry);
        assert(paths(self.history@) =~= before.push(path@));
        if self.history.len() > HISTORY_LIMIT {
            let _oldest = self.history.remove(0);
            assert(paths(self.history@) =~= before.push(path@).skip(1));
        }
    }

    /// Goes one step back in the history: the file picked last is forgotten
    /// and the one before it is picked again. With fewer than two files
    /// remembered there is nothing to go back to, and nothing changes.
    pub fn step_back(&mut self) -> (picked: Option<String>)
        ensures
            final(self).pool == old(self).pool,
            final(self).current_index == old(self).current_index,
            final(self).strategy == old(self).strategy,
            final(self).video_ratio == old(self).video_ratio,
            final(self).active_playlist == old(self).active_playlist,
            match picked {
                Some(path) => old(self).history@.len() > 1 && final(self).history@ == old(
                    self,
                ).history@.drop_last() && path == final(self).history@.last(),
                None => old(self).history@.len() <= 1 && final(self).history == old(self).history,
            },
    {
        if self.history.len() > 1 {
            let _current = self.history.pop();
            let n = self.history.len();
            Some(self.history[n - 1].clone())
        } else {
            None
        }
    }

    /// Picks the file that was shown before: for the ascending and the
    /// descending order the cursor walks the other way, for the other orders
    /// the history leads back.
    pub fn pick_prev(&mut self) -> (picked: Option<String>)
        requires
            old(self).wf(),
        ensures
            final(self).wf(),
            final(self).pool == old(self).pool,
            old(self).pool@.len() == 0 ==> picked.is_none() && final(self).history == old(
                self,
            ).history && final(self).current_index == old(self).current_index,
            old(self).pool@.len() > 0 ==> match old(self).strategy {
                SortingStrategy::Ascending => picked == Some(
                    old(self).pool@[old(self).current_index as int],
                ) && final(self).current_index == next_index(
                    old(self).current_index as nat,
                    old(self).pool@.len(),
                    true,
                ) && final(self).history == old(self).history,
                SortingStrategy::Descending => picked == Some(
                    old(self).pool@[old(self).current_index as int],
                ) && final(self).current_index == next_index(
                    old(self).current_index as nat,
                    old(self).pool@.len(),
                    false,
                ) && final(self).history == old(self).history,
                _ => final(self).current_index == old(self).current_index && match picked {
                    Some(path) => old(self).history@.len() > 1 && final(self).history@ == old(
                        self,
                    ).history@.drop_last() && path == final(self).history@.last(),
                    None => old(self).history@.len() <= 1 && final(self).history == old(
                        self,
                    ).history,
                },
            },
    {
        if self.pool.len() == 0 {
            return None;
        }
        match self.strategy {
            SortingStrategy::Ascending => self.pick_sequential(true),
            SortingStrategy::Descending => self.pick_sequential(false),
            _ => self.step_back(),
        }
    }
}

/// A step up the pool and a step down cancel: going back after going on
/// comes to the file that was picked before.
pub proof fn lemma_steps_cancel(index: nat, len: nat)
    requires
        index < len,
    ensures
        next_index(next_index(index, len, false), len, true) == index,
        next_index(next_index(index, len, true), len, false) == index,
        next_index(index, len, false) < len,
        next_index(index, len, true) < len,
{
}

} // verus!
