//! Sprites cut from an atlas, and their animations.
use std::ops::Range;
use vstd::prelude::*;

verus! {

/// A named run of a sprite's frames.
#[derive(Debug)]
pub struct Animation {
    pub name: String,
    pub frames: Range<usize>,
}

impl Clone for Animation {
    fn clone(&self) -> (r: Self)
        ensures
            r.name@ == self.name@,
            r.frames.start == self.frames.start,
            r.frames.end == self.frames.end,
    {
        Animation {
            name: self.name.clone(),
            frames: Range { start: self.frames.start, end: self.frames.end },
        }
    }
}

impl Animation {
    /// The animation of a tag that spans the frames `from_frame` to
    /// `to_frame`, both included.
    pub fn from_tag(name: String, from_frame: u32, to_frame: u32) -> (r: Self)
        requires
            to_frame + 1 <= usize::MAX,
        ensures
            r.name@ == name@,
            r.frames.start == from_frame,
            r.frames.end == to_frame + 1,
    {
        Animation { name, frames: Range { start: from_frame as usize, end: to_frame as usize + 1 } }
    }
}

/// The number of atlas entries taken by the sprites before the `s`-th.
pub open spec fn spec_entries_before(frame_counts: Seq<usize>, s: int) -> int
    decreases s,
{
    if s <= 0 {
        0
    } else {
        spec_entries_before(frame_counts, s - 1) + frame_counts[s - 1]
    }
}

/// Where each sprite's frames start in an atlas that holds the frames of
/// all sprites one sprite after another: frame `i` of sprite `s` is entry
/// `starts[s] + i`.
pub fn atlas_entry_starts(frame_counts: &Vec<usize>) -> (r: Vec<usize>)
    requires
        spec_entries_before(frame_counts@, frame_counts@.len() as int) <= usize::MAX,
    ensures
        r@.len() == frame_counts@.len(),
        forall|s: int| 0 <= s < r@.len() ==> #[trigger] r@[s] == spec_entries_before(frame_counts@, s),
{
    let mut starts: Vec<usize> = Vec::new();
    let mut idx: usize = 0;
    let mut s: usize = 0;
    while s < frame_counts.len()
        invariant
            0 <= s <= frame_counts@.len(),
            starts@.len() == s,
            idx == spec_entries_before(frame_counts@, s as int),
            spec_entries_before(frame_counts@, frame_counts@.len() as int) <= usize::MAX,
            forall|t: int| 0 <= t < s ==> #[trigger] starts@[t] == spec_entries_before(frame_counts@, t),
        decreases frame_counts@.len() - s,
    {
        starts.push(idx);
        proof {
            lemma_entries_before_mono(frame_counts@, s + 1, frame_counts@.len() as int);
        }
        idx = idx + frame_counts[s];
        s = s + 1;
    }
    starts
}

proof fn lemma_entries_before_mono(frame_counts: Seq<usize>, a: int, b: int)
    requires
        0 <= a <= b,
    ensures
        spec_entries_before(frame_counts, a) <= spec_entries_before(frame_counts, b),
    decreases b - a,
{
    if a < b {
        lemma_entries_before_mono(frame_counts, a, b - 1);
    }
}

/// The atlas entries of different sprites do not overlap: every frame of
/// an earlier sprite comes before every frame of a later one.
pub proof fn lemma_sprite_entries_disjoint(frame_counts: Seq<usize>, s: int, t: int, i: int, j: int)
    requires
        0 <= s < t < frame_counts.len(),
        0 <= i < frame_counts[s],
        0 <= j < frame_counts[t],
    ensures
        spec_entries_before(frame_counts, s) + i < spec_entries_before(frame_counts, t) + j + 1,
        spec_entries_before(frame_counts, s) + i < spec_entries_before(frame_counts, t),
{
    lemma_entries_before_mono(frame_counts, s + 1, t);
}

} // verus!
