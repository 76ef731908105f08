use vstd::prelude::*;

verus! {

/// Sequential identifier generator.
///
/// Hands out `0`, `1`, `2` and so on. After the largest `usize` it starts again
/// at `0`.
pub struct GlobalSeq {
    upcoming: usize,
}

impl GlobalSeq {
    /// The identifier that the next call of [`next`](GlobalSeq::next) hands out.
    pub closed spec fn upcoming(&self) -> usize {
        self.upcoming
    }

    /// A generator that starts at `0`.
    pub fn new() -> (seq: Self)
        ensures
            seq.upcoming() == 0,
    {
        GlobalSeq { upcoming: 0 }
    }

    /// Hands out the next identifier.
    pub fn next(&mut self) -> (id: usize)
        ensures
            id == old(self).upcoming(),
            final(self).upcoming() == if id == usize::MAX {
                0
            } else {
                id + 1
            },
    {
        let id = self.upcoming;
        self.upcoming = if id == usize::MAX {
            0
        } else {
            id + 1
        };
        id
    }
}

} // verus!
