//! Decision state of the image-selection grid.
//!
//! The grid shows one radio button per variant, all linked into a
//! single mutually-exclusive group.  Each variant descriptor may carry
//! an initially-selected flag; when several are flagged, the last one
//! wins, as the buttons are activated in construction order.  This type
//! owns the group's choice; the toolkit owns the buttons.

use vstd::prelude::*;

verus! {

/// The variant a freshly built grid selects: the last one whose
/// initially-selected flag is set, if any.
pub open spec fn spec_initial_active(flags: Seq<bool>) -> Option<int>
    decreases flags.len(),
{
    if flags.len() == 0 {
        None
    } else if flags.last() {
        Some(flags.len() - 1)
    } else {
        spec_initial_active(flags.drop_last())
    }
}

/// Index of the variant a grid built from these initially-selected
/// flags starts on: the last flagged one, if any.
pub fn initial_active(flags: &Vec<bool>) -> (r: Option<usize>)
    ensures
        r matches Some(i) ==> i < flags@.len() && flags@[i as int] && (forall|j: int|
            i < j < flags@.len() ==> !flags@[j]),
        r is None ==> forall|j: int| 0 <= j < flags@.len() ==> !flags@[j],
        r is None <==> spec_initial_active(flags@) is None,
        r matches Some(i) ==> spec_initial_active(flags@) == Some(i as int),
{
    let mut r: Option<usize> = None;
    let mut i: usize = 0;
    while i < flags.len()
        invariant
            0 <= i <= flags@.len(),
            r is None <==> spec_initial_active(flags@.subrange(0, i as int)) is None,
            r matches Some(k) ==> spec_initial_active(flags@.subrange(0, i as int)) == Some(
                k as int,
            ),
            r matches Some(k) ==> k < i && flags@[k as int] && (forall|j: int|
                k < j < i ==> !flags@[j]),
            r is None ==> forall|j: int| 0 <= j < i ==> !flags@[j],
        decreases flags@.len() - i,
    {
        if flags[i] {
            r = Some(i);
        }
        proof {
            assert(flags@.subrange(0, i + 1).drop_last() =~= flags@.subrange(0, i as int));
            assert(flags@.subrange(0, i + 1).last() == flags@[i as int]);
        }
        i += 1;
    }
    proof {
        assert(flags@.subrange(0, flags@.len() as int) =~= flags@);
    }
    r
}

/// A group of mutually exclusive choices: at most one of `count`
/// variants is active at any instant.
pub struct ExclusiveGroup {
    count: usize,
    active: Option<usize>,
}

/// Well-formedness of a group: an active choice names one of its
/// variants.
pub open spec fn group_wf(count: int, active: Option<usize>) -> bool {
    active matches Some(i) ==> i < count
}

impl ExclusiveGroup {
    /// Builds the group for `flags.len()` variants, starting on the
    /// last initially-flagged one, if any.
    pub fn new(flags: &Vec<bool>) -> (r: Self)
        ensures
            r.spec_count() == flags@.len(),
            r.spec_active() is None <==> spec_initial_active(flags@) is None,
            r.spec_active() matches Some(i) ==> spec_initial_active(flags@) == Some(i as int),
            group_wf(r.spec_count() as int, r.spec_active()),
    {
        let active = initial_active(flags);
        ExclusiveGroup { count: flags.len(), active }
    }

    /// Number of variants in the group.
    pub closed spec fn spec_count(&self) -> usize {
        self.count
    }

    /// The active variant, if any.
    pub closed spec fn spec_active(&self) -> Option<usize> {
        self.active
    }

    /// Number of variants in the group.
    pub fn count(&self) -> (n: usize)
        ensures
            n == self.spec_count(),
    {
        self.count
    }

    /// The active variant, if any.
    pub fn active(&self) -> (a: Option<usize>)
        ensures
            a == self.spec_active(),
    {
        self.active
    }

    /// Activating one variant deactivates every other: the group's one
    /// active slot moves to `i`.
    pub fn activate(&mut self, i: usize)
        requires
            i < old(self).spec_count(),
        ensures
            final(self).spec_active() == Some(i),
            final(self).spec_count() == old(self).spec_count(),
            group_wf(final(self).spec_count() as int, final(self).spec_active()),
    {
        self.active = Some(i);
    }
}

} // verus!
