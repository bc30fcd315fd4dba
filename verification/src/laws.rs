//! The protocol's laws, proved over the linkage transitions of
//! [`crate::mode`]: stack discipline for arbitrary sequences of
//! reservations, and the round trips of both linkage policies.

use vstd::prelude::*;

use crate::mode::{pop_cells, pop_head, push_cells, push_head, reserved_cells};

verus! {

/// Well-formedness of an abstract buffer driven by a policy: the cells the
/// policy reserves are in use, the in-use region lies inside the buffer,
/// and a capacity tag cannot wrap a cell.
pub open spec fn wf_cells(cells: Seq<usize>, chained: bool) -> bool {
    &&& reserved_cells(chained) <= cells[0]
    &&& cells[0] <= cells.len()
    &&& cells.len() <= usize::MAX / 2
}

/// Every frame of the sequence fits: pushed one after the other at the
/// running bump offset, each reservation of `caps[i] + 2` cells stays
/// inside the buffer.
pub open spec fn seq_fits(cells: Seq<usize>, head: usize, caps: Seq<usize>, chained: bool) -> bool
    decreases caps.len(),
{
    caps.len() == 0 || {
        &&& cells[0] + caps[0] + 2 <= cells.len()
        &&& seq_fits(
            push_cells(cells, head, cells[0] as int, caps[0] as int, chained),
            push_head(head, cells[0] as int, chained),
            caps.drop_first(),
            chained,
        )
    }
}

/// The buffer and head after frames of capacities `caps` are pushed in
/// order, each at the then-current bump offset.
pub open spec fn push_seq(cells: Seq<usize>, head: usize, caps: Seq<usize>, chained: bool) -> (
    Seq<usize>,
    usize,
)
    decreases caps.len(),
{
    if caps.len() == 0 {
        (cells, head)
    } else {
        push_seq(
            push_cells(cells, head, cells[0] as int, caps[0] as int, chained),
            push_head(head, cells[0] as int, chained),
            caps.drop_first(),
            chained,
        )
    }
}

/// The buffer and head after the frames of capacities `caps` (listed in
/// push order) are popped in reverse order, newest first.
pub open spec fn pop_seq(cells: Seq<usize>, head: usize, caps: Seq<usize>, chained: bool) -> (
    Seq<usize>,
    usize,
)
    decreases caps.len(),
{
    if caps.len() == 0 {
        (cells, head)
    } else {
        let idx = cells[0] - caps.last();
        pop_seq(
            pop_cells(cells, idx, chained),
            pop_head(cells, head, idx, chained),
            caps.drop_last(),
            chained,
        )
    }
}

/// Popping the frames of `a + b` is popping those of `b`, then those of
/// `a`.
proof fn lemma_pop_seq_concat(
    cells: Seq<usize>,
    head: usize,
    a: Seq<usize>,
    b: Seq<usize>,
    chained: bool,
)
    ensures
        pop_seq(cells, head, a + b, chained) == ({
            let mid = pop_seq(cells, head, b, chained);
            pop_seq(mid.0, mid.1, a, chained)
        }),
    decreases b.len(),
{
    if b.len() == 0 {
        assert(a + b =~= a);
    } else {
        let idx = cells[0] - b.last();
        assert((a + b).last() == b.last());
        assert((a + b).drop_last() =~= a + b.drop_last());
        lemma_pop_seq_concat(
            pop_cells(cells, idx, chained),
            pop_head(cells, head, idx, chained),
            a,
            b.drop_last(),
            chained,
        );
    }
}

/// The heart of the protocol's laws. For any sequence of reservations
/// R1..Rn followed by releases in reverse order: the final bump offset
/// equals the offset recorded before R1; the collector's root-list head is
/// restored (under the chained policy it was never touched); the chained
/// policy's private list head in cell 2 is restored; and every in-use cell
/// below the first new frame, other than the policy's own bookkeeping
/// cells, is left exactly as it was.
pub proof fn lemma_push_pop_seq(cells: Seq<usize>, head: usize, caps: Seq<usize>, chained: bool)
    requires
        wf_cells(cells, chained),
        seq_fits(cells, head, caps, chained),
    ensures
        ({
            let pushed = push_seq(cells, head, caps, chained);
            let popped = pop_seq(pushed.0, pushed.1, caps, chained);
            &&& popped.0.len() == cells.len()
            &&& popped.0[0] == cells[0]
            &&& popped.1 == head
            &&& forall|j: int|
                1 <= j < cells[0] && (chained ==> j != 2) ==> popped.0[j] == cells[j]
            &&& (chained ==> popped.0[2] == cells[2])
        }),
    decreases caps.len(),
{
    if caps.len() != 0 {
        let o = cells[0] as int;
        let c0 = caps[0] as int;
        let rest = caps.drop_first();
        let s1 = push_cells(cells, head, o, c0, chained);
        let h1 = push_head(head, o, chained);
        assert(wf_cells(s1, chained));
        lemma_push_pop_seq(s1, h1, rest, chained);
        let pushed = push_seq(s1, h1, rest, chained);
        let s2 = pop_seq(pushed.0, pushed.1, rest, chained).0;
        let h2 = pop_seq(pushed.0, pushed.1, rest, chained).1;
        // popping all of caps is popping the inner frames, then the first
        let first = seq![caps[0]];
        assert(first + rest =~= caps);
        lemma_pop_seq_concat(pushed.0, pushed.1, first, rest, chained);
        let idx1 = s2[0] - first.last();
        assert(idx1 == o + 2);
        let s3 = pop_cells(s2, idx1, chained);
        let h3 = pop_head(s2, h2, idx1, chained);
        assert(pop_seq(s2, h2, first, chained) == pop_seq(s3, h3, first.drop_last(), chained));
        assert(pop_seq(s3, h3, first.drop_last(), chained) == (s3, h3));
        // the link cell the first frame recorded survives the inner pairs
        assert(s2[o + 1] == s1[o + 1]);
        assert forall|j: int| 1 <= j < cells[0] && (chained ==> j != 2) implies s3[j]
            == cells[j] by {
            assert(s2[j] == s1[j]);
            assert(s1[j] == cells[j]);
        }
    }
}

/// Stack discipline: for any sequence of reservations R1..Rn followed by
/// releases in reverse order, the final bump offset equals the offset
/// recorded before R1, under either linkage policy.
pub proof fn lemma_stack_discipline(cells: Seq<usize>, head: usize, caps: Seq<usize>, chained: bool)
    requires
        wf_cells(cells, chained),
        seq_fits(cells, head, caps, chained),
    ensures
        ({
            let pushed = push_seq(cells, head, caps, chained);
            pop_seq(pushed.0, pushed.1, caps, chained).0[0] == cells[0]
        }),
{
    lemma_push_pop_seq(cells, head, caps, chained);
}

/// Linkage round trip, direct policy, one frame: pushing a frame and
/// immediately popping it restores the collector's root-list head to its
/// pre-push value, rewinds the bump offset, and leaves every cell that was
/// in use before the push unchanged.
pub proof fn lemma_direct_round_trip(cells: Seq<usize>, head: usize, cap: usize)
    requires
        wf_cells(cells, false),
        cells[0] + cap + 2 <= cells.len(),
    ensures
        ({
            let o = cells[0] as int;
            let pushed = push_cells(cells, head, o, cap as int, false);
            let h1 = push_head(head, o, false);
            let popped = pop_cells(pushed, o + 2, false);
            &&& pop_head(pushed, h1, o + 2, false) == head
            &&& popped[0] == cells[0]
            &&& forall|j: int| 1 <= j < cells[0] ==> popped[j] == cells[j]
        }),
{
}

/// Linkage round trip, direct policy, arbitrarily many nested push/pop
/// pairs: after pushing any sequence of frames and popping them in reverse
/// order, the collector's root-list head is back at its original value.
pub proof fn lemma_direct_round_trip_seq(cells: Seq<usize>, head: usize, caps: Seq<usize>)
    requires
        wf_cells(cells, false),
        seq_fits(cells, head, caps, false),
    ensures
        ({
            let pushed = push_seq(cells, head, caps, false);
            pop_seq(pushed.0, pushed.1, caps, false).1 == head
        }),
{
    lemma_push_pop_seq(cells, head, caps, false);
}

/// Linkage round trip, chained policy: pushing N virtual frames and popping
/// them in reverse order restores buffer cell 2, the private list head, to
/// its original value, leaves the collector's root-list head untouched, and
/// leaves every originally in-use cell other than cells 0 and 2 — in
/// particular the region of the collector-visible sentinel frame — exactly
/// as it was.
pub proof fn lemma_chained_round_trip(cells: Seq<usize>, head: usize, caps: Seq<usize>)
    requires
        wf_cells(cells, true),
        seq_fits(cells, head, caps, true),
    ensures
        ({
            let pushed = push_seq(cells, head, caps, true);
            let popped = pop_seq(pushed.0, pushed.1, caps, true);
            &&& popped.0[2] == cells[2]
            &&& popped.1 == head
            &&& forall|j: int| 1 <= j < cells[0] && j != 2 ==> popped.0[j] == cells[j]
        }),
{
    lemma_push_pop_seq(cells, head, caps, true);
}

/// A single chained push touches neither the collector's root-list head nor
/// any cell below the new frame other than the private list head in cell 2:
/// the collector-visible sentinel frame is not mutated by any push.
pub proof fn lemma_chained_push_preserves_sentinel(
    cells: Seq<usize>,
    head: usize,
    o: int,
    cap: int,
)
    requires
        3 <= o,
        0 <= cap,
        o + cap + 2 <= cells.len(),
    ensures
        push_head(head, o, true) == head,
        forall|j: int|
            1 <= j < o && j != 2 ==> push_cells(cells, head, o, cap, true)[j] == cells[j],
{
    assert forall|j: int| 1 <= j < o && j != 2 implies push_cells(cells, head, o, cap, true)[j]
        == cells[j] by {
        assert(j < cells.len());
    }
}

/// A single chained pop touches neither the collector's root-list head nor
/// any cell other than cell 0 and the private list head in cell 2: the
/// collector-visible sentinel frame is not mutated by any pop.
pub proof fn lemma_chained_pop_preserves_sentinel(cells: Seq<usize>, head: usize, idx: int)
    requires
        5 <= idx,
        idx <= cells.len(),
    ensures
        pop_head(cells, head, idx, true) == head,
        forall|j: int|
            1 <= j < cells.len() && j != 2 ==> pop_cells(cells, idx, true)[j] == cells[j],
{
}

} // verus!
