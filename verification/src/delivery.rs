//! What the reassembly rule guarantees over whole deliveries: the order of
//! arrival does not matter, a repeated fragment replaces the earlier one, and
//! a session is handed out once.

use vstd::prelude::*;
use crate::reassembly::all_filled;
use crate::reassembly::assembled;
use crate::reassembly::metadata_ok;
use crate::reassembly::session_ok;
use crate::reassembly::spec_accept;
use crate::reassembly::table_ok;
use crate::reassembly::OutcomeView;
use crate::reassembly::SessionView;
use crate::reassembly::Slots;
use crate::reassembly::TableView;
use crate::reassembly::MAX_CHUNKS;
use crate::types::MetadataView;

verus! {

/// A fragment whose payload has been decoded.
pub struct FragmentView {
    pub metadata: MetadataView,
    pub bytes: Seq<u8>,
}

/// The table and the outcomes after the fragments have been taken one after
/// the other, with memory for every new session.
pub open spec fn deliver(t: TableView, fragments: Seq<FragmentView>) -> (TableView, Seq<OutcomeView>)
    decreases fragments.len(),
{
    if fragments.len() == 0 {
        (t, Seq::empty())
    } else {
        let before = deliver(t, fragments.drop_last());
        let last = fragments.last();
        let step = spec_accept(before.0, last.metadata, Some(last.bytes), true);
        (step.0, before.1.push(step.1))
    }
}

/// One of the first `k` entries of `order` is the index `i`.
pub open spec fn names(order: Seq<nat>, k: int, i: int) -> bool {
    exists|j: int| 0 <= j < k && (#[trigger] order[j]) == i
}

/// `order` names each index below `n` exactly once.
pub open spec fn is_permutation(order: Seq<nat>, n: nat) -> bool {
    &&& order.len() == n
    &&& forall|k: int| 0 <= k < n ==> (#[trigger] order[k]) < n
    &&& forall|j: int, k: int| 0 <= j < k < n ==> (#[trigger] order[j]) != (#[trigger] order[k])
    &&& forall|i: int| 0 <= i < n ==> #[trigger] names(order, n as int, i)
}

/// The pieces of a file, one after the other.
pub open spec fn joined(parts: Seq<Seq<u8>>) -> Seq<u8>
    decreases parts.len(),
{
    if parts.len() == 0 {
        Seq::empty()
    } else {
        joined(parts.drop_last()) + parts.last()
    }
}

/// Where piece `i` starts in the joined file.
pub open spec fn offset_of(parts: Seq<Seq<u8>>, i: int) -> int {
    joined(parts.take(i)).len() as int
}

/// The fragments of one upload: the file's pieces, sent in the order `order`.
pub open spec fn fragments_of(
    upload_id: Seq<char>,
    filename: Seq<char>,
    mime_type: Seq<char>,
    parts: Seq<Seq<u8>>,
    order: Seq<nat>,
) -> Seq<FragmentView> {
    Seq::new(
        order.len(),
        |k: int|
            FragmentView {
                metadata: MetadataView {
                    filename,
                    mime_type,
                    chunk_index: order[k],
                    total_chunks: parts.len(),
                    upload_id,
                },
                bytes: parts[order[k] as int],
            },
    )
}

/// The slots of a session after the first `k` fragments of `order` arrived.
pub open spec fn slots_after(parts: Seq<Seq<u8>>, order: Seq<nat>, k: int) -> Slots {
    Seq::new(
        parts.len(),
        |i: int|
            if names(order, k, i) {
                Some(parts[i])
            } else {
                None
            },
    )
}

/// Slots that hold every piece assemble to the joined pieces.
pub proof fn lemma_assembled_full(slots: Slots, parts: Seq<Seq<u8>>)
    requires
        slots.len() == parts.len(),
        forall|i: int| 0 <= i < parts.len() ==> (#[trigger] slots[i]) == Some(parts[i]),
    ensures
        assembled(slots) == joined(parts),
    decreases parts.len(),
{
    if parts.len() > 0 {
        lemma_assembled_full(slots.drop_last(), parts.drop_last());
    }
}

/// Each piece lies in the joined file at its offset, which is the sum of the
/// lengths of the pieces before it.
pub proof fn lemma_joined_offsets(parts: Seq<Seq<u8>>, i: int)
    requires
        0 <= i < parts.len(),
    ensures
        offset_of(parts, i) + parts[i].len() <= joined(parts).len(),
        joined(parts).subrange(offset_of(parts, i), offset_of(parts, i) + parts[i].len())
            == parts[i],
        offset_of(parts, 0) == 0,
        i > 0 ==> offset_of(parts, i) == offset_of(parts, i - 1) + parts[i - 1].len(),
    decreases parts.len(),
{
    let n = parts.len() as int;
    assert(parts.take(0).len() == 0);
    if i > 0 {
        assert(parts.take(i).drop_last() =~= parts.take(i - 1));
        assert(parts.take(i).last() == parts[i - 1]);
    }
    if i == n - 1 {
        assert(parts.take(i) =~= parts.drop_last());
        assert(joined(parts).subrange(offset_of(parts, i), offset_of(parts, i) + parts[i].len())
            =~= parts[i]);
    } else {
        lemma_joined_offsets(parts.drop_last(), i);
        assert(parts.drop_last().take(i) =~= parts.take(i));
        assert(joined(parts).subrange(offset_of(parts, i), offset_of(parts, i) + parts[i].len())
            =~= joined(parts.drop_last()).subrange(
            offset_of(parts, i),
            offset_of(parts, i) + parts[i].len(),
        ));
    }
}

/// The table and outcomes after the first `k` fragments of an upload, while
/// at least one is still to come: the session holds exactly the pieces that
/// arrived, and each was stored.
proof fn lemma_delivery_prefix(
    t: TableView,
    upload_id: Seq<char>,
    filename: Seq<char>,
    mime_type: Seq<char>,
    parts: Seq<Seq<u8>>,
    order: Seq<nat>,
    k: int,
)
    requires
        1 <= parts.len() <= MAX_CHUNKS,
        is_permutation(order, parts.len()),
        !t.contains_key(upload_id),
        0 <= k < parts.len(),
    ensures
        deliver(t, fragments_of(upload_id, filename, mime_type, parts, order).take(k)) == (
            if k == 0 {
                t
            } else {
                t.insert(
                    upload_id,
                    SessionView { filename, mime_type, slots: slots_after(parts, order, k) },
                )
            },
            Seq::new(k as nat, |j: int| OutcomeView::Stored { chunk_index: order[j] }),
        ),
    decreases k,
{
    let fragments = fragments_of(upload_id, filename, mime_type, parts, order);
    let n = parts.len() as int;
    let outs = Seq::new(k as nat, |j: int| OutcomeView::Stored { chunk_index: order[j] });
    if k == 0 {
        assert(deliver(t, fragments.take(0)).1 =~= outs);
    } else {
        lemma_delivery_prefix(t, upload_id, filename, mime_type, parts, order, k - 1);
        assert(fragments.take(k).drop_last() =~= fragments.take(k - 1));
        assert(fragments.take(k).last() == fragments[k - 1]);
        let before = deliver(t, fragments.take(k - 1));
        let m = fragments[k - 1].metadata;
        let idx = order[k - 1] as int;
        assert(metadata_ok(m));
        let old_slots = slots_after(parts, order, k - 1);
        let s = SessionView { filename, mime_type, slots: old_slots };
        if k == 1 {
            assert(old_slots =~= Seq::new(parts.len(), |i: int| None::<Seq<u8>>));
        }
        let slots = old_slots.update(idx, Some(parts[idx]));
        assert(slots =~= slots_after(parts, order, k)) by {
            assert forall|i: int| 0 <= i < n implies slots[i] == slots_after(parts, order, k)[i] by {
                if i == idx {
                    assert(0 <= k - 1 < k && order[k - 1] == i);
                } else {
                    if names(order, k, i) {
                        let j = choose|j: int| 0 <= j < k && (#[trigger] order[j]) == i;
                        assert(0 <= j < k - 1 && order[j] == i);
                    }
                }
            }
        }
        let hole = order[n - 1] as int;
        assert(slots[hole] is None) by {
            if names(order, k, hole) {
                let j = choose|j: int| 0 <= j < k && (#[trigger] order[j]) == hole;
                assert(order[j] != order[n - 1]);
            }
        }
        assert(!all_filled(slots));
        let step = spec_accept(before.0, m, Some(fragments[k - 1].bytes), true);
        assert(step.0 =~= t.insert(
            upload_id,
            SessionView { filename, mime_type, slots: slots_after(parts, order, k) },
        ));
        assert(step.1 == OutcomeView::Stored { chunk_index: order[k - 1] });
        assert(deliver(t, fragments.take(k)).1 =~= outs);
    }
}

/// Order-independence and completeness: when the pieces of a file arrive as
/// the fragments of one upload, in any order that brings each index once, at
/// a table that has no session for that upload, every fragment but the last
/// is stored, the last one completes the upload with the joined pieces as its
/// data, and the table is again what it was before the first fragment.
pub proof fn lemma_any_order_reassembles(
    t: TableView,
    upload_id: Seq<char>,
    filename: Seq<char>,
    mime_type: Seq<char>,
    parts: Seq<Seq<u8>>,
    order: Seq<nat>,
)
    requires
        1 <= parts.len() <= MAX_CHUNKS,
        is_permutation(order, parts.len()),
        !t.contains_key(upload_id),
    ensures
        ({
            let n = parts.len() as int;
            let r = deliver(t, fragments_of(upload_id, filename, mime_type, parts, order));
            &&& r.0 == t
            &&& r.1.len() == n
            &&& forall|k: int|
                0 <= k < n - 1 ==> #[trigger] r.1[k] == (OutcomeView::Stored {
                    chunk_index: order[k],
                })
            &&& r.1[n - 1] == (OutcomeView::Completed {
                chunk_index: order[n - 1],
                name: filename,
                mime_type,
                data: joined(parts),
            })
        }),
{
    let fragments = fragments_of(upload_id, filename, mime_type, parts, order);
    let n = parts.len() as int;
    lemma_delivery_prefix(t, upload_id, filename, mime_type, parts, order, n - 1);
    assert(fragments.drop_last() =~= fragments.take(n - 1));
    let before = deliver(t, fragments.take(n - 1));
    let m = fragments[n - 1].metadata;
    let idx = order[n - 1] as int;
    assert(metadata_ok(m));
    let old_slots = slots_after(parts, order, n - 1);
    if n == 1 {
        assert(old_slots =~= Seq::new(parts.len(), |i: int| None::<Seq<u8>>));
    }
    let slots = old_slots.update(idx, Some(parts[idx]));
    assert forall|i: int| 0 <= i < n implies (#[trigger] slots[i]) == Some(parts[i]) by {
        if i != idx {
            assert(names(order, n, i));
            let j = choose|j: int| 0 <= j < n && (#[trigger] order[j]) == i;
            assert(0 <= j < n - 1 && order[j] == i);
        }
    }
    assert(all_filled(slots));
    lemma_assembled_full(slots, parts);
    let step = spec_accept(before.0, m, Some(fragments[n - 1].bytes), true);
    assert(step.0 =~= t);
}

/// `cuts` cuts a file of `len` bytes into pieces: it starts at 0, ends at
/// `len` and never goes back.
pub open spec fn valid_cuts(cuts: Seq<int>, len: int) -> bool {
    &&& cuts.len() >= 2
    &&& cuts[0] == 0
    &&& cuts[cuts.len() - 1] == len
    &&& forall|i: int| 0 <= i < cuts.len() - 1 ==> #[trigger] cuts[i] <= cuts[i + 1]
}

/// The pieces of `bytes` between each cut and the next.
pub open spec fn pieces(bytes: Seq<u8>, cuts: Seq<int>) -> Seq<Seq<u8>> {
    Seq::new((cuts.len() - 1) as nat, |i: int| bytes.subrange(cuts[i], cuts[i + 1]))
}

/// A later cut lies no earlier than an earlier one.
proof fn lemma_cuts_ordered(cuts: Seq<int>, len: int, i: int, j: int)
    requires
        valid_cuts(cuts, len),
        0 <= i <= j < cuts.len(),
    ensures
        cuts[i] <= cuts[j],
    decreases j - i,
{
    if i < j {
        lemma_cuts_ordered(cuts, len, i, j - 1);
        assert(cuts[j - 1] <= cuts[j - 1 + 1]);
    }
}

/// The first `k` pieces of a file join to the file up to the `k`-th cut.
proof fn lemma_pieces_prefix(bytes: Seq<u8>, cuts: Seq<int>, k: int)
    requires
        valid_cuts(cuts, bytes.len() as int),
        0 <= k < cuts.len(),
    ensures
        0 <= cuts[k] <= bytes.len(),
        joined(pieces(bytes, cuts).take(k)) == bytes.subrange(0, cuts[k]),
    decreases k,
{
    lemma_cuts_ordered(cuts, bytes.len() as int, 0, k);
    lemma_cuts_ordered(cuts, bytes.len() as int, k, cuts.len() - 1);
    let parts = pieces(bytes, cuts);
    if k == 0 {
        assert(joined(parts.take(0)) =~= bytes.subrange(0, 0));
    } else {
        lemma_pieces_prefix(bytes, cuts, k - 1);
        lemma_cuts_ordered(cuts, bytes.len() as int, k - 1, k);
        assert(parts.take(k).drop_last() =~= parts.take(k - 1));
        assert(parts.take(k).last() == bytes.subrange(cuts[k - 1], cuts[k]));
        assert(bytes.subrange(0, cuts[k - 1]) + bytes.subrange(cuts[k - 1], cuts[k])
            =~= bytes.subrange(0, cuts[k]));
    }
}

/// A file cut into pieces is the pieces joined.
pub proof fn lemma_pieces_join(bytes: Seq<u8>, cuts: Seq<int>)
    requires
        valid_cuts(cuts, bytes.len() as int),
    ensures
        joined(pieces(bytes, cuts)) == bytes,
{
    let parts = pieces(bytes, cuts);
    lemma_pieces_prefix(bytes, cuts, cuts.len() - 1);
    assert(parts.take(cuts.len() - 1) =~= parts);
    assert(bytes.subrange(0, bytes.len() as int) =~= bytes);
}

/// Reassembly gives the file back: when a file is cut at any offsets into
/// at most `MAX_CHUNKS` pieces and the pieces arrive as the fragments of one
/// upload in any order, the last fragment completes the upload with exactly
/// the file's bytes, every other fragment is stored, and no session is left
/// behind.
pub proof fn lemma_cut_file_reassembles(
    t: TableView,
    upload_id: Seq<char>,
    filename: Seq<char>,
    mime_type: Seq<char>,
    bytes: Seq<u8>,
    cuts: Seq<int>,
    order: Seq<nat>,
)
    requires
        valid_cuts(cuts, bytes.len() as int),
        cuts.len() - 1 <= MAX_CHUNKS,
        is_permutation(order, (cuts.len() - 1) as nat),
        !t.contains_key(upload_id),
    ensures
        ({
            let n = cuts.len() - 1;
            let r = deliver(
                t,
                fragments_of(upload_id, filename, mime_type, pieces(bytes, cuts), order),
            );
            &&& r.0 == t
            &&& r.1.len() == n
            &&& forall|k: int|
                0 <= k < n - 1 ==> #[trigger] r.1[k] == (OutcomeView::Stored {
                    chunk_index: order[k],
                })
            &&& r.1[n - 1] == (OutcomeView::Completed {
                chunk_index: order[n - 1],
                name: filename,
                mime_type,
                data: bytes,
            })
        }),
{
    lemma_pieces_join(bytes, cuts);
    lemma_any_order_reassembles(t, upload_id, filename, mime_type, pieces(bytes, cuts), order);
}

/// A rejected fragment leaves the table as it was, and a fragment that
/// announces no fragments, more than the ceiling, or an index that is not
/// below its total is rejected.
pub proof fn lemma_rejection_changes_nothing(
    t: TableView,
    m: MetadataView,
    decoded: Option<Seq<u8>>,
    allocated: bool,
)
    ensures
        spec_accept(t, m, decoded, allocated).1 is Rejected ==> spec_accept(
            t,
            m,
            decoded,
            allocated,
        ).0 == t,
        m.total_chunks == 0 || m.total_chunks > MAX_CHUNKS || m.chunk_index >= m.total_chunks
            ==> spec_accept(t, m, decoded, allocated).1 is Rejected,
{
}

/// The rule keeps the table's invariant: whatever the fragment, every
/// session left in the table still has an empty slot.
pub proof fn lemma_accept_keeps_table_ok(
    t: TableView,
    m: MetadataView,
    decoded: Option<Seq<u8>>,
    allocated: bool,
)
    requires
        table_ok(t),
    ensures
        table_ok(spec_accept(t, m, decoded, allocated).0),
{
    let r = spec_accept(t, m, decoded, allocated);
    assert forall|id: Seq<char>| r.0.contains_key(id) implies session_ok(#[trigger] r.0[id]) by {
        if id != m.upload_id {
            assert(t.contains_key(id));
            assert(r.0[id] == t[id]);
        } else if r.1 is Rejected {
            assert(r.0[id] == t[id]);
        } else {
            if t.contains_key(id) {
                assert(session_ok(t[id]));
            }
        }
    }
}

/// The invariant holds in every state that a delivery passes through: after
/// any fragments, every session in the table still waits for a fragment.
pub proof fn lemma_deliver_keeps_table_ok(t: TableView, fragments: Seq<FragmentView>)
    requires
        table_ok(t),
    ensures
        table_ok(deliver(t, fragments).0),
        deliver(t, fragments).1.len() == fragments.len(),
    decreases fragments.len(),
{
    if fragments.len() > 0 {
        lemma_deliver_keeps_table_ok(t, fragments.drop_last());
        let before = deliver(t, fragments.drop_last());
        lemma_accept_keeps_table_ok(
            before.0,
            fragments.last().metadata,
            Some(fragments.last().bytes),
            true,
        );
    }
}

/// Completion is final within a delivery: at the step whose outcome is a
/// completed upload, that upload's session has left the table.
pub proof fn lemma_completed_step_ends_session(
    t: TableView,
    fragments: Seq<FragmentView>,
    k: int,
)
    requires
        0 <= k < fragments.len(),
        deliver(t, fragments.take(k + 1)).1[k] is Completed,
    ensures
        !deliver(t, fragments.take(k + 1)).0.contains_key(fragments[k].metadata.upload_id),
{
    let prefix = fragments.take(k + 1);
    assert(prefix.last() == fragments[k]);
    let before = deliver(t, prefix.drop_last());
    lemma_outcomes_len(t, prefix.drop_last());
}

/// A delivery has one outcome for each fragment.
pub proof fn lemma_outcomes_len(t: TableView, fragments: Seq<FragmentView>)
    ensures
        deliver(t, fragments).1.len() == fragments.len(),
    decreases fragments.len(),
{
    if fragments.len() > 0 {
        lemma_outcomes_len(t, fragments.drop_last());
    }
}

/// Last write wins: when a fragment was stored and another with the same
/// metadata follows, the second is stored too, its bytes stand in the slot,
/// and the table is the one that the second alone would have left.
pub proof fn lemma_last_write_wins(
    t: TableView,
    m: MetadataView,
    first: Seq<u8>,
    second: Seq<u8>,
)
    requires
        table_ok(t),
        spec_accept(t, m, Some(first), true).1 is Stored,
    ensures
        ({
            let r1 = spec_accept(t, m, Some(first), true);
            let r2 = spec_accept(r1.0, m, Some(second), true);
            &&& r2.1 == (OutcomeView::Stored { chunk_index: m.chunk_index })
            &&& r2.0.contains_key(m.upload_id)
            &&& r2.0[m.upload_id].slots[m.chunk_index as int] == Some(second)
            &&& r2.0 == spec_accept(t, m, Some(second), true).0
        }),
{
    let r1 = spec_accept(t, m, Some(first), true);
    let r2 = spec_accept(r1.0, m, Some(second), true);
    let s1 = r1.0[m.upload_id];
    let idx = m.chunk_index as int;
    assert(!all_filled(s1.slots));
    let hole = choose|k: int| 0 <= k < s1.slots.len() && !((#[trigger] s1.slots[k]) is Some);
    assert(hole != idx);
    let slots2 = s1.slots.update(idx, Some(second));
    assert(!(slots2[hole] is Some));
    let s0 = if t.contains_key(m.upload_id) {
        t[m.upload_id]
    } else {
        crate::reassembly::fresh_session(m)
    };
    let direct = s0.slots.update(idx, Some(second));
    assert(direct =~= slots2);
    assert(r2.0 =~= spec_accept(t, m, Some(second), true).0);
}

/// A fragment for a slot that is already filled never completes its
/// session: the file of one session is handed out by the fragment that fills
/// its last empty slot, and by no repetition of an earlier one.
pub proof fn lemma_duplicate_never_completes(
    t: TableView,
    m: MetadataView,
    decoded: Option<Seq<u8>>,
    allocated: bool,
)
    requires
        table_ok(t),
        t.contains_key(m.upload_id),
        m.chunk_index < t[m.upload_id].slots.len(),
        t[m.upload_id].slots[m.chunk_index as int] is Some,
    ensures
        !(spec_accept(t, m, decoded, allocated).1 is Completed),
{
    let s = t[m.upload_id];
    assert(session_ok(s));
    let hole = choose|k: int| 0 <= k < s.slots.len() && !((#[trigger] s.slots[k]) is Some);
    if decoded is Some && metadata_ok(m) {
        let slots = s.slots.update(m.chunk_index as int, decoded);
        assert(!(slots[hole] is Some));
    }
}

/// A completed upload leaves no session behind, so nothing can complete it a
/// second time.
pub proof fn lemma_completion_ends_session(
    t: TableView,
    m: MetadataView,
    decoded: Option<Seq<u8>>,
    allocated: bool,
)
    ensures
        spec_accept(t, m, decoded, allocated).1 is Completed ==> !spec_accept(
            t,
            m,
            decoded,
            allocated,
        ).0.contains_key(m.upload_id),
{
}

} // verus!
