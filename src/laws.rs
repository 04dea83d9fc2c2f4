//! Laws that relate successive board operations, stated over the board's model.
use crate::board::{after_create, after_delete, after_write, created, holds, updated, BoardModel};
use crate::message::{candid_bytes, MessageView, PayloadView};
use crate::storage::no_entries;
use vstd::prelude::*;

verus! {

/// The records that successive successful creates return, the i-th from `ps[i]` at
/// time `times[i]`, starting in state `s`.
pub open spec fn create_run(s: BoardModel, ps: Seq<PayloadView>, times: Seq<u64>) -> Seq<
    MessageView,
>
    decreases ps.len(),
{
    if ps.len() == 0 || times.len() == 0 {
        Seq::empty()
    } else {
        seq![created(s, ps[0], times[0])] + create_run(
            after_create(s, ps[0], times[0]),
            ps.drop_first(),
            times.drop_first(),
        )
    }
}

proof fn lemma_create_run_ids(s: BoardModel, ps: Seq<PayloadView>, times: Seq<u64>)
    requires
        ps.len() == times.len(),
        s.next_id + ps.len() <= u64::MAX,
    ensures
        create_run(s, ps, times).len() == ps.len(),
        forall|i: int|
            0 <= i < ps.len() ==> #[trigger] create_run(s, ps, times)[i].id == s.next_id + i + 1,
    decreases ps.len(),
{
    if ps.len() > 0 {
        let s1 = after_create(s, ps[0], times[0]);
        lemma_create_run_ids(s1, ps.drop_first(), times.drop_first());
        let rest = create_run(s1, ps.drop_first(), times.drop_first());
        assert forall|i: int| 0 <= i < ps.len() implies #[trigger] create_run(s, ps, times)[i].id
            == s.next_id + i + 1 by {
            if i > 0 {
                assert(create_run(s, ps, times)[i] == rest[i - 1]);
            }
        }
    }
}

/// Successive creates hand out strictly increasing, hence pairwise distinct, ids.
pub proof fn lemma_ids_increase(s: BoardModel, ps: Seq<PayloadView>, times: Seq<u64>)
    requires
        ps.len() == times.len(),
        s.next_id + ps.len() <= u64::MAX,
    ensures
        forall|i: int, j: int|
            0 <= i < j < ps.len() ==> #[trigger] create_run(s, ps, times)[i].id
                < #[trigger] create_run(s, ps, times)[j].id,
{
    lemma_create_run_ids(s, ps, times);
}

/// After a create, the board stores the created record under its id, so a read of
/// that id returns it.
pub proof fn lemma_read_after_create(s: BoardModel, p: PayloadView, now: u64)
    requires
        s.next_id < u64::MAX,
    ensures
        holds(after_create(s, p, now), created(s, p, now).id, created(s, p, now)),
{
}

/// An update after a create stores the new text fields with the creation time kept
/// and the update time set; with a clock that does not go back, the update time is
/// not before the creation time.
pub proof fn lemma_update_after_create(
    s: BoardModel,
    p: PayloadView,
    now: u64,
    p2: PayloadView,
    later: u64,
)
    requires
        s.next_id < u64::MAX,
        now <= later,
    ensures
        ({
            let m = created(s, p, now);
            let s1 = after_create(s, p, now);
            let u = updated(m, p2, later);
            &&& holds(s1, m.id, m)
            &&& holds(after_write(s1, m.id, u), m.id, u)
            &&& u.id == m.id
            &&& u.title == p2.title
            &&& u.body == p2.body
            &&& u.attachment_url == p2.attachment_url
            &&& u.created_at == m.created_at
            &&& u.updated_at == Some(later)
            &&& later >= m.created_at
        }),
{
}

/// After a create and a delete of the created id, the board holds nothing under it,
/// so a read of that id finds nothing.
pub proof fn lemma_delete_after_create(s: BoardModel, p: PayloadView, now: u64)
    requires
        s.next_id < u64::MAX,
    ensures
        !after_delete(after_create(s, p, now), created(s, p, now).id).stored.contains_key(
            created(s, p, now).id,
        ),
{
}

/// The board's records are consistent: finitely many, each under a key no larger than
/// the last id handed out, and each the encoding of a record whose id is its key.
pub open spec fn consistent(s: BoardModel) -> bool {
    &&& s.stored.dom().finite()
    &&& forall|k: u64| #[trigger]
        s.stored.contains_key(k) ==> k <= s.next_id && exists|v: MessageView|
            v.id == k && #[trigger] candid_bytes(v) == s.stored[k]
}

/// A fresh board, with the counter at 0 and no records, is consistent.
pub proof fn lemma_fresh_consistent()
    ensures
        consistent(BoardModel { next_id: 0, stored: no_entries() }),
{
}

/// A create on a consistent board keeps it consistent, uses a key that held nothing,
/// keeps every other record, and adds exactly one.
pub proof fn lemma_create_keeps_consistent(s: BoardModel, p: PayloadView, now: u64)
    requires
        consistent(s),
        s.next_id < u64::MAX,
    ensures
        consistent(after_create(s, p, now)),
        !s.stored.contains_key(created(s, p, now).id),
        forall|k: u64| #[trigger]
            s.stored.contains_key(k) ==> after_create(s, p, now).stored[k] == s.stored[k],
        after_create(s, p, now).stored.dom().len() == s.stored.dom().len() + 1,
{
    let m = created(s, p, now);
    let s1 = after_create(s, p, now);
    assert forall|k: u64| #[trigger] s1.stored.contains_key(k) implies k <= s1.next_id
        && exists|v: MessageView| v.id == k && #[trigger] candid_bytes(v) == s1.stored[k] by {
        if k == m.id {
            assert(candid_bytes(m) == s1.stored[k]);
        } else {
            assert(s.stored.contains_key(k));
            let w = choose|v: MessageView| v.id == k && #[trigger] candid_bytes(v) == s.stored[k];
            assert(candid_bytes(w) == s1.stored[k]);
        }
    }
}

/// An update of a record on a consistent board keeps it consistent: the record under
/// `id` has `id` as its own id, and so does the updated one.
pub proof fn lemma_update_keeps_consistent(s: BoardModel, id: u64, p: PayloadView, now: u64)
    requires
        consistent(s),
        s.stored.contains_key(id),
    ensures
        exists|v: MessageView|
            #[trigger] holds(s, id, v) && v.id == id && consistent(
                after_write(s, id, updated(v, p, now)),
            ),
{
    let v = choose|v: MessageView| v.id == id && #[trigger] candid_bytes(v) == s.stored[id];
    let u = updated(v, p, now);
    let s1 = after_write(s, id, u);
    assert forall|k: u64| #[trigger] s1.stored.contains_key(k) implies k <= s1.next_id
        && exists|w: MessageView| w.id == k && #[trigger] candid_bytes(w) == s1.stored[k] by {
        if k == id {
            assert(candid_bytes(u) == s1.stored[k]);
        } else {
            let w = choose|w: MessageView| w.id == k && #[trigger] candid_bytes(w) == s.stored[k];
            assert(candid_bytes(w) == s1.stored[k]);
        }
    }
    assert(holds(s, id, v));
}

/// A delete on a consistent board keeps it consistent.
pub proof fn lemma_delete_keeps_consistent(s: BoardModel, id: u64)
    requires
        consistent(s),
    ensures
        consistent(after_delete(s, id)),
{
    let s1 = after_delete(s, id);
    assert forall|k: u64| #[trigger] s1.stored.contains_key(k) implies k <= s1.next_id
        && exists|w: MessageView| w.id == k && #[trigger] candid_bytes(w) == s1.stored[k] by {
        let w = choose|w: MessageView| w.id == k && #[trigger] candid_bytes(w) == s.stored[k];
        assert(candid_bytes(w) == s1.stored[k]);
    }
}

/// Ids of creates made at two moments increase with time, whatever ran between them:
/// every operation leaves the last id where it was or moves it up, and a create hands
/// out the next one.
pub proof fn lemma_later_create_larger_id(
    s1: BoardModel,
    p1: PayloadView,
    t1: u64,
    s2: BoardModel,
    p2: PayloadView,
    t2: u64,
)
    requires
        s1.next_id < u64::MAX,
        s2.next_id < u64::MAX,
        after_create(s1, p1, t1).next_id <= s2.next_id,
    ensures
        created(s1, p1, t1).id < created(s2, p2, t2).id,
        created(s1, p1, t1).id != created(s2, p2, t2).id,
{
}

/// An id at or below the last one handed out that holds no record stays empty: a create
/// uses a larger id, and an update or a delete touches only its own id.
pub proof fn lemma_absent_stays_absent(
    s: BoardModel,
    id: u64,
    p: PayloadView,
    now: u64,
    k: u64,
    v: MessageView,
)
    requires
        id <= s.next_id,
        !s.stored.contains_key(id),
    ensures
        s.next_id < u64::MAX ==> !after_create(s, p, now).stored.contains_key(id) && id
            <= after_create(s, p, now).next_id,
        holds(s, k, v) ==> !after_write(s, k, updated(v, p, now)).stored.contains_key(id),
        !after_delete(s, k).stored.contains_key(id) && id <= after_delete(s, k).next_id,
{
}

} // verus!
