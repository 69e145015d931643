use vstd::prelude::*;
use crate::dedup::fresh_ids;
use crate::dedup::lemma_fresh_ids_are_the_difference;
use crate::match_data::MatchRecord;
use crate::store_model::PlayerRecord;
use crate::store_model::StoreView;
use crate::store_model::is_due;
use crate::store_model::lemma_claim_keeps_ids;
use crate::store_model::lemma_first_due_some;
use crate::store_model::lemma_upsert_match_wf;
use crate::store_model::lemma_upsert_player_wf;

verus! {

/// One operation on a document store.
pub enum StoreOp {
    /// A claim of the next player due, at time `now` with a staleness
    /// window of `threshold`.
    Claim { now: i64, threshold: i64 },
    /// An insert-if-absent of a player.
    UpsertPlayer { id: Seq<char> },
    /// An insert-if-absent of a match.
    UpsertMatch { record: MatchRecord },
}

/// The store after one operation.
pub open spec fn apply(s: StoreView, op: StoreOp) -> StoreView {
    match op {
        StoreOp::Claim { now, threshold } => s.claim(now, now - threshold),
        StoreOp::UpsertPlayer { id } => s.upsert_player(id),
        StoreOp::UpsertMatch { record } => s.upsert_match(record),
    }
}

/// The store after a sequence of operations, first to last.
pub open spec fn apply_all(s: StoreView, ops: Seq<StoreOp>) -> StoreView
    decreases ops.len(),
{
    if ops.len() == 0 {
        s
    } else {
        apply(apply_all(s, ops.drop_last()), ops.last())
    }
}

/// Whether `op`, done on `s`, is a claim that hands out the player `id`.
pub open spec fn hands_out(s: StoreView, op: StoreOp, id: Seq<char>) -> bool {
    op matches StoreOp::Claim { now, threshold } && s.claimed(now - threshold) matches Some(p)
        && p.id == id
}

/// Whether `op`, if it is a claim, falls into the staleness window of a
/// claim made at `claimed_at`: it asks for players last claimed before a
/// time that is not after `claimed_at`. With one threshold for all claims
/// this is a claim made at most `threshold` after `claimed_at`.
pub open spec fn within_window(op: StoreOp, claimed_at: i64) -> bool {
    op matches StoreOp::Claim { now, threshold } ==> now - threshold <= claimed_at
}

/// Whether the store holds the player `id` with a last claim at or after
/// `bound`.
pub open spec fn claimed_since(s: StoreView, id: Seq<char>, bound: i64) -> bool {
    exists|j: int|
        0 <= j < s.players.len() && (#[trigger] s.players[j]).id == id
            && s.players[j].last_claimed_at >= bound
}

/// Every operation keeps a store well-formed.
pub proof fn lemma_apply_wf(s: StoreView, op: StoreOp)
    requires
        s.wf(),
    ensures
        apply(s, op).wf(),
{
    match op {
        StoreOp::Claim { now, threshold } => lemma_claim_keeps_ids(s, now, now - threshold),
        StoreOp::UpsertPlayer { id } => lemma_upsert_player_wf(s, id),
        StoreOp::UpsertMatch { record } => lemma_upsert_match_wf(s, record),
    }
}

/// No operation deletes a player or a match, and none changes a match that
/// is held.
pub proof fn lemma_apply_keeps_records(s: StoreView, op: StoreOp)
    ensures
        s.players.len() <= apply(s, op).players.len(),
        forall|j: int|
            0 <= j < s.players.len() ==> (#[trigger] apply(s, op).players[j]).id
                == s.players[j].id,
        s.matches.len() <= apply(s, op).matches.len(),
        forall|j: int|
            0 <= j < s.matches.len() ==> #[trigger] apply(s, op).matches[j] == s.matches[j],
{
}

/// A claim with a window that is not negative never turns a player's last
/// claim back: the player it stamps was last claimed before `now`.
pub proof fn lemma_claim_never_turns_clock_back(s: StoreView, now: i64, threshold: i64)
    requires
        threshold >= 0,
    ensures
        forall|j: int|
            0 <= j < s.players.len() ==> (#[trigger] s.claim(
                now,
                now - threshold,
            ).players[j]).last_claimed_at >= s.players[j].last_claimed_at,
{
    let cutoff = now - threshold;
    if s.first_due(cutoff) is Some {
        lemma_first_due_some(s, cutoff);
    }
}

/// A claim hands out a player and stamps it in one step: where a player is
/// handed out, the store after the claim holds that player with `now` as its
/// last claim, and every other player as before.
pub proof fn lemma_claim_stamps_the_claimed(s: StoreView, now: i64, cutoff: int)
    requires
        s.claimed(cutoff) is Some,
    ensures
        ({
            let i = s.first_due(cutoff).unwrap();
            let after = s.claim(now, cutoff);
            &&& 0 <= i < s.players.len()
            &&& s.claimed(cutoff) == Some(s.players[i])
            &&& is_due(s.players[i], cutoff)
            &&& after.players.len() == s.players.len()
            &&& after.players[i] == PlayerRecord { id: s.players[i].id, last_claimed_at: now }
            &&& forall|j: int|
                0 <= j < s.players.len() && j != i ==> #[trigger] after.players[j] == s.players[j]
        }),
{
    lemma_first_due_some(s, cutoff);
}

/// An operation within the window of a claim of `id` at `claimed_at` leaves
/// that player claimed since then.
pub proof fn lemma_apply_within_window(s: StoreView, op: StoreOp, id: Seq<char>, claimed_at: i64)
    requires
        s.wf(),
        claimed_since(s, id, claimed_at),
        within_window(op, claimed_at),
    ensures
        claimed_since(apply(s, op), id, claimed_at),
        !hands_out(s, op, id),
{
    let j = choose|j: int|
        0 <= j < s.players.len() && (#[trigger] s.players[j]).id == id
            && s.players[j].last_claimed_at >= claimed_at;
    match op {
        StoreOp::Claim { now, threshold } => {
            let cutoff = now - threshold;
            if s.first_due(cutoff) is Some {
                lemma_first_due_some(s, cutoff);
                let i = s.first_due(cutoff).unwrap();
                assert(i != j);
                assert(s.player_ids()[i] == s.players[i].id);
                assert(s.player_ids()[j] == s.players[j].id);
                assert(apply(s, op).players[j] == s.players[j]);
            } else {
                assert(apply(s, op).players[j] == s.players[j]);
            }
        },
        StoreOp::UpsertPlayer { id: other } => {
            assert(apply(s, op).players[j] == s.players[j]);
        },
        StoreOp::UpsertMatch { record } => {
            assert(apply(s, op).players[j] == s.players[j]);
        },
    }
}

/// Operations that all fall within the window of a claim of `id` at
/// `claimed_at` leave the store well-formed and that player claimed since
/// then.
pub proof fn lemma_apply_all_within_window(
    s: StoreView,
    ops: Seq<StoreOp>,
    id: Seq<char>,
    claimed_at: i64,
)
    requires
        s.wf(),
        claimed_since(s, id, claimed_at),
        forall|i: int| 0 <= i < ops.len() ==> within_window(#[trigger] ops[i], claimed_at),
    ensures
        apply_all(s, ops).wf(),
        claimed_since(apply_all(s, ops), id, claimed_at),
    decreases ops.len(),
{
    if ops.len() > 0 {
        let front = ops.drop_last();
        assert forall|i: int| 0 <= i < front.len() implies within_window(
            #[trigger] front[i],
            claimed_at,
        ) by {
            assert(front[i] == ops[i]);
        }
        lemma_apply_all_within_window(s, front, id, claimed_at);
        assert(within_window(ops[ops.len() - 1], claimed_at));
        lemma_apply_wf(apply_all(s, front), ops.last());
        lemma_apply_within_window(apply_all(s, front), ops.last(), id, claimed_at);
    }
}

/// A player that a claim at time `now` handed out is not handed out again
/// by any later claim within the staleness window, whatever claims and
/// inserts are made in between: after the claim, let `ops` be operations
/// that all fall within the window; then none of them hands the player out.
/// The operations may come from several callers in any interleaving: each
/// is one step on the store.
pub proof fn lemma_no_second_claim_within_window(
    s: StoreView,
    now: i64,
    threshold: i64,
    ops: Seq<StoreOp>,
    k: int,
)
    requires
        s.wf(),
        s.claimed(now - threshold) is Some,
        forall|i: int| 0 <= i < ops.len() ==> within_window(#[trigger] ops[i], now),
        0 <= k < ops.len(),
    ensures
        !hands_out(
            apply_all(s.claim(now, now - threshold), ops.take(k)),
            ops[k],
            s.claimed(now - threshold).unwrap().id,
        ),
{
    let cutoff = now - threshold;
    let id = s.claimed(cutoff).unwrap().id;
    let after = s.claim(now, cutoff);
    lemma_claim_stamps_the_claimed(s, now, cutoff);
    lemma_claim_keeps_ids(s, now, cutoff);
    let i = s.first_due(cutoff).unwrap();
    assert(after.players[i].id == id && after.players[i].last_claimed_at >= now);
    let before_k = ops.take(k);
    assert forall|m: int| 0 <= m < before_k.len() implies within_window(
        #[trigger] before_k[m],
        now,
    ) by {
        assert(before_k[m] == ops[m]);
    }
    lemma_apply_all_within_window(after, before_k, id, now);
    lemma_apply_within_window(apply_all(after, before_k), ops[k], id, now);
}

/// Inserting a match twice under one id keeps the first payload: the second
/// insert changes nothing, and where the id was new the store then holds the
/// first record under it.
pub proof fn lemma_upsert_match_keeps_first(s: StoreView, first: MatchRecord, second: MatchRecord)
    requires
        s.wf(),
        first.match_id == second.match_id,
    ensures
        s.upsert_match(first).upsert_match(second) == s.upsert_match(first),
        !s.has_match(first.match_id) ==> s.upsert_match(first).upsert_match(second).stored_match(
            first.match_id,
        ) == first,
        s.has_match(first.match_id) ==> s.upsert_match(first).upsert_match(second) == s,
{
    lemma_upsert_match_wf(s, first);
    if !s.has_match(first.match_id) {
        let after = s.upsert_match(first);
        let ids = after.match_ids();
        let n = s.matches.len() as int;
        assert(ids[n] == first.match_id);
        let at = ids.index_of(first.match_id);
        assert(0 <= at < ids.len() && ids[at] == first.match_id);
        assert(at == n);
    }
}

/// Inserting a player that the store holds changes nothing, so it never
/// resets that player's last claim; a new player starts as never claimed.
pub proof fn lemma_upsert_player_keeps_clock(s: StoreView, id: Seq<char>)
    requires
        s.wf(),
    ensures
        s.has_player(id) ==> s.upsert_player(id) == s,
        !s.has_player(id) ==> s.upsert_player(id).player(id) == (PlayerRecord {
            id,
            last_claimed_at: 0,
        }),
        s.upsert_player(id).upsert_player(id) == s.upsert_player(id),
{
    lemma_upsert_player_wf(s, id);
    if !s.has_player(id) {
        let after = s.upsert_player(id);
        let ids = after.player_ids();
        let n = s.players.len() as int;
        assert(ids[n] == id);
        let at = ids.index_of(id);
        assert(0 <= at < ids.len() && ids[at] == id);
        assert(at == n);
    }
}

/// Asking twice which ids are new gives the same answer as long as no match
/// is stored in between: the answer depends on the store only through the
/// ids of the matches it holds, and neither a claim nor the insert of a
/// player changes those.
pub proof fn lemma_new_ids_stable(s: StoreView, ops: Seq<StoreOp>, candidates: Seq<Seq<char>>)
    requires
        forall|i: int| 0 <= i < ops.len() ==> !(#[trigger] ops[i] is UpsertMatch),
    ensures
        apply_all(s, ops).matches == s.matches,
        fresh_ids(candidates, apply_all(s, ops).match_ids().to_set()) == fresh_ids(
            candidates,
            s.match_ids().to_set(),
        ),
    decreases ops.len(),
{
    if ops.len() > 0 {
        let front = ops.drop_last();
        assert forall|i: int| 0 <= i < front.len() implies !(#[trigger] front[i] is UpsertMatch) by {
            assert(front[i] == ops[i]);
        }
        lemma_new_ids_stable(s, front, candidates);
        assert(!(ops[ops.len() - 1] is UpsertMatch));
    }
}

/// A match that has been stored is not new any more: whatever the
/// candidates, its id is not among the new ids.
pub proof fn lemma_stored_match_is_not_new(
    s: StoreView,
    record: MatchRecord,
    candidates: Seq<Seq<char>>,
)
    requires
        s.wf(),
    ensures
        !fresh_ids(candidates, s.upsert_match(record).match_ids().to_set()).contains(
            record.match_id,
        ),
        candidates == seq![record.match_id] ==> fresh_ids(
            candidates,
            s.upsert_match(record).match_ids().to_set(),
        ) == Seq::<Seq<char>>::empty(),
{
    let after = s.upsert_match(record);
    let known = after.match_ids().to_set();
    lemma_upsert_match_wf(s, record);
    lemma_fresh_ids_are_the_difference(candidates, known);
    let fresh = fresh_ids(candidates, known);
    assert(known.contains(record.match_id));
    if fresh.contains(record.match_id) {
        assert(fresh.to_set().contains(record.match_id));
    }
    if candidates == seq![record.match_id] && fresh.len() > 0 {
        assert(fresh.to_set().contains(fresh[0]));
        assert(candidates.contains(fresh[0]));
    }
    if fresh.len() == 0 {
        assert(fresh =~= Seq::<Seq<char>>::empty());
    }
}

} // verus!
