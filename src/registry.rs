use vstd::prelude::*;

use std::collections::HashMap;
use std::collections::HashSet;

use crate::error::LensError;
use crate::model::{rows_view, Row, RowView, StreamId};
use crate::rows::Batch;

verus! {

broadcast use vstd::std_specs::hash::group_hash_axioms;

/// How many random identifiers `create` draws before it gives up.
pub const ID_DRAWS: usize = 4;

/// What pulling one more batch from a cursor's source gave.
pub enum Pulled {
    /// A further batch of rows.
    Batch(Batch),
    /// The source has no more batches.
    End,
    /// The source failed, with the engine's message.
    Failed(String),
}

/// The decision on a pull: reply to the caller, or pull from the source
/// again (it gave a batch with no rows).
pub enum Fetch<S> {
    Reply(Result<Option<Vec<Row>>, LensError>),
    PullAgain(S),
}

/// A decision on a pull, with rows as their views.
pub enum FetchView {
    Reply(Result<Option<Seq<RowView>>, LensError>),
    PullAgain,
}

/// The view of a decision.
pub open spec fn fetch_view<S>(f: Fetch<S>) -> FetchView {
    match f {
        Fetch::Reply(Ok(Some(rows))) => FetchView::Reply(Ok(Some(rows_view(rows@)))),
        Fetch::Reply(Ok(None)) => FetchView::Reply(Ok(None)),
        Fetch::Reply(Err(e)) => FetchView::Reply(Err(e)),
        Fetch::PullAgain(_) => FetchView::PullAgain,
    }
}

/// The decision owed on a pull for `id`, given the checked-out cursors: a
/// batch with rows is a page, a batch without rows asks for another pull,
/// the end of the source is `None`, a failure is an `Execution` error, and
/// an `id` that is not checked out is `UnknownStream`.
pub open spec fn fetch_outcome(pending: Set<u128>, id: StreamId, pulled: Pulled) -> FetchView {
    if !pending.contains(id.0) {
        FetchView::Reply(Err(LensError::UnknownStream(id)))
    } else {
        match pulled {
            Pulled::Batch(b) => if b.height() == 0 {
                FetchView::PullAgain
            } else {
                FetchView::Reply(Ok(Some(b.rows_spec())))
            },
            Pulled::End => FetchView::Reply(Ok(None)),
            Pulled::Failed(msg) => FetchView::Reply(Err(LensError::Execution(msg))),
        }
    }
}

/// The open cursors after that decision: a cursor that gave a page is put
/// back; one that ended or failed is not.
pub open spec fn fetch_live<S>(
    live: Map<u128, S>,
    pending: Set<u128>,
    id: StreamId,
    source: S,
    pulled: Pulled,
) -> Map<u128, S> {
    match fetch_outcome(pending, id, pulled) {
        FetchView::Reply(Ok(Some(_))) => live.insert(id.0, source),
        _ => live,
    }
}

/// The checked-out cursors after that decision: only a pull-again keeps
/// `id` checked out.
pub open spec fn fetch_pending(pending: Set<u128>, id: StreamId, pulled: Pulled) -> Set<u128> {
    match fetch_outcome(pending, id, pulled) {
        FetchView::PullAgain => pending,
        _ => pending.remove(id.0),
    }
}

/// The rows handed out by one decision: those of its page, or none.
pub open spec fn page(f: FetchView) -> Seq<RowView> {
    match f {
        FetchView::Reply(Ok(Some(rows))) => rows,
        _ => Seq::empty(),
    }
}

/// All the rows of a sequence of batches, batch after batch.
pub open spec fn batches_rows(bs: Seq<Batch>) -> Seq<RowView> {
    bs.map_values(|b: Batch| b.rows_spec()).flatten()
}

/// The open and checked-out cursors after the first `k` batches of `bs`
/// were pulled for `id`; before each pull, a cursor that is open (it gave a
/// page) is checked out by the caller's next fetch.
pub open spec fn state_after<S>(
    live: Map<u128, S>,
    pending: Set<u128>,
    id: StreamId,
    source: S,
    bs: Seq<Batch>,
    k: nat,
) -> (Map<u128, S>, Set<u128>)
    decreases k,
{
    if k == 0 {
        (live, pending)
    } else {
        let (l, p) = state_after(live, pending, id, source, bs, (k - 1) as nat);
        let (l2, p2) = if l.contains_key(id.0) {
            (l.remove(id.0), p.insert(id.0))
        } else {
            (l, p)
        };
        let pulled = Pulled::Batch(bs[k - 1]);
        (fetch_live(l2, p2, id, source, pulled), fetch_pending(p2, id, pulled))
    }
}

/// Draining a checked-out cursor whose source gives the batches `bs` and then
/// ends: after every batch the cursor is either open or still checked out;
/// each page holds at least one row, and the pages hold, in order, exactly
/// the rows of the batches, none dropped or repeated; the end of the source
/// gives `None`, after which the cursor is neither open nor checked out, so
/// that any later fetch on it fails.
pub proof fn lemma_fetch_all_rows<S>(
    live: Map<u128, S>,
    pending: Set<u128>,
    id: StreamId,
    source: S,
    bs: Seq<Batch>,
)
    requires
        pending.contains(id.0),
        !live.contains_key(id.0),
    ensures
        forall|k: nat|
            k <= bs.len() ==> {
                let (l, p) = #[trigger] state_after(live, pending, id, source, bs, k);
                l.contains_key(id.0) != p.contains(id.0)
            },
        forall|k: int|
            0 <= k < bs.len() ==> match #[trigger] fetch_outcome(
                set![id.0],
                id,
                Pulled::Batch(bs[k]),
            ) {
                FetchView::Reply(Ok(Some(rows))) => rows.len() >= 1,
                FetchView::PullAgain => true,
                _ => false,
            },
        Seq::new(bs.len(), |k: int| page(fetch_outcome(set![id.0], id, Pulled::Batch(bs[k])))).flatten()
            == batches_rows(bs),
        fetch_outcome(set![id.0], id, Pulled::End) == FetchView::Reply(Ok(None)),
        ({
            let (l, p) = state_after(live, pending, id, source, bs, bs.len());
            let (l2, p2) = if l.contains_key(id.0) {
                (l.remove(id.0), p.insert(id.0))
            } else {
                (l, p)
            };
            &&& !fetch_live(l2, p2, id, source, Pulled::End).contains_key(id.0)
            &&& !fetch_pending(p2, id, Pulled::End).contains(id.0)
        }),
{
    assert forall|k: nat| k <= bs.len() implies {
        let (l, p) = #[trigger] state_after(live, pending, id, source, bs, k);
        l.contains_key(id.0) != p.contains(id.0)
    } by {
        lemma_state_after_alive(live, pending, id, source, bs, k);
    }
    assert forall|k: int| 0 <= k < bs.len() implies match #[trigger] fetch_outcome(
        set![id.0],
        id,
        Pulled::Batch(bs[k]),
    ) {
        FetchView::Reply(Ok(Some(rows))) => rows.len() >= 1,
        FetchView::PullAgain => true,
        _ => false,
    } by {
        assert(set![id.0].contains(id.0));
    }
    assert forall|k: int| 0 <= k < bs.len() implies #[trigger] page(
        fetch_outcome(set![id.0], id, Pulled::Batch(bs[k])),
    ) == bs[k].rows_spec() by {
        assert(set![id.0].contains(id.0));
        if bs[k].height() == 0 {
            assert(bs[k].rows_spec() =~= Seq::empty());
        }
    }
    assert(Seq::new(bs.len(), |k: int| page(fetch_outcome(set![id.0], id, Pulled::Batch(bs[k]))))
        =~= bs.map_values(|b: Batch| b.rows_spec()));
    assert(set![id.0].contains(id.0));
    lemma_state_after_alive(live, pending, id, source, bs, bs.len());
}

proof fn lemma_state_after_alive<S>(
    live: Map<u128, S>,
    pending: Set<u128>,
    id: StreamId,
    source: S,
    bs: Seq<Batch>,
    k: nat,
)
    requires
        pending.contains(id.0),
        !live.contains_key(id.0),
        k <= bs.len(),
    ensures
        ({
            let (l, p) = state_after(live, pending, id, source, bs, k);
            l.contains_key(id.0) != p.contains(id.0)
        }),
    decreases k,
{
    if k > 0 {
        lemma_state_after_alive(live, pending, id, source, bs, (k - 1) as nat);
    }
}

/// A retired identifier stays unknown: when `id` was handed out and its
/// cursor is neither open nor checked out, neither registering a cursor
/// under a new identifier nor a decision on another cursor opens it again.
pub proof fn lemma_retired_stays_unknown<S>(
    live: Map<u128, S>,
    pending: Set<u128>,
    issued: Set<u128>,
    id: StreamId,
    new_id: StreamId,
    other: StreamId,
    source: S,
    pulled: Pulled,
)
    requires
        live.dom().subset_of(issued),
        issued.contains(id.0),
        !live.contains_key(id.0),
        !pending.contains(id.0),
        !issued.contains(new_id.0),
        other != id,
    ensures
        !live.insert(new_id.0, source).contains_key(id.0),
        !fetch_live(live, pending, other, source, pulled).contains_key(id.0),
        !fetch_pending(pending, other, pulled).contains(id.0),
        fetch_outcome(pending, id, pulled) == FetchView::Reply(Err(LensError::UnknownStream(id))),
{
}

/// An identifier that was never handed out names no open cursor.
pub proof fn lemma_never_issued_unknown<S>(reg: StreamRegistry<S>, id: StreamId)
    requires
        reg.wf(),
        !reg.issued().contains(id.0),
    ensures
        !reg.live().contains_key(id.0),
        !reg.checked_out().contains(id.0),
{
}

/// Two cursors created one after the other get distinct identifiers: `r1`
/// is `r0` after a create that gave `id1`, and a create on `r1` gave `id2`.
pub proof fn lemma_created_ids_distinct<S>(
    r0: StreamRegistry<S>,
    r1: StreamRegistry<S>,
    id1: StreamId,
    id2: StreamId,
)
    requires
        !r0.issued().contains(id1.0),
        r1.issued() == r0.issued().insert(id1.0),
        !r1.issued().contains(id2.0),
    ensures
        id1 != id2,
{
}

/// The owner of all cursors. Each cursor is the engine's source of further
/// batches for one query, keyed by its identifier; it is open, or checked
/// out while a batch is pulled from it. Every identifier ever handed out is
/// remembered, so none is handed out twice.
pub struct StreamRegistry<S> {
    streams: HashMap<u128, S>,
    pending: HashSet<u128>,
    issued: HashSet<u128>,
}

impl<S> StreamRegistry<S> {
    /// The open cursors, by identifier.
    pub closed spec fn live(&self) -> Map<u128, S> {
        self.streams@
    }

    /// The cursors checked out for a pull.
    pub closed spec fn checked_out(&self) -> Set<u128> {
        self.pending@
    }

    /// Every identifier handed out so far.
    pub closed spec fn issued(&self) -> Set<u128> {
        self.issued@
    }

    /// Open and checked-out cursors have identifiers that were handed out,
    /// and no cursor is both.
    pub open spec fn wf(&self) -> bool {
        &&& self.live().dom().subset_of(self.issued())
        &&& self.checked_out().subset_of(self.issued())
        &&& self.live().dom().disjoint(self.checked_out())
    }

    /// A registry with no cursor, that has handed out no identifier.
    pub fn new() -> (r: StreamRegistry<S>)
        ensures
            r.wf(),
            r.live() == Map::<u128, S>::empty(),
            r.checked_out() == Set::<u128>::empty(),
            r.issued() == Set::<u128>::empty(),
    {
        StreamRegistry { streams: HashMap::new(), pending: HashSet::new(), issued: HashSet::new() }
    }

    /// Whether `id` names an open cursor.
    pub fn is_live(&self, id: StreamId) -> (r: bool)
        ensures
            r == self.live().contains_key(id.0),
    {
        self.streams.contains_key(&id.0)
    }

    /// Registers `source` under the identifier `token`, if that was never
    /// handed out; otherwise hands `source` back and changes nothing.
    pub fn register(&mut self, token: u128, source: S) -> (r: Result<StreamId, S>)
        requires
            old(self).wf(),
        ensures
            final(self).wf(),
            final(self).checked_out() == old(self).checked_out(),
            !old(self).issued().contains(token) ==> {
                &&& r == Ok::<StreamId, S>(StreamId(token))
                &&& final(self).issued() == old(self).issued().insert(token)
                &&& final(self).live() == old(self).live().insert(token, source)
            },
            old(self).issued().contains(token) ==> {
                &&& r == Err::<StreamId, S>(source)
                &&& final(self).issued() == old(self).issued()
                &&& final(self).live() == old(self).live()
            },
    {
        if self.issued.contains(&token) {
            return Err(source);
        }
        self.issued.insert(token);
        self.streams.insert(token, source);
        Ok(StreamId(token))
    }

    /// Registers the outcome of executing a query. A failed execution is
    /// handed back as it is and registers nothing. A source is registered
    /// under a drawn identifier that was never handed out before, which is
    /// returned; the first draw is taken when no identifier was handed out
    /// yet. If every draw hits a used identifier, nothing is registered and
    /// the failure is `NoFreshId`.
    pub fn create(&mut self, executed: Result<S, LensError>) -> (r: Result<StreamId, LensError>)
        requires
            old(self).wf(),
        ensures
            final(self).wf(),
            final(self).checked_out() == old(self).checked_out(),
            match executed {
                Err(e) => r == Err::<StreamId, LensError>(e) && final(self).live() == old(self).live()
                    && final(self).issued() == old(self).issued(),
                Ok(source) => match r {
                    Ok(id) => {
                        &&& !old(self).issued().contains(id.0)
                        &&& final(self).issued() == old(self).issued().insert(id.0)
                        &&& final(self).live() == old(self).live().insert(id.0, source)
                    },
                    Err(e) => {
                        &&& e is NoFreshId
                        &&& final(self).live() == old(self).live()
                        &&& final(self).issued() == old(self).issued()
                    },
                },
            },
            executed is Ok && old(self).issued().is_empty() ==> r is Ok,
    {
        let mut source = match executed {
            Err(e) => {
                return Err(e);
            },
            Ok(source) => source,
        };
        let mut draw: usize = 0;
        while draw < ID_DRAWS
            invariant
                self.wf(),
                self.live() == old(self).live(),
                self.checked_out() == old(self).checked_out(),
                self.issued() == old(self).issued(),
                executed == Ok::<S, LensError>(source),
                old(self).issued().is_empty() ==> draw == 0,
            decreases ID_DRAWS - draw,
        {
            let id = StreamId::new();
            match self.register(id.0, source) {
                Ok(id) => {
                    return Ok(id);
                },
                Err(back) => {
                    source = back;
                },
            }
            draw = draw + 1;
        }
        Err(LensError::NoFreshId)
    }

    /// Checks out the open cursor `id`, handing out its source so that one
    /// more batch can be pulled from it; fails with `UnknownStream` exactly
    /// when `id` names no open cursor, never issued or already retired.
    pub fn checkout(&mut self, id: StreamId) -> (r: Result<S, LensError>)
        requires
            old(self).wf(),
        ensures
            final(self).wf(),
            final(self).issued() == old(self).issued(),
            r is Ok <==> old(self).live().contains_key(id.0),
            match r {
                Ok(source) => {
                    &&& source == old(self).live()[id.0]
                    &&& final(self).live() == old(self).live().remove(id.0)
                    &&& final(self).checked_out() == old(self).checked_out().insert(id.0)
                },
                Err(e) => {
                    &&& e == LensError::UnknownStream(id)
                    &&& final(self).live() == old(self).live()
                    &&& final(self).checked_out() == old(self).checked_out()
                },
            },
    {
        match self.streams.remove(&id.0) {
            Some(source) => {
                self.pending.insert(id.0);
                Ok(source)
            },
            None => Err(LensError::UnknownStream(id)),
        }
    }

    /// Decides on a pull from the checked-out cursor `id`, given its source
    /// and what the pull gave: a batch with rows becomes a page and the cursor
    /// is open again; a batch without rows hands the source back for another
    /// pull; the end of the source gives `None` and a failure an `Execution`
    /// error, both retiring the cursor. An `id` that is not checked out gives
    /// `UnknownStream` and changes nothing.
    pub fn complete_next(&mut self, id: StreamId, source: S, pulled: Pulled) -> (r: Fetch<S>)
        requires
            old(self).wf(),
        ensures
            final(self).wf(),
            final(self).issued() == old(self).issued(),
            final(self).live() == fetch_live(old(self).live(), old(self).checked_out(), id, source, pulled),
            final(self).checked_out() == fetch_pending(old(self).checked_out(), id, pulled),
            fetch_view(r) == fetch_outcome(old(self).checked_out(), id, pulled),
            r matches Fetch::PullAgain(s) ==> s == source,
            r matches Fetch::Reply(Ok(Some(rows))) ==> rows@.len() >= 1,
            r matches Fetch::Reply(Ok(Some(rows))) ==> forall|i: int|
                0 <= i < rows@.len() ==> #[trigger] rows@[i].columns@.len() == rows@[i].values@.len(),
    {
        if !self.pending.contains(&id.0) {
            return Fetch::Reply(Err(LensError::UnknownStream(id)));
        }
        match pulled {
            Pulled::Batch(b) => {
                let rows = b.to_rows();
                proof {
                    assert(rows_view(rows@).len() == rows@.len());
                    assert(b.rows_spec().len() == b.height());
                }
                if rows.len() == 0 {
                    return Fetch::PullAgain(source);
                }
                self.pending.remove(&id.0);
                self.streams.insert(id.0, source);
                Fetch::Reply(Ok(Some(rows)))
            },
            Pulled::End => {
                self.pending.remove(&id.0);
                Fetch::Reply(Ok(None))
            },
            Pulled::Failed(msg) => {
                self.pending.remove(&id.0);
                Fetch::Reply(Err(LensError::Execution(msg)))
            },
        }
    }
}

} // verus!
