//! Delivery of whispers: the three ways a whisper can be addressed, and the
//! service that sends whispers out and picks out the ones an agent should see.

use vstd::prelude::*;
use crate::clock::{Timestamp, TimestampView};
use crate::filter::{addressed_to, relevant_at, WhisperFilter};
use crate::plato_transport::PlatoTransport;
use crate::whisper::Whisper;

verus! {

/// How a whisper is addressed.
pub enum DeliveryMode {
    /// To one agent, named in the whisper's `to` field.
    Unicast,
    /// To the members of the room; `to` is left empty.
    Multicast,
    /// To every agent of the fleet; the room is the broadcast domain.
    Broadcast,
}

/// The whispers of `ws`, in order, that are relevant to `agent`, the `i`-th
/// judged at instant `times[i]`.
pub open spec fn keep_relevant(ws: Seq<Whisper>, agent: Seq<char>, times: Seq<TimestampView>) -> Seq<Whisper>
    decreases ws.len(),
{
    if ws.len() == 0 {
        Seq::empty()
    } else {
        let rest = keep_relevant(ws.drop_last(), agent, times.drop_last());
        if relevant_at(ws.last(), agent, times.last()) {
            rest.push(ws.last())
        } else {
            rest
        }
    }
}

/// What is kept is no longer than what was given; each kept whisper is one of
/// those given, relevant at the instant it was judged, so addressed to the
/// agent or to no one in particular; and when none is so addressed, nothing is
/// kept.
pub proof fn lemma_keep_relevant(ws: Seq<Whisper>, agent: Seq<char>, times: Seq<TimestampView>)
    requires
        times.len() == ws.len(),
    ensures
        keep_relevant(ws, agent, times).len() <= ws.len(),
        forall|k: int| 0 <= k < keep_relevant(ws, agent, times).len() ==> exists|i: int|
            0 <= i < ws.len() && ws[i] == #[trigger] keep_relevant(ws, agent, times)[k]
                && relevant_at(ws[i], agent, times[i]),
        forall|k: int| 0 <= k < keep_relevant(ws, agent, times).len() ==> addressed_to(
            #[trigger] keep_relevant(ws, agent, times)[k],
            agent,
        ),
        (forall|i: int| 0 <= i < ws.len() ==> !addressed_to(#[trigger] ws[i], agent)) ==> keep_relevant(ws, agent, times).len() == 0,
    decreases ws.len(),
{
    if ws.len() > 0 {
        let (ws0, t0) = (ws.drop_last(), times.drop_last());
        lemma_keep_relevant(ws0, agent, t0);
        let res = keep_relevant(ws, agent, times);
        let rest = keep_relevant(ws0, agent, t0);
        assert forall|k: int| 0 <= k < res.len() implies exists|i: int|
            0 <= i < ws.len() && ws[i] == #[trigger] res[k] && relevant_at(ws[i], agent, times[i]) by {
            if k < rest.len() {
                let i = choose|i: int| 0 <= i < ws0.len() && ws0[i] == rest[k] && relevant_at(ws0[i], agent, t0[i]);
                assert(ws[i] == res[k] && relevant_at(ws[i], agent, times[i]));
            } else {
                assert(ws[ws.len() - 1] == res[k]);
            }
        }
        assert forall|k: int| 0 <= k < res.len() implies addressed_to(#[trigger] res[k], agent) by {
            let i = choose|i: int| 0 <= i < ws.len() && ws[i] == res[k] && relevant_at(ws[i], agent, times[i]);
        }
        if forall|i: int| 0 <= i < ws.len() ==> !addressed_to(#[trigger] ws[i], agent) {
            assert forall|i: int| 0 <= i < ws0.len() implies !addressed_to(#[trigger] ws0[i], agent) by {
                assert(ws0[i] == ws[i]);
            }
            assert(!addressed_to(ws[ws.len() - 1], agent));
        }
    }
}

/// When every whisper given is relevant at the instant it is judged, all are
/// kept, in their order.
pub proof fn lemma_keep_all_relevant(ws: Seq<Whisper>, agent: Seq<char>, times: Seq<TimestampView>)
    requires
        times.len() == ws.len(),
        forall|i: int| 0 <= i < ws.len() ==> relevant_at(#[trigger] ws[i], agent, times[i]),
    ensures
        keep_relevant(ws, agent, times) == ws,
    decreases ws.len(),
{
    if ws.len() > 0 {
        let (ws0, t0) = (ws.drop_last(), times.drop_last());
        assert forall|i: int| 0 <= i < ws0.len() implies relevant_at(#[trigger] ws0[i], agent, t0[i]) by {
            assert(ws0[i] == ws[i] && t0[i] == times[i]);
        }
        lemma_keep_all_relevant(ws0, agent, t0);
        assert(relevant_at(ws[ws.len() - 1], agent, times[ws.len() - 1]));
        assert(ws0.push(ws.last()) =~= ws);
    }
}

/// `n` judgements all made at the instant `now`.
pub open spec fn at_instant(n: nat, now: TimestampView) -> Seq<TimestampView> {
    Seq::new(n, |i: int| now)
}

/// Filtering nothing keeps nothing, and filtering a concatenation keeps what
/// filtering each part keeps, concatenated (each whisper judged at its own instant).
pub proof fn lemma_keep_relevant_concat(
    xs: Seq<Whisper>,
    ys: Seq<Whisper>,
    agent: Seq<char>,
    txs: Seq<TimestampView>,
    tys: Seq<TimestampView>,
)
    requires
        txs.len() == xs.len(),
        tys.len() == ys.len(),
    ensures
        keep_relevant(Seq::empty(), agent, Seq::empty()) == Seq::<Whisper>::empty(),
        keep_relevant(xs + ys, agent, txs + tys) == keep_relevant(xs, agent, txs) + keep_relevant(ys, agent, tys),
    decreases ys.len(),
{
    if ys.len() == 0 {
        assert(xs + ys =~= xs);
        assert(txs + tys =~= txs);
    } else {
        lemma_keep_relevant_concat(xs, ys.drop_last(), agent, txs, tys.drop_last());
        assert((xs + ys).drop_last() =~= xs + ys.drop_last());
        assert((txs + tys).drop_last() =~= txs + tys.drop_last());
        assert((xs + ys).last() == ys.last());
        assert((txs + tys).last() == tys.last());
        let left = keep_relevant(xs, agent, txs);
        let rest = keep_relevant(ys.drop_last(), agent, tys.drop_last());
        assert((left + rest).push(ys.last()) =~= left + rest.push(ys.last()));
    }
}

/// Filtering twice at one instant keeps what filtering once keeps.
pub proof fn lemma_keep_relevant_idempotent(ws: Seq<Whisper>, agent: Seq<char>, now: TimestampView)
    ensures
        keep_relevant(
            keep_relevant(ws, agent, at_instant(ws.len(), now)),
            agent,
            at_instant(keep_relevant(ws, agent, at_instant(ws.len(), now)).len(), now),
        ) == keep_relevant(ws, agent, at_instant(ws.len(), now)),
{
    let times = at_instant(ws.len(), now);
    let kept = keep_relevant(ws, agent, times);
    lemma_keep_relevant(ws, agent, times);
    let again = at_instant(kept.len(), now);
    assert forall|k: int| 0 <= k < kept.len() implies relevant_at(#[trigger] kept[k], agent, again[k]) by {
        let i = choose|i: int| 0 <= i < ws.len() && ws[i] == kept[k] && relevant_at(ws[i], agent, times[i]);
        assert(times[i] == now);
    }
    lemma_keep_all_relevant(kept, agent, again);
}

/// Keeps, in order, the whispers relevant to `agent_id`, all judged by
/// `filter` at the instant `now`.
pub fn keep_relevant_whispers_at(
    filter: &WhisperFilter,
    whispers: Vec<Whisper>,
    agent_id: &str,
    now: &Timestamp,
) -> (res: Vec<Whisper>)
    ensures
        res@ == keep_relevant(whispers@, agent_id@, at_instant(whispers@.len(), now@)),
{
    let ghost all = whispers@;
    let mut kept: Vec<Whisper> = Vec::new();
    for w in it: whispers.into_iter()
        invariant
            all == it.seq(),
            kept@ == keep_relevant(all.take(it.index() as int), agent_id@, at_instant(it.index() as nat, now@)),
    {
        let ghost i = it.index();
        let relevant = filter.is_relevant_at(&w, agent_id, now);
        proof {
            assert(all.take(i + 1).drop_last() =~= all.take(i as int));
            assert(at_instant((i + 1) as nat, now@).drop_last() =~= at_instant(i as nat, now@));
            assert(all[i as int] == w);
            assert(all.take(i + 1).last() == w);
            assert(at_instant((i + 1) as nat, now@).last() == now@);
        }
        if relevant {
            kept.push(w);
        }
    }
    proof {
        assert(all.take(all.len() as int) =~= all);
    }
    kept
}

/// Sends whispers to the PLATO room and filters the ones received.
pub struct DeliveryService {
    transport: PlatoTransport,
    filter: WhisperFilter,
}

impl DeliveryService {
    /// The service that sends through `transport`, with a default filter.
    pub fn new(transport: PlatoTransport) -> (res: DeliveryService)
        ensures
            res.sends_through() == transport,
    {
        DeliveryService { transport, filter: WhisperFilter::new() }
    }

    /// The transport that the service holds.
    pub closed spec fn sends_through(self) -> PlatoTransport {
        self.transport
    }

    /// The transport through which whispers are sent, whatever the delivery
    /// mode: the one the service was made with.
    pub fn transport(&self) -> (res: &PlatoTransport)
        ensures
            *res == self.sends_through(),
    {
        &self.transport
    }

    /// The whispers unexpired at instant `now` and addressed to `agent_id` or
    /// to no one in particular, in their order.
    pub fn filter_whispers_at(&self, whispers: Vec<Whisper>, agent_id: &str, now: &Timestamp) -> (res: Vec<Whisper>)
        ensures
            res@ == keep_relevant(whispers@, agent_id@, at_instant(whispers@.len(), now@)),
    {
        keep_relevant_whispers_at(&self.filter, whispers, agent_id, now)
    }

    /// The unexpired whispers addressed to `agent_id` or to no one in
    /// particular, in their order, all judged at the UTC time read once from
    /// the clock. `None` when there are whispers to judge and the clock cannot
    /// be read.
    pub fn filter_whispers(&self, whispers: Vec<Whisper>, agent_id: &str) -> (res: Option<Vec<Whisper>>)
        ensures
            whispers@.len() == 0 ==> (res matches Some(v) && v@.len() == 0),
            res matches Some(v) ==> exists|now: TimestampView|
                now.valid() && now.secs >= 0 && !now.is_leap()
                    && v@ == #[trigger] keep_relevant(whispers@, agent_id@, at_instant(whispers@.len(), now)),
    {
        if whispers.len() == 0 {
            let ghost epoch = TimestampView { secs: 0, nanos: 0 };
            assert(epoch.valid());
            assert(whispers@ =~= keep_relevant(whispers@, agent_id@, at_instant(whispers@.len(), epoch)));
            return Some(whispers);
        }
        match Timestamp::now() {
            Some(now) => Some(self.filter_whispers_at(whispers, agent_id, &now)),
            None => None,
        }
    }
}

} // verus!
