//! An agent's inbox: what it asks the PLATO room for on each poll, what it
//! keeps of the answer, and what the listening loop does with each outcome.

use vstd::prelude::*;
use crate::clock::{Timestamp, TimestampView};
use crate::delivery::{at_instant, keep_relevant, keep_relevant_whispers_at};
use crate::filter::WhisperFilter;
use crate::numfmt::{all_decimal_digits, decimal_string, decimal_text, decimal_value, lemma_decimal_text_denotes};
use crate::plato_transport::{describes, PlatoError, PlatoTransport};
use crate::whisper::Whisper;

verus! {

/// The tag by which the inbox asks for whisper tiles.
pub const WHISPER_TAG: &'static str = "whisper";

/// Abstract state of an [`Inbox`].
pub struct InboxView {
    /// Whose inbox it is.
    pub agent_id: Seq<char>,
    /// When the last successful poll finished, in whole seconds since the epoch (0: never).
    pub last_polled: u64,
}

/// What one poll asks the room for: tiles since `since`, carrying `tag`.
pub struct PollRequest {
    pub since: String,
    pub tag: Option<String>,
}

/// The whispers among `parsed` that could be read, in order.
pub open spec fn readable(parsed: Seq<Option<Whisper>>) -> Seq<Whisper>
    decreases parsed.len(),
{
    if parsed.len() == 0 {
        Seq::empty()
    } else {
        let rest = readable(parsed.drop_last());
        match parsed.last() {
            Some(w) => rest.push(w),
            None => rest,
        }
    }
}

/// The `since` parameter of the next poll from an inbox in state `v`.
pub open spec fn since_of(v: InboxView) -> Seq<char> {
    decimal_text(v.last_polled as nat)
}

/// After a poll that finished at `now_secs`, the next poll asks for tiles
/// since exactly that second: its `since` parameter is a decimal numeral that
/// reads back as `now_secs`. A fresh inbox asks since `0`.
pub proof fn lemma_poll_resumes_where_last_finished(agent_id: Seq<char>, now_secs: u64)
    ensures
        decimal_value(since_of(InboxView { agent_id, last_polled: now_secs })) == now_secs,
        all_decimal_digits(since_of(InboxView { agent_id, last_polled: now_secs })),
        since_of(InboxView { agent_id, last_polled: 0 }) == seq!['0'],
{
    lemma_decimal_text_denotes(now_secs as nat);
}

/// An agent's inbox on the PLATO whisper room.
pub struct Inbox {
    transport: PlatoTransport,
    filter: WhisperFilter,
    last_polled: u64,
    agent_id: String,
}

impl View for Inbox {
    type V = InboxView;

    closed spec fn view(&self) -> InboxView {
        InboxView { agent_id: self.agent_id@, last_polled: self.last_polled }
    }
}

impl Inbox {
    /// The inbox of `agent_id`, reading through `transport`; it has never polled.
    pub fn new(transport: PlatoTransport, agent_id: String) -> (res: Inbox)
        ensures
            res@ == (InboxView { agent_id: agent_id@, last_polled: 0 }),
            res.polled_through() == transport,
    {
        Inbox { transport, filter: WhisperFilter::new(), last_polled: 0, agent_id }
    }

    /// Whose inbox it is.
    pub fn agent_id(&self) -> (res: &String)
        ensures
            res@ == self@.agent_id,
    {
        &self.agent_id
    }

    /// When the last successful poll finished, in seconds since the epoch.
    pub fn last_polled(&self) -> (res: u64)
        ensures
            res == self@.last_polled,
    {
        self.last_polled
    }

    /// The transport the inbox polls through: the one it was made with.
    pub fn transport(&self) -> (res: &PlatoTransport)
        ensures
            *res == self.polled_through(),
    {
        &self.transport
    }

    /// The transport that the inbox holds.
    pub closed spec fn polled_through(self) -> PlatoTransport {
        self.transport
    }

    /// What the next poll asks for: whisper tiles since the last poll, the
    /// time written as a decimal number of seconds (`0` before the first poll).
    pub fn poll_request(&self) -> (res: PollRequest)
        ensures
            res.since@ == since_of(self@),
            res.tag matches Some(t) && t@ == WHISPER_TAG@,
    {
        PollRequest { since: decimal_string(self.last_polled), tag: Some(String::from_str(WHISPER_TAG)) }
    }

    /// The readable whispers of `parsed`, in order, that are relevant to this
    /// agent at instant `now`.
    fn relevant_readable(&self, parsed: Vec<Option<Whisper>>, now: &Timestamp) -> (res: Vec<Whisper>)
        ensures
            res@ == keep_relevant(readable(parsed@), self@.agent_id, at_instant(readable(parsed@).len(), now@)),
    {
        let ghost all = parsed@;
        let mut whispers: Vec<Whisper> = Vec::new();
        for p in it: parsed.into_iter()
            invariant
                all == it.seq(),
                whispers@ == readable(all.take(it.index() as int)),
        {
            let ghost i = it.index();
            proof {
                assert(all.take(i + 1).drop_last() =~= all.take(i as int));
                assert(all[i as int] == p);
                assert(all.take(i + 1).last() == p);
            }
            match p {
                Some(w) => whispers.push(w),
                None => {},
            }
        }
        proof {
            assert(all.take(all.len() as int) =~= all);
        }
        let agent = self.agent_id.as_str();
        assert(agent@ == self@.agent_id);
        assert(whispers@ == readable(parsed@));
        keep_relevant_whispers_at(&self.filter, whispers, agent, now)
    }

    /// Ends a successful poll whose tiles read as `parsed` (`None` for a tile
    /// that is not a whisper): keeps the readable whispers relevant to this
    /// agent at instant `now`, in order, and remembers `now_secs` (seconds
    /// since the epoch) as the time of the last poll.
    pub fn finish_poll_at(&mut self, parsed: Vec<Option<Whisper>>, now: &Timestamp, now_secs: u64) -> (res: Vec<Whisper>)
        ensures
            final(self)@ == (InboxView { agent_id: old(self)@.agent_id, last_polled: now_secs }),
            final(self).polled_through() == old(self).polled_through(),
            res@ == keep_relevant(readable(parsed@), old(self)@.agent_id, at_instant(readable(parsed@).len(), now@)),
    {
        let kept = self.relevant_readable(parsed, now);
        self.last_polled = now_secs;
        kept
    }

    /// Ends a successful poll whose tiles read as `parsed`, as
    /// [`Inbox::finish_poll_at`] does at the current time, read once from the
    /// clock: the whispers are judged at that instant and its whole seconds
    /// since the epoch become the time of the last poll, from which the next
    /// poll asks. `None`, and the inbox unchanged, when the clock cannot be read.
    pub fn finish_poll(&mut self, parsed: Vec<Option<Whisper>>) -> (res: Option<Vec<Whisper>>)
        ensures
            res is None ==> *final(self) == *old(self),
            res matches Some(v) ==> exists|now: TimestampView| {
                &&& now.valid()
                &&& now.secs >= 0
                &&& !now.is_leap()
                &&& final(self)@ == (InboxView { agent_id: old(self)@.agent_id, last_polled: now.secs as u64 })
                &&& #[trigger] keep_relevant(readable(parsed@), old(self)@.agent_id, at_instant(readable(parsed@).len(), now)) == v@
            },
            final(self).polled_through() == old(self).polled_through(),
    {
        match Timestamp::now() {
            None => None,
            Some(now) => {
                let secs = now.timestamp();
                Some(self.finish_poll_at(parsed, &now, secs as u64))
            },
        }
    }
}

/// What the listening loop does after a poll.
pub enum ListenAction {
    /// Hand these new whispers to the callback.
    Deliver(Vec<Whisper>),
    /// Nothing new: wait for the next poll.
    Idle,
    /// The poll failed: report this warning and wait for the next poll.
    Warn(String),
}

/// The listening loop's decision on a poll's outcome: new whispers are
/// delivered, an empty answer is passed over, a failure is reported as
/// `inbox poll error: <error>`.
pub fn listen_action(outcome: Result<Vec<Whisper>, PlatoError>) -> (res: ListenAction)
    ensures
        match outcome {
            Ok(ws) => if ws@.len() > 0 {
                res == ListenAction::Deliver(ws)
            } else {
                res is Idle
            },
            Err(e) => res matches ListenAction::Warn(m) && exists|t: Seq<char>|
                describes(e, t) && m@ == "inbox poll error: "@ + t,
        },
{
    match outcome {
        Ok(ws) => {
            if ws.len() > 0 {
                ListenAction::Deliver(ws)
            } else {
                ListenAction::Idle
            }
        },
        Err(e) => {
            let text = e.message();
            let m = String::from_str("inbox poll error: ").concat(text.as_str());
            assert(m@ == "inbox poll error: "@ + text@);
            ListenAction::Warn(m)
        },
    }
}

} // verus!
