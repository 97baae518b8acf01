//! Which whispers an agent should look at: unexpired ones that are either
//! addressed to it or addressed to no one in particular.

use vstd::prelude::*;
use crate::clock::{Timestamp, TimestampView};
use crate::whisper::{variant_name_of, Whisper};

verus! {

/// `w` is addressed to `agent`, or to no one in particular (multicast or broadcast).
pub open spec fn addressed_to(w: Whisper, agent: Seq<char>) -> bool {
    match w.to {
        Some(to) => to@ == agent,
        None => true,
    }
}

/// At instant `now`, `w` is worth `agent`'s attention: it has not expired and
/// it is addressed to `agent` or to no one in particular.
pub open spec fn relevant_at(w: Whisper, agent: Seq<char>, now: TimestampView) -> bool {
    !w.expired_at(now) && addressed_to(w, agent)
}

/// An expired whisper is never relevant; neither is one addressed to another
/// agent; an unexpired one addressed to the agent, or to no one in particular,
/// is.
pub proof fn lemma_relevance_rules(w: Whisper, agent: Seq<char>, now: TimestampView)
    ensures
        w.expired_at(now) ==> !relevant_at(w, agent, now),
        (w.to matches Some(t) && t@ != agent) ==> !relevant_at(w, agent, now),
        (w.to is None && !w.expired_at(now)) ==> relevant_at(w, agent, now),
        ((w.to matches Some(t) && t@ == agent) && !w.expired_at(now)) ==> relevant_at(w, agent, now),
{
}

/// Decides whether whispers are relevant to an agent.
pub struct WhisperFilter {
    default_ttl: u64,
}

impl WhisperFilter {
    /// The lifetime, in seconds, that the filter was made with.
    pub closed spec fn default_ttl_secs(self) -> u64 {
        self.default_ttl
    }

    /// A filter with a default lifetime of 30 minutes.
    pub fn new() -> (res: WhisperFilter)
        ensures
            res.default_ttl_secs() == 1800,
    {
        WhisperFilter { default_ttl: 1800 }
    }

    /// Whether `whisper` is relevant to `agent_id` at instant `now`.
    pub fn is_relevant_at(&self, whisper: &Whisper, agent_id: &str, now: &Timestamp) -> (res: bool)
        ensures
            res == relevant_at(*whisper, agent_id@, now@),
    {
        if whisper.is_expired_at(now) {
            return false;
        }
        match &whisper.to {
            Some(to) => string_is(to, agent_id),
            None => true,
        }
    }

    /// Whether `whisper` is relevant to `agent_id`, judged at the current UTC
    /// time: it is, exactly when it is at some valid instant (the one read
    /// from the clock). So a whisper addressed to another agent never is.
    /// `None` when the clock cannot be read.
    pub fn is_relevant(&self, whisper: &Whisper, agent_id: &str) -> (res: Option<bool>)
        ensures
            res matches Some(b) ==> exists|now: TimestampView|
                now.valid() && now.secs >= 0 && !now.is_leap() && b == relevant_at(*whisper, agent_id@, now),
            res matches Some(b) ==> (b ==> addressed_to(*whisper, agent_id@)),
    {
        match Timestamp::now() {
            Some(now) => Some(self.is_relevant_at(whisper, agent_id, &now)),
            None => None,
        }
    }

    /// Whether `whisper` is of the kind named `kind_name`.
    pub fn matches_type(&self, whisper: &Whisper, kind_name: &str) -> (res: bool)
        ensures
            res == (variant_name_of(whisper.whisper_type) == kind_name@),
    {
        str_is(whisper.whisper_type.variant_name(), kind_name)
    }

    /// Whether `whisper` carries the tag `tag`.
    pub fn has_tag(&self, whisper: &Whisper, tag: &str) -> (res: bool)
        ensures
            res == whisper.tags_of().contains(tag@),
    {
        let tags = whisper.tags();
        let ghost views = tags@.map_values(|s: String| s@);
        let mut i: usize = 0;
        while i < tags.len()
            invariant
                i <= tags.len(),
                views == tags@.map_values(|s: String| s@),
                views == whisper.tags_of(),
                forall|j: int| 0 <= j < i ==> views[j] != tag@,
            decreases tags.len() - i,
        {
            if string_is(&tags[i], tag) {
                assert(views[i as int] == tag@);
                return true;
            }
            i = i + 1;
        }
        assert(!views.contains(tag@));
        false
    }
}

impl Default for WhisperFilter {
    fn default() -> (res: WhisperFilter)
        ensures
            res.default_ttl_secs() == 1800,
    {
        WhisperFilter::new()
    }
}

/// Whether the string `s` reads `t`.
pub(crate) fn string_is(s: &String, t: &str) -> (res: bool)
    ensures
        res == (s@ == t@),
{
    *s == String::from_str(t)
}

/// Whether the two strings read the same.
pub(crate) fn str_is(s: &str, t: &str) -> (res: bool)
    ensures
        res == (s@ == t@),
{
    String::from_str(s) == String::from_str(t)
}

} // verus!
