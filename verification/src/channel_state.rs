//! The channel state coordinator: the single shared publishing-session state,
//! its atomic replacement, and the proof that replacements never mix fields
//! from different sessions.
//!
//! Opening a session and writing to it are the publishing backend's work and
//! happen outside this crate; the coordinator takes each backend outcome as a
//! value and decides what the state and the response become, so the decision
//! is verified for every outcome the backend can produce.

use vstd::prelude::*;
use vstd::string::*;
use crate::types::GatewayError;

verus! {

/// The human-readable session identifier: `<address>:<messageId>`.
pub open spec fn spec_channel_id(address: Seq<char>, msg_id: Seq<char>) -> Seq<char> {
    address + ":"@ + msg_id
}

/// The mutable pair of session handle and identifier. The handle is the
/// backend's; the gateway knows it by the address and message id the backend
/// returned when the session was opened.
#[derive(Clone, Debug, PartialEq)]
pub struct ChannelState {
    pub address: String,
    pub msg_id: String,
    pub channel_id: String,
}

/// The mathematical value of a `ChannelState`.
pub struct ChannelStateModel {
    pub address: Seq<char>,
    pub msg_id: Seq<char>,
    pub channel_id: Seq<char>,
}

impl View for ChannelState {
    type V = ChannelStateModel;

    open spec fn view(&self) -> ChannelStateModel {
        ChannelStateModel {
            address: self.address@,
            msg_id: self.msg_id@,
            channel_id: self.channel_id@,
        }
    }
}

/// The state a successful open with these parameters produces: all three
/// fields derived from the one outcome.
pub open spec fn opened_state(address: Seq<char>, msg_id: Seq<char>) -> ChannelStateModel {
    ChannelStateModel {
        address: address,
        msg_id: msg_id,
        channel_id: spec_channel_id(address, msg_id),
    }
}

/// What the backend's `open` call came back with: a fresh session's address
/// and message id, or a failure.
#[derive(Clone, Debug, PartialEq)]
pub enum OpenOutcome {
    Opened(String, String),
    Failed,
}

/// The outcome as a mathematical value.
pub open spec fn outcome_model(o: OpenOutcome) -> Option<(Seq<char>, Seq<char>)> {
    match o {
        OpenOutcome::Opened(address, msg_id) => Some((address@, msg_id@)),
        OpenOutcome::Failed => None,
    }
}

/// One switch step: a failed open leaves the state untouched; a successful
/// one replaces it wholesale.
pub open spec fn apply_switch(
    st: ChannelStateModel,
    o: Option<(Seq<char>, Seq<char>)>,
) -> ChannelStateModel {
    match o {
        None => st,
        Some(p) => opened_state(p.0, p.1),
    }
}

/// The state after a sequence of switch outcomes, applied first to last.
pub open spec fn apply_switches(
    st: ChannelStateModel,
    outcomes: Seq<Option<(Seq<char>, Seq<char>)>>,
) -> ChannelStateModel
    decreases outcomes.len(),
{
    if outcomes.len() == 0 {
        st
    } else {
        apply_switch(apply_switches(st, outcomes.drop_last()), outcomes.last())
    }
}

/// The index of the last successful outcome, or -1 if none succeeded.
pub open spec fn last_success(outcomes: Seq<Option<(Seq<char>, Seq<char>)>>) -> int
    decreases outcomes.len(),
{
    if outcomes.len() == 0 {
        -1
    } else if outcomes.last() is Some {
        outcomes.len() - 1
    } else {
        last_success(outcomes.drop_last())
    }
}

impl ChannelState {
    /// The identifier names the very session the handle belongs to.
    pub open spec fn wf(&self) -> bool {
        self.channel_id@ == spec_channel_id(self.address@, self.msg_id@)
    }

    /// Assembles the state for a session the backend just opened.
    pub fn new(address: String, msg_id: String) -> (st: ChannelState)
        ensures
            st.wf(),
            st@ == opened_state(address@, msg_id@),
    {
        let mut channel_id = address.clone();
        channel_id.append(":");
        channel_id.append(msg_id.as_str());
        proof {
            assert(channel_id@ =~= spec_channel_id(address@, msg_id@));
        }
        ChannelState { address, msg_id, channel_id }
    }

    /// The current session identifier; always succeeds.
    pub fn current_id(&self) -> (id: String)
        ensures
            id == self.channel_id,
    {
        self.channel_id.clone()
    }

    /// Replaces the session from the outcome of the backend's `open` call:
    /// on success, handle and identifier are replaced together, both derived
    /// from that one outcome; on failure, the state is left completely
    /// untouched and the previous session stays serviceable.
    pub fn switch(&mut self, outcome: OpenOutcome) -> (r: Result<String, GatewayError>)
        ensures
            final(self)@ == apply_switch(old(self)@, outcome_model(outcome)),
            outcome is Failed ==> *final(self) == *old(self) && r == Err::<String, GatewayError>(
                GatewayError::SessionUnavailable,
            ),
            outcome matches OpenOutcome::Opened(a, m) ==> (r matches Ok(id) && id
                == final(self).channel_id && id@ == spec_channel_id(a@, m@)),
            old(self).wf() ==> final(self).wf(),
    {
        match outcome {
            OpenOutcome::Failed => Err(GatewayError::SessionUnavailable),
            OpenOutcome::Opened(address, msg_id) => {
                let fresh = ChannelState::new(address, msg_id);
                let id = fresh.current_id();
                *self = fresh;
                Ok(id)
            },
        }
    }

    /// Maps the backend's write outcome for a forwarded payload: a successful
    /// write echoes the current session identifier, a failed one is surfaced
    /// as a session-level failure. The identifier is never mutated.
    pub fn forward_result(&self, write_ok: bool) -> (r: Result<String, GatewayError>)
        ensures
            write_ok ==> (r matches Ok(id) && id == self.channel_id),
            !write_ok ==> r == Err::<String, GatewayError>(GatewayError::SessionUnavailable),
    {
        if write_ok {
            Ok(self.current_id())
        } else {
            Err(GatewayError::SessionUnavailable)
        }
    }
}

/// Switches never tear the state: after any serial order of switch outcomes
/// (the coordinator's mutual exclusion admits no other), the state either is
/// the starting state — when no switch succeeded — or is exactly the state
/// produced by the last successful outcome, handle and identifier from that
/// single outcome and from no other.
pub proof fn lemma_switches_never_torn(
    st: ChannelStateModel,
    outcomes: Seq<Option<(Seq<char>, Seq<char>)>>,
)
    ensures
        (forall|i: int| 0 <= i < outcomes.len() ==> outcomes[i] is None) ==> apply_switches(
            st,
            outcomes,
        ) == st,
        (exists|i: int| 0 <= i < outcomes.len() && outcomes[i] is Some) ==> {
            let k = last_success(outcomes);
            &&& 0 <= k < outcomes.len()
            &&& outcomes[k] matches Some(p) && apply_switches(st, outcomes) == opened_state(
                p.0,
                p.1,
            )
            &&& forall|j: int| k < j < outcomes.len() ==> outcomes[j] is None
        },
    decreases outcomes.len(),
{
    if outcomes.len() > 0 {
        let prefix = outcomes.drop_last();
        lemma_switches_never_torn(st, prefix);
        assert(forall|i: int| 0 <= i < prefix.len() ==> prefix[i] == outcomes[i]);
        if outcomes.last() is None {
            if exists|i: int| 0 <= i < outcomes.len() && outcomes[i] is Some {
                let w = choose|i: int| 0 <= i < outcomes.len() && outcomes[i] is Some;
                assert(0 <= w < prefix.len() && prefix[w] is Some);
            }
        }
    }
}

} // verus!
