//! A participant of the BPCon protocol: the state machine that follows the
//! events of a ballot and processes the messages of the other parties.
//!
//! The party does not talk to the world itself. Whoever runs it hands it the
//! events of its timers and the messages that arrive, decoded, and sends the
//! messages that it returns.
use crate::config::{
    all_parties_known, lemma_quorums_intersect, lemma_set_weight_bounded, lemma_set_weight_empty, lemma_set_weight_insert,
    lemma_set_weight_subset, lemma_total_weight_fits, parties_weight, total_weight, BPConConfig,
};
use crate::error::{
    BallotNumberMismatch, DeserializationError, FollowEventError, LaunchBallotError,
    LeaderMismatch, PartyStatusMismatch, UpdateStateError, ValueMismatch,
};
use crate::leader::LeaderElector;
use crate::message::{
    Message1aContent, Message1bContent, Message2aContent, Message2avContent, Message2bContent,
    MessageContent, MessageRoundState, MessageRouting, ProtocolMessage,
};
use crate::value::{Value, ValueSelector};
use std::collections::{HashMap, HashSet};
use vstd::prelude::*;
use vstd::std_specs::cmp::PartialEqSpec;

verus! {

broadcast use vstd::std_specs::hash::group_hash_axioms;

/// The status of a party: the phase, or the outcome, of its ballot.
#[derive(PartialEq, Eq, Structural, Debug, Copy, Clone)]
pub enum PartyStatus {
    Idle,
    Launched,
    Passed1a,
    Passed1b,
    Passed2a,
    Passed2av,
    Passed2b,
    Finished,
    Failed,
}

/// The events that drive a party through the stages of a ballot.
#[derive(PartialEq, Eq, Structural, Debug, Copy, Clone)]
pub enum PartyEvent {
    Launch1a,
    Launch1b,
    Launch2a,
    Launch2av,
    Launch2b,
    Finalize,
}

/// The text form of a `PartyStatus`: the type's name, a colon and the variant.
pub open spec fn status_text(x: PartyStatus) -> Seq<char> {
    match x {
        PartyStatus::Idle => "PartyStatus: Idle"@,
        PartyStatus::Launched => "PartyStatus: Launched"@,
        PartyStatus::Passed1a => "PartyStatus: Passed1a"@,
        PartyStatus::Passed1b => "PartyStatus: Passed1b"@,
        PartyStatus::Passed2a => "PartyStatus: Passed2a"@,
        PartyStatus::Passed2av => "PartyStatus: Passed2av"@,
        PartyStatus::Passed2b => "PartyStatus: Passed2b"@,
        PartyStatus::Finished => "PartyStatus: Finished"@,
        PartyStatus::Failed => "PartyStatus: Failed"@,
    }
}

impl PartyStatus {
    /// The text form, as `status_text` states.
    pub fn describe(&self) -> (s: String)
        ensures
            s@ == status_text(*self),
    {
        match self {
            PartyStatus::Idle => "PartyStatus: Idle".to_owned(),
            PartyStatus::Launched => "PartyStatus: Launched".to_owned(),
            PartyStatus::Passed1a => "PartyStatus: Passed1a".to_owned(),
            PartyStatus::Passed1b => "PartyStatus: Passed1b".to_owned(),
            PartyStatus::Passed2a => "PartyStatus: Passed2a".to_owned(),
            PartyStatus::Passed2av => "PartyStatus: Passed2av".to_owned(),
            PartyStatus::Passed2b => "PartyStatus: Passed2b".to_owned(),
            PartyStatus::Finished => "PartyStatus: Finished".to_owned(),
            PartyStatus::Failed => "PartyStatus: Failed".to_owned(),
        }
    }
}

/// The text form of a `PartyEvent`: the type's name, a colon and the variant.
pub open spec fn event_text(x: PartyEvent) -> Seq<char> {
    match x {
        PartyEvent::Launch1a => "PartyEvent: Launch1a"@,
        PartyEvent::Launch1b => "PartyEvent: Launch1b"@,
        PartyEvent::Launch2a => "PartyEvent: Launch2a"@,
        PartyEvent::Launch2av => "PartyEvent: Launch2av"@,
        PartyEvent::Launch2b => "PartyEvent: Launch2b"@,
        PartyEvent::Finalize => "PartyEvent: Finalize"@,
    }
}

impl PartyEvent {
    /// The text form, as `event_text` states.
    pub fn describe(&self) -> (s: String)
        ensures
            s@ == event_text(*self),
    {
        match self {
            PartyEvent::Launch1a => "PartyEvent: Launch1a".to_owned(),
            PartyEvent::Launch1b => "PartyEvent: Launch1b".to_owned(),
            PartyEvent::Launch2a => "PartyEvent: Launch2a".to_owned(),
            PartyEvent::Launch2av => "PartyEvent: Launch2av".to_owned(),
            PartyEvent::Launch2b => "PartyEvent: Launch2b".to_owned(),
            PartyEvent::Finalize => "PartyEvent: Finalize".to_owned(),
        }
    }
}

/// A received message's contents after decoding: the contents could not be
/// decoded at all, or they were, and each value in them was decoded or not.
pub type Received<V> = Result<MessageContent<Result<V, DeserializationError>>, DeserializationError>;

/// The status a party must have to accept a message of kind `msg_type`.
pub open spec fn status_for_message(msg_type: ProtocolMessage) -> PartyStatus {
    match msg_type {
        ProtocolMessage::Msg1a => PartyStatus::Launched,
        ProtocolMessage::Msg1b => PartyStatus::Passed1a,
        ProtocolMessage::Msg2a => PartyStatus::Passed1b,
        ProtocolMessage::Msg2av => PartyStatus::Passed2a,
        ProtocolMessage::Msg2b => PartyStatus::Passed2av,
    }
}

/// The status a party must have to follow `event`.
pub open spec fn status_for_event(event: PartyEvent) -> PartyStatus {
    match event {
        PartyEvent::Launch1a => PartyStatus::Launched,
        PartyEvent::Launch1b => PartyStatus::Passed1a,
        PartyEvent::Launch2a => PartyStatus::Passed1b,
        PartyEvent::Launch2av => PartyStatus::Passed2a,
        PartyEvent::Launch2b => PartyStatus::Passed2av,
        PartyEvent::Finalize => PartyStatus::Passed2b,
    }
}

/// The status that a refused `event` names as the one it needs: the status
/// it needs, except for `Finalize`, whose refusal names `Passed2av`.
pub open spec fn reported_status_for_event(event: PartyEvent) -> PartyStatus {
    match event {
        PartyEvent::Finalize => PartyStatus::Passed2av,
        _ => status_for_event(event),
    }
}

/// The status that comes after `status` in a ballot that goes well.
pub open spec fn next_status(status: PartyStatus) -> PartyStatus {
    match status {
        PartyStatus::Launched => PartyStatus::Passed1a,
        PartyStatus::Passed1a => PartyStatus::Passed1b,
        PartyStatus::Passed1b => PartyStatus::Passed2a,
        PartyStatus::Passed2a => PartyStatus::Passed2av,
        PartyStatus::Passed2av => PartyStatus::Passed2b,
        PartyStatus::Passed2b => PartyStatus::Finished,
        _ => status,
    }
}

/// The value that a 1b message reports, once decoded.
pub open spec fn reported_vote<V>(vote: Option<Result<V, DeserializationError>>) -> Option<V> {
    match vote {
        Some(Ok(v)) => Some(v),
        _ => None,
    }
}

/// `copy` is a clone of `original`, both absent or both present.
pub open spec fn cloned_option<V: Clone>(original: Option<V>, copy: Option<V>) -> bool {
    match original {
        Some(v) => copy matches Some(c) && cloned(v, c),
        None => copy is None,
    }
}

fn needed_status(msg_type: ProtocolMessage) -> (status: PartyStatus)
    ensures
        status == status_for_message(msg_type),
{
    match msg_type {
        ProtocolMessage::Msg1a => PartyStatus::Launched,
        ProtocolMessage::Msg1b => PartyStatus::Passed1a,
        ProtocolMessage::Msg2a => PartyStatus::Passed1b,
        ProtocolMessage::Msg2av => PartyStatus::Passed2a,
        ProtocolMessage::Msg2b => PartyStatus::Passed2av,
    }
}

/// The pairs of message kind and sender that a party has already processed
/// in the current ballot: each party may send one message of each kind per
/// ballot.
#[derive(Debug)]
pub struct RateLimiter {
    msg1a: HashSet<u64>,
    msg1b: HashSet<u64>,
    msg2a: HashSet<u64>,
    msg2av: HashSet<u64>,
    msg2b: HashSet<u64>,
}

impl RateLimiter {
    closed spec fn senders_of(&self, msg_type: ProtocolMessage) -> Set<u64> {
        match msg_type {
            ProtocolMessage::Msg1a => self.msg1a@,
            ProtocolMessage::Msg1b => self.msg1b@,
            ProtocolMessage::Msg2a => self.msg2a@,
            ProtocolMessage::Msg2av => self.msg2av@,
            ProtocolMessage::Msg2b => self.msg2b@,
        }
    }
}

impl View for RateLimiter {
    type V = Set<(ProtocolMessage, u64)>;

    /// The processed pairs of message kind and sender.
    closed spec fn view(&self) -> Set<(ProtocolMessage, u64)> {
        Set::new(|p: (ProtocolMessage, u64)| self.senders_of(p.0).contains(p.1))
    }
}

impl RateLimiter {
    /// A limiter that has seen nothing.
    pub fn new() -> (limiter: Self)
        ensures
            limiter@ == Set::<(ProtocolMessage, u64)>::empty(),
    {
        let limiter = RateLimiter {
            msg1a: HashSet::new(),
            msg1b: HashSet::new(),
            msg2a: HashSet::new(),
            msg2av: HashSet::new(),
            msg2b: HashSet::new(),
        };
        assert(limiter@ =~= Set::<(ProtocolMessage, u64)>::empty());
        limiter
    }

    /// Whether a message of kind `msg_type` from `sender` was processed.
    pub fn contains(&self, msg_type: ProtocolMessage, sender: u64) -> (seen: bool)
        ensures
            seen == self@.contains((msg_type, sender)),
    {
        match msg_type {
            ProtocolMessage::Msg1a => self.msg1a.contains(&sender),
            ProtocolMessage::Msg1b => self.msg1b.contains(&sender),
            ProtocolMessage::Msg2a => self.msg2a.contains(&sender),
            ProtocolMessage::Msg2av => self.msg2av.contains(&sender),
            ProtocolMessage::Msg2b => self.msg2b.contains(&sender),
        }
    }

    /// Records that a message of kind `msg_type` from `sender` was processed.
    pub fn insert(&mut self, msg_type: ProtocolMessage, sender: u64)
        ensures
            final(self)@ == old(self)@.insert((msg_type, sender)),
    {
        match msg_type {
            ProtocolMessage::Msg1a => {
                self.msg1a.insert(sender);
            },
            ProtocolMessage::Msg1b => {
                self.msg1b.insert(sender);
            },
            ProtocolMessage::Msg2a => {
                self.msg2a.insert(sender);
            },
            ProtocolMessage::Msg2av => {
                self.msg2av.insert(sender);
            },
            ProtocolMessage::Msg2b => {
                self.msg2b.insert(sender);
            },
        }
        assert(final(self)@ =~= old(self)@.insert((msg_type, sender)));
    }
}

/// A participant in the BPCon protocol.
///
/// The fields are public so that a party can be put in any state; the
/// operations expect, and keep, the well-formedness that `wf` states.
#[verifier::reject_recursive_types(V)]
pub struct Party<V: Value, VS: ValueSelector<V>> {
    /// The identifier of this party.
    pub id: u64,
    /// The configuration: weights, threshold and timeouts.
    pub cfg: BPConConfig,
    /// Selects and verifies the value of the 2a stage.
    pub value_selector: VS,
    /// The current status of the ballot.
    pub status: PartyStatus,
    /// The current ballot number.
    pub ballot: u64,
    /// The leader of the current ballot.
    pub leader: u64,
    /// The last ballot in which this party sent a 2b message.
    pub last_ballot_voted: Option<u64>,
    /// The last value for which this party sent a 2b message.
    pub last_value_voted: Option<V>,
    /// The message kinds already processed from each sender in this ballot.
    pub rate_limiter: RateLimiter,
    /// The 1b round: each party that sent a 1b message, with the value it
    /// last voted for.
    pub parties_voted_before: HashMap<u64, Option<V>>,
    /// The cumulative weight of the 1b messages received.
    pub messages_1b_weight: u128,
    /// The value of the 2a round.
    pub value_2a: Option<V>,
    /// The parties that confirmed the 2a value.
    pub messages_2av_state: MessageRoundState,
    /// The parties that sent a 2b message.
    pub messages_2b_state: MessageRoundState,
}

impl<V: Value, VS: ValueSelector<V>> Party<V, VS> {
    /// The weights of the parties.
    pub open spec fn weights(&self) -> Seq<u64> {
        self.cfg.party_weights@
    }

    /// The well-formedness that the operations keep: every round counts
    /// known parties, each once, and its weight is the total weight of the
    /// parties it counted; every 2b sender confirmed the 2a value; a party
    /// that has reached the 2a stage, or gone past it without failing,
    /// holds a value.
    pub open spec fn wf(&self) -> bool {
        &&& self.rounds_wf()
        &&& (self.status == PartyStatus::Passed2a || self.passed_2av()) ==> self.value_2a is Some
    }

    /// The part of `wf` that concerns the rounds.
    pub open spec fn rounds_wf(&self) -> bool {
        let w = self.weights();
        &&& w.len() <= usize::MAX
        &&& all_parties_known(w, self.parties_voted_before@.dom())
        &&& self.messages_1b_weight == parties_weight(w, self.parties_voted_before@.dom())
        &&& all_parties_known(w, self.messages_2av_state.senders())
        &&& self.messages_2av_state.weight() == parties_weight(w, self.messages_2av_state.senders())
        &&& self.messages_2b_state.senders().subset_of(self.messages_2av_state.senders())
        &&& self.messages_2b_state.weight() == parties_weight(w, self.messages_2b_state.senders())
    }

    /// Whether the weight gathered in a round, with this party's own, is a
    /// quorum.
    pub open spec fn quorum(&self, weight: int) -> bool {
        weight >= self.cfg.threshold - self.weights()[self.id as int]
    }

    /// `post` has this party's identity, configuration, ballot, leader and
    /// votes.
    pub open spec fn same_setup(&self, post: &Self) -> bool {
        &&& post.id == self.id
        &&& post.cfg == self.cfg
        &&& post.value_selector == self.value_selector
        &&& post.ballot == self.ballot
        &&& post.leader == self.leader
        &&& post.last_ballot_voted == self.last_ballot_voted
        &&& post.last_value_voted == self.last_value_voted
    }

    /// `post` has this party's 1b, 2a, 2av and 2b rounds.
    pub open spec fn same_rounds(&self, post: &Self) -> bool {
        &&& post.parties_voted_before@ == self.parties_voted_before@
        &&& post.messages_1b_weight == self.messages_1b_weight
        &&& post.value_2a == self.value_2a
        &&& post.messages_2av_state@ == self.messages_2av_state@
        &&& post.messages_2b_state@ == self.messages_2b_state@
    }

    /// `post` is this party, its status aside.
    pub open spec fn same_but_status(&self, post: &Self) -> bool {
        &&& self.same_setup(post)
        &&& self.same_rounds(post)
        &&& post.rate_limiter == self.rate_limiter
    }

    /// The rounds of a fresh ballot: nothing received, no value.
    pub open spec fn rounds_cleared(&self) -> bool {
        &&& self.rate_limiter@ == Set::<(ProtocolMessage, u64)>::empty()
        &&& self.parties_voted_before@ == Map::<u64, Option<V>>::empty()
        &&& self.messages_1b_weight == 0
        &&& self.value_2a is None
        &&& self.messages_2av_state.senders() == Set::<u64>::empty()
        &&& self.messages_2av_state.weight() == 0
        &&& self.messages_2b_state.senders() == Set::<u64>::empty()
        &&& self.messages_2b_state.weight() == 0
    }

    /// Creates a party with the given identifier, configuration and value
    /// selector. It has no ballot yet: its status is `Idle`, its ballot
    /// number and leader are zero.
    pub fn new(id: u64, cfg: BPConConfig, value_selector: VS) -> (party: Self)
        ensures
            party.wf(),
            party.quorums_recorded(),
            party.id == id,
            party.cfg == cfg,
            party.value_selector == value_selector,
            party.status == PartyStatus::Idle,
            party.ballot == 0,
            party.leader == 0,
            party.last_ballot_voted is None,
            party.last_value_voted is None,
            party.rounds_cleared(),
    {
        let n = cfg.party_weights.len();
        let party = Party {
            id,
            cfg,
            value_selector,
            status: PartyStatus::Idle,
            ballot: 0,
            leader: 0,
            last_ballot_voted: None,
            last_value_voted: None,
            rate_limiter: RateLimiter::new(),
            parties_voted_before: HashMap::new(),
            messages_1b_weight: 0,
            value_2a: None,
            messages_2av_state: MessageRoundState::new(),
            messages_2b_state: MessageRoundState::new(),
        };
        proof {
            lemma_set_weight_empty(party.weights(), n as int);
            assert(party.parties_voted_before@.dom() =~= Set::<u64>::empty());
        }
        party
    }

    /// Returns the current ballot number.
    pub fn ballot(&self) -> (ballot: u64)
        ensures
            ballot == self.ballot,
    {
        self.ballot
    }

    /// Whether the ballot is running: launched, and neither finished nor
    /// failed.
    pub fn is_launched(&self) -> (launched: bool)
        ensures
            launched == !(self.status == PartyStatus::Finished || self.status
                == PartyStatus::Failed || self.status == PartyStatus::Idle),
    {
        !(self.is_stopped() || self.status == PartyStatus::Idle)
    }

    /// Whether the ballot has finished or failed.
    pub fn is_stopped(&self) -> (stopped: bool)
        ensures
            stopped == (self.status == PartyStatus::Finished || self.status == PartyStatus::Failed),
    {
        self.status == PartyStatus::Finished || self.status == PartyStatus::Failed
    }

    /// The value agreed on, if the ballot finished; only `Finished` means
    /// that a BFT agreement was reached.
    pub fn get_value_selected(&self) -> (value: Option<V>)
        ensures
            self.status == PartyStatus::Finished ==> cloned_option(self.value_2a, value),
            self.status != PartyStatus::Finished ==> value is None,
    {
        if self.status == PartyStatus::Finished {
            return self.value_2a.clone();
        }
        None
    }

    /// `value` is a value that the value selector may pick from this party's
    /// 1b round: what `select` returns when handed it.
    pub open spec fn selects(&self, value: V) -> bool {
        call_ensures(VS::select, (&self.value_selector, &self.parties_voted_before), value)
    }

    /// `verdict` is an answer that the value selector's `verify` may give on
    /// `value` and this party's 1b round.
    pub open spec fn verifies(&self, value: V, verdict: bool) -> bool {
        call_ensures(VS::verify, (&self.value_selector, &value, &self.parties_voted_before), verdict)
    }

    /// `differs` is an answer that `!=` may give on `received` and the
    /// party's 2a value.
    pub open spec fn compares(&self, received: V, differs: bool) -> bool {
        call_ensures(V::ne, (&received, &self.value_2a->Some_0), differs)
    }

    /// The value that the value selector picks from the 1b round: what
    /// `select` returns when handed this party's 1b round.
    fn get_value(&self) -> (value: V)
        ensures
            call_ensures(VS::select, (&self.value_selector, &self.parties_voted_before), value),
    {
        self.value_selector.select(&self.parties_voted_before)
    }

    /// Marks the ballot as failed.
    pub fn fail(&mut self)
        ensures
            final(self).status == PartyStatus::Failed,
            old(self).same_but_status(&*final(self)),
    {
        self.status = PartyStatus::Failed;
    }

    /// Clears the state of the rounds for a new ballot.
    fn reset_state(&mut self)
        requires
            old(self).weights().len() <= usize::MAX,
        ensures
            final(self).rounds_wf(),
            final(self).rounds_cleared(),
            old(self).same_setup(&*final(self)),
            final(self).status == old(self).status,
    {
        self.rate_limiter = RateLimiter::new();
        self.parties_voted_before = HashMap::new();
        self.messages_1b_weight = 0;
        self.value_2a = None;
        self.messages_2av_state.reset();
        self.messages_2b_state.reset();
        proof {
            lemma_set_weight_empty(self.weights(), self.weights().len() as int);
            assert(self.parties_voted_before@.dom() =~= Set::<u64>::empty());
        }
    }

    /// Adopts the outcome of a leader election: the elected leader, or the
    /// error that the election reported.
    pub fn adopt_leader(&mut self, elected: Result<u64, String>) -> (r: Result<(), LaunchBallotError>)
        ensures
            match elected {
                Ok(leader) => r is Ok && *final(self) == (Party { leader, ..*old(self) }),
                Err(e) => r == Err::<(), LaunchBallotError>(LaunchBallotError::LeaderElectionError(e))
                    && *final(self) == *old(self),
            },
    {
        match elected {
            Ok(leader) => {
                self.leader = leader;
                Ok(())
            },
            Err(e) => Err(LaunchBallotError::LeaderElectionError(e)),
        }
    }

    /// Prepares the next ballot: clears the rounds, moves to the next ballot
    /// number, marks the ballot launched and elects its leader with
    /// `elector`.
    pub fn prepare_next_ballot<E: LeaderElector<V, VS> + ?Sized>(&mut self, elector: &E) -> (r:
        Result<(), LaunchBallotError>)
        requires
            old(self).wf(),
            old(self).ballot < u64::MAX,
        ensures
            final(self).wf(),
            final(self).rounds_cleared(),
            final(self).quorums_recorded(),
            final(self).ballot == old(self).ballot + 1,
            final(self).status == PartyStatus::Launched,
            final(self).id == old(self).id,
            final(self).cfg == old(self).cfg,
            final(self).value_selector == old(self).value_selector,
            final(self).last_ballot_voted == old(self).last_ballot_voted,
            final(self).last_value_voted == old(self).last_value_voted,
            r is Err ==> (r matches Err(LaunchBallotError::LeaderElectionError(_))
                && final(self).leader == old(self).leader),
            exists|prepared: Self, elected: Result<u64, String>|
                {
                    &&& old(self).prepared_for_next_ballot(&prepared)
                    &&& #[trigger] call_ensures(E::elect_leader, (elector, &prepared), elected)
                    &&& prepared.adopted(&*final(self), elected, r)
                },
    {
        self.reset_state();
        self.ballot = self.ballot + 1;
        self.status = PartyStatus::Launched;
        let elected = elector.elect_leader(self);
        let ghost prepared = *self;
        let r = self.adopt_leader(elected);
        assert(old(self).prepared_for_next_ballot(&prepared) && prepared.adopted(
            &*self,
            elected,
            r,
        ));
        r
    }

    /// `prepared` is this party made ready for its next ballot: its rounds
    /// cleared, its ballot number one higher and its status `Launched`, the
    /// rest as it was.
    pub open spec fn prepared_for_next_ballot(&self, prepared: &Self) -> bool {
        &&& prepared.rounds_cleared()
        &&& prepared.ballot == self.ballot + 1
        &&& prepared.status == PartyStatus::Launched
        &&& prepared.id == self.id
        &&& prepared.cfg == self.cfg
        &&& prepared.value_selector == self.value_selector
        &&& prepared.leader == self.leader
        &&& prepared.last_ballot_voted == self.last_ballot_voted
        &&& prepared.last_value_voted == self.last_value_voted
    }

    /// `post` and `r` are what adopting the outcome `elected` of a leader
    /// election makes of this party, as `adopt_leader` states.
    pub open spec fn adopted(
        &self,
        post: &Self,
        elected: Result<u64, String>,
        r: Result<(), LaunchBallotError>,
    ) -> bool {
        match elected {
            Ok(leader) => r is Ok && *post == (Party { leader, ..*self }),
            Err(e) => r == Err::<(), LaunchBallotError>(LaunchBallotError::LeaderElectionError(e))
                && *post == *self,
        }
    }

    /// What following `event` does: `post` is the party afterwards and `r`
    /// what was returned.
    pub open spec fn followed(
        &self,
        post: &Self,
        event: PartyEvent,
        r: Result<Option<MessageContent<V>>, FollowEventError>,
    ) -> bool {
        if self.status != status_for_event(event) {
            &&& r == Err::<Option<MessageContent<V>>, FollowEventError>(
                FollowEventError::PartyStatusMismatch(
                    PartyStatusMismatch {
                        party_status: self.status,
                        needed_status: reported_status_for_event(event),
                    },
                ),
            )
            &&& *post == *self
        } else {
            match event {
                PartyEvent::Launch1a => if self.leader == self.id {
                    &&& r == Ok::<Option<MessageContent<V>>, FollowEventError>(
                        Some(MessageContent::Msg1a(Message1aContent { ballot: self.ballot })),
                    )
                    &&& *post == (Party { status: PartyStatus::Passed1a, ..*self })
                } else {
                    &&& r == Ok::<Option<MessageContent<V>>, FollowEventError>(None)
                    &&& *post == *self
                },
                PartyEvent::Launch1b => {
                    &&& r matches Ok(Some(MessageContent::Msg1b(m)))
                    &&& m.ballot == self.ballot
                    &&& m.last_ballot_voted == self.last_ballot_voted
                    &&& cloned_option(self.last_value_voted, m.last_value_voted)
                    &&& *post == *self
                },
                PartyEvent::Launch2a => if self.leader == self.id {
                    &&& r matches Ok(Some(MessageContent::Msg2a(m)))
                    &&& m.ballot == self.ballot
                    &&& self.selects(m.value)
                    &&& post.value_2a matches Some(adopted) && self.selects(adopted)
                    &&& *post == (Party {
                        status: PartyStatus::Passed2a,
                        value_2a: post.value_2a,
                        ..*self
                    })
                } else {
                    &&& r == Ok::<Option<MessageContent<V>>, FollowEventError>(None)
                    &&& *post == *self
                },
                PartyEvent::Launch2av => {
                    &&& r matches Ok(Some(MessageContent::Msg2av(m)))
                    &&& m.ballot == self.ballot
                    &&& self.value_2a matches Some(v) && cloned(v, m.received_value)
                    &&& *post == *self
                },
                PartyEvent::Launch2b => {
                    &&& r == Ok::<Option<MessageContent<V>>, FollowEventError>(
                        Some(MessageContent::Msg2b(Message2bContent { ballot: self.ballot })),
                    )
                    &&& cloned_option(self.value_2a, post.last_value_voted)
                    &&& *post == (Party {
                        last_ballot_voted: Some(self.ballot),
                        last_value_voted: post.last_value_voted,
                        ..*self
                    })
                },
                PartyEvent::Finalize => {
                    &&& r == Ok::<Option<MessageContent<V>>, FollowEventError>(None)
                    &&& *post == (Party { status: PartyStatus::Finished, ..*self })
                },
            }
        }
    }

    /// Follows a ballot event: checks that the party is in the status the
    /// event needs, moves it on where the event does that, and returns the
    /// message to send to the other parties, if any.
    ///
    /// The leader moves to `Passed1a` on `Launch1a` and to `Passed2a` on
    /// `Launch2a`, where it proposes the value that its selector picks;
    /// `Finalize` finishes the ballot.
    pub fn follow_event(&mut self, event: PartyEvent) -> (r: Result<
        Option<MessageContent<V>>,
        FollowEventError,
    >)
        requires
            old(self).wf(),
        ensures
            final(self).wf(),
            old(self).followed(&*final(self), event, r),
    {
        match event {
            PartyEvent::Launch1a => {
                if self.status != PartyStatus::Launched {
                    return Err(
                        PartyStatusMismatch {
                            party_status: self.status,
                            needed_status: PartyStatus::Launched,
                        }.into(),
                    );
                }
                if self.leader == self.id {
                    let content = MessageContent::Msg1a(Message1aContent { ballot: self.ballot });
                    self.status = PartyStatus::Passed1a;
                    return Ok(Some(content));
                }
                Ok(None)
            },
            PartyEvent::Launch1b => {
                if self.status != PartyStatus::Passed1a {
                    return Err(
                        PartyStatusMismatch {
                            party_status: self.status,
                            needed_status: PartyStatus::Passed1a,
                        }.into(),
                    );
                }
                let content = MessageContent::Msg1b(
                    Message1bContent {
                        ballot: self.ballot,
                        last_ballot_voted: self.last_ballot_voted,
                        last_value_voted: self.last_value_voted.clone(),
                    },
                );
                Ok(Some(content))
            },
            PartyEvent::Launch2a => {
                if self.status != PartyStatus::Passed1b {
                    return Err(
                        PartyStatusMismatch {
                            party_status: self.status,
                            needed_status: PartyStatus::Passed1b,
                        }.into(),
                    );
                }
                if self.leader == self.id {
                    let value = self.get_value();
                    let content = MessageContent::Msg2a(Message2aContent { ballot: self.ballot, value });
                    self.value_2a = Some(self.get_value());
                    self.status = PartyStatus::Passed2a;
                    return Ok(Some(content));
                }
                Ok(None)
            },
            PartyEvent::Launch2av => {
                if self.status != PartyStatus::Passed2a {
                    return Err(
                        PartyStatusMismatch {
                            party_status: self.status,
                            needed_status: PartyStatus::Passed2a,
                        }.into(),
                    );
                }
                let received_value = match &self.value_2a {
                    Some(v) => v.clone(),
                    None => vstd::pervasive::unreached(),
                };
                let content = MessageContent::Msg2av(
                    Message2avContent { ballot: self.ballot, received_value },
                );
                Ok(Some(content))
            },
            PartyEvent::Launch2b => {
                if self.status != PartyStatus::Passed2av {
                    return Err(
                        PartyStatusMismatch {
                            party_status: self.status,
                            needed_status: PartyStatus::Passed2av,
                        }.into(),
                    );
                }
                self.last_ballot_voted = Some(self.ballot);
                self.last_value_voted = self.value_2a.clone();
                Ok(Some(MessageContent::Msg2b(Message2bContent { ballot: self.ballot })))
            },
            PartyEvent::Finalize => {
                if self.status != PartyStatus::Passed2b {
                    return Err(
                        PartyStatusMismatch {
                            party_status: self.status,
                            needed_status: PartyStatus::Passed2av,
                        }.into(),
                    );
                }
                self.status = PartyStatus::Finished;
                Ok(None)
            },
        }
    }

    /// The refusal, if any, that the leader check gives a message from
    /// `sender`.
    pub open spec fn leader_failure(&self, sender: u64) -> Option<UpdateStateError<V>> {
        if sender != self.leader {
            Some(
                UpdateStateError::LeaderMismatch(
                    LeaderMismatch { party_leader: self.leader, message_sender: sender },
                ),
            )
        } else {
            None
        }
    }

    /// The first check that a received message fails, if any: the party's
    /// status, the decoding of the contents, the ballot number, then for a 1b
    /// message its last ballot voted, for a 1a or 2a message its sender, and
    /// for a 2a or 2av message the decoding of its value.
    pub open spec fn check_failure(&self, routing: MessageRouting, content: Received<V>) -> Option<
        UpdateStateError<V>,
    > {
        let needed = status_for_message(routing.msg_type);
        if self.status != needed {
            Some(
                UpdateStateError::PartyStatusMismatch(
                    PartyStatusMismatch { party_status: self.status, needed_status: needed },
                ),
            )
        } else {
            match content {
                Err(e) => Some(UpdateStateError::DeserializationError(e)),
                Ok(c) => if c.ballot_of() != self.ballot {
                    Some(
                        UpdateStateError::BallotNumberMismatch(
                            BallotNumberMismatch {
                                party_ballot_number: self.ballot,
                                message_ballot_number: c.ballot_of(),
                            },
                        ),
                    )
                } else {
                    match c {
                        MessageContent::Msg1a(_) => self.leader_failure(routing.sender),
                        MessageContent::Msg1b(m) => match m.last_ballot_voted {
                            Some(last) => if last >= self.ballot {
                                Some(
                                    UpdateStateError::BallotNumberMismatch(
                                        BallotNumberMismatch {
                                            party_ballot_number: self.ballot,
                                            message_ballot_number: m.ballot,
                                        },
                                    ),
                                )
                            } else {
                                None
                            },
                            None => None,
                        },
                        MessageContent::Msg2a(m) => match self.leader_failure(routing.sender) {
                            Some(e) => Some(e),
                            None => match m.value {
                                Err(e) => Some(UpdateStateError::DeserializationError(e)),
                                Ok(_) => None,
                            },
                        },
                        MessageContent::Msg2av(m) => match m.received_value {
                            Err(e) => Some(UpdateStateError::DeserializationError(e)),
                            Ok(_) => None,
                        },
                        MessageContent::Msg2b(_) => None,
                    }
                },
            }
        }
    }

    /// Whether processing the message may add its sender's weight to a
    /// round, and so look up the party's own weight: it passes the checks,
    /// its sender has a weight and was not counted yet in the round and, for
    /// a 2b message, its sender confirmed the 2a value. (A 2av message is
    /// then counted if its value is the party's.)
    pub open spec fn weighs_message(&self, routing: MessageRouting, content: Received<V>) -> bool {
        &&& self.check_failure(routing, content) is None
        &&& match content {
            Ok(MessageContent::Msg1b(m)) => {
                &&& !self.parties_voted_before@.contains_key(routing.sender)
                &&& !(m.last_value_voted matches Some(Err(_)))
                &&& (routing.sender as int) < self.weights().len()
            },
            Ok(MessageContent::Msg2av(_)) => {
                &&& !self.messages_2av_state.senders().contains(routing.sender)
                &&& (routing.sender as int) < self.weights().len()
            },
            Ok(MessageContent::Msg2b(_)) => {
                &&& self.messages_2av_state.senders().contains(routing.sender)
                &&& !self.messages_2b_state.senders().contains(routing.sender)
            },
            _ => false,
        }
    }

    /// The message is a 2av message whose value `!=` finds, whatever it
    /// answers, to differ from the party's 2a value: it is refused before any
    /// weight is looked up.
    pub open spec fn mismatches(&self, content: Received<V>) -> bool {
        &&& content matches Ok(MessageContent::Msg2av(m))
        &&& forall|differs: bool|
            #[trigger] self.compares(m.received_value->Ok_0, differs) ==> differs
    }

    /// Whether processing the message looks up the party's own weight: it
    /// may add its sender's weight to a round, and it is not a 2av message
    /// refused for its value.
    pub open spec fn needs_own_weight(&self, routing: MessageRouting, content: Received<V>) -> bool {
        self.weighs_message(routing, content) && !self.mismatches(content)
    }

    /// This party's weight can be looked up and does not exceed the
    /// threshold.
    pub open spec fn own_weight_known(&self) -> bool {
        &&& (self.id as int) < self.weights().len()
        &&& self.weights()[self.id as int] <= self.cfg.threshold
    }

    /// The weights of `sender` and of this party can be looked up, and this
    /// party's weight does not exceed the threshold.
    pub open spec fn weights_known(&self, sender: u64) -> bool {
        &&& (sender as int) < self.weights().len()
        &&& (self.id as int) < self.weights().len()
        &&& self.weights()[self.id as int] <= self.cfg.threshold
    }

    /// `post` has this party's status and rounds.
    pub open spec fn unchanged(&self, post: &Self) -> bool {
        &&& post.status == self.status
        &&& self.same_rounds(post)
    }

    /// `post` counts the 1b message of `sender`, who reports `vote`.
    pub open spec fn counted_1b(&self, post: &Self, sender: u64, vote: Option<V>) -> bool {
        &&& post.parties_voted_before@ == self.parties_voted_before@.insert(sender, vote)
        &&& post.messages_1b_weight == self.messages_1b_weight + self.weights()[sender as int]
        &&& post.status == if self.quorum(post.messages_1b_weight as int) {
            PartyStatus::Passed1b
        } else {
            self.status
        }
        &&& post.value_2a == self.value_2a
        &&& post.messages_2av_state@ == self.messages_2av_state@
        &&& post.messages_2b_state@ == self.messages_2b_state@
    }

    /// `post` counts the 2av message of `sender`.
    pub open spec fn counted_2av(&self, post: &Self, sender: u64) -> bool {
        &&& post.messages_2av_state.senders() == self.messages_2av_state.senders().insert(sender)
        &&& post.messages_2av_state.weight() == self.messages_2av_state.weight()
            + self.weights()[sender as int]
        &&& post.status == if self.quorum(post.messages_2av_state.weight() as int) {
            PartyStatus::Passed2av
        } else {
            self.status
        }
        &&& post.parties_voted_before@ == self.parties_voted_before@
        &&& post.messages_1b_weight == self.messages_1b_weight
        &&& post.value_2a == self.value_2a
        &&& post.messages_2b_state@ == self.messages_2b_state@
    }

    /// `post` counts the 2b message of `sender`.
    pub open spec fn counted_2b(&self, post: &Self, sender: u64) -> bool {
        &&& post.messages_2b_state.senders() == self.messages_2b_state.senders().insert(sender)
        &&& post.messages_2b_state.weight() == self.messages_2b_state.weight()
            + self.weights()[sender as int]
        &&& post.status == if self.quorum(post.messages_2b_state.weight() as int) {
            PartyStatus::Passed2b
        } else {
            self.status
        }
        &&& post.parties_voted_before@ == self.parties_voted_before@
        &&& post.messages_1b_weight == self.messages_1b_weight
        &&& post.value_2a == self.value_2a
        &&& post.messages_2av_state@ == self.messages_2av_state@
    }

    /// The outcome of a 2a proposal of `value`, once the value selector has
    /// given its `verdict` on it.
    pub open spec fn proposal_outcome(
        &self,
        post: &Self,
        value: V,
        verdict: bool,
        r: Result<(), UpdateStateError<V>>,
    ) -> bool {
        if verdict {
            &&& r is Ok
            &&& post.status == PartyStatus::Passed2a
            &&& post.value_2a == Some(value)
            &&& post.parties_voted_before@ == self.parties_voted_before@
            &&& post.messages_1b_weight == self.messages_1b_weight
            &&& post.messages_2av_state@ == self.messages_2av_state@
            &&& post.messages_2b_state@ == self.messages_2b_state@
        } else {
            &&& r == Err::<(), UpdateStateError<V>>(UpdateStateError::ValueVerificationFailed)
            &&& self.unchanged(post)
        }
    }

    /// The outcome of a 2av message of `sender` that carries `received`,
    /// once compared with the party's 2a value: `differs` is the comparison's
    /// answer.
    pub open spec fn confirmation_outcome(
        &self,
        post: &Self,
        sender: u64,
        received: V,
        differs: bool,
        r: Result<(), UpdateStateError<V>>,
    ) -> bool {
        if differs {
            &&& r matches Err(UpdateStateError::ValueMismatch(e))
            &&& cloned(self.value_2a->Some_0, e.party_value)
            &&& e.message_value == received
            &&& self.unchanged(post)
        } else {
            &&& if self.messages_2av_state.senders().contains(sender) {
                r is Ok && self.unchanged(post)
            } else if (sender as int) >= self.weights().len() {
                r == Err::<(), UpdateStateError<V>>(UpdateStateError::UnknownSender(sender))
                    && self.unchanged(post)
            } else {
                r is Ok && self.counted_2av(post, sender)
            }
        }
    }

    /// What processing a received message does: `post` is the party
    /// afterwards and `r` what was returned. A refused message changes
    /// nothing.
    pub open spec fn updated(
        &self,
        post: &Self,
        routing: MessageRouting,
        content: Received<V>,
        r: Result<(), UpdateStateError<V>>,
    ) -> bool {
        let sender = routing.sender;
        &&& self.same_setup(post)
        &&& match self.check_failure(routing, content) {
            Some(e) => r == Err::<(), UpdateStateError<V>>(e) && self.unchanged(post),
            None => match content {
                Ok(MessageContent::Msg1a(_)) => {
                    &&& r is Ok
                    &&& post.status == PartyStatus::Passed1a
                    &&& self.same_rounds(post)
                },
                Ok(MessageContent::Msg1b(m)) => if self.parties_voted_before@.contains_key(sender) {
                    r is Ok && self.unchanged(post)
                } else {
                    match m.last_value_voted {
                        Some(Err(e)) => r == Err::<(), UpdateStateError<V>>(
                            UpdateStateError::DeserializationError(e),
                        ) && self.unchanged(post),
                        _ => if (sender as int) >= self.weights().len() {
                            r == Err::<(), UpdateStateError<V>>(UpdateStateError::UnknownSender(sender))
                                && self.unchanged(post)
                        } else {
                            r is Ok && self.counted_1b(post, sender, reported_vote(m.last_value_voted))
                        },
                    }
                },
                Ok(MessageContent::Msg2a(m)) => exists|verdict: bool|
                    self.verifies(m.value->Ok_0, verdict) && #[trigger] self.proposal_outcome(
                        post,
                        m.value->Ok_0,
                        verdict,
                        r,
                    ),
                Ok(MessageContent::Msg2av(m)) => {
                    let received = m.received_value->Ok_0;
                    &&& exists|differs: bool|
                        self.compares(received, differs) && #[trigger] self.confirmation_outcome(
                            post,
                            sender,
                            received,
                            differs,
                            r,
                        )
                    &&& V::obeys_eq_spec() ==> (r matches Err(UpdateStateError::ValueMismatch(_))
                        <==> !received.eq_spec(&self.value_2a->Some_0))
                },
                Ok(MessageContent::Msg2b(_)) => {
                    &&& r is Ok
                    &&& if self.messages_2av_state.senders().contains(sender)
                        && !self.messages_2b_state.senders().contains(sender) {
                        self.counted_2b(post, sender)
                    } else {
                        self.unchanged(post)
                    }
                },
                Err(_) => false,
            },
        }
    }

    /// Counts the 1b message of `sender`, who reports `vote`, and passes the
    /// 1b stage once the weight gathered is a quorum.
    fn record_1b(&mut self, sender: u64, vote: Option<V>)
        requires
            old(self).wf(),
            old(self).status == PartyStatus::Passed1a,
            !old(self).parties_voted_before@.contains_key(sender),
            old(self).weights_known(sender),
        ensures
            final(self).wf(),
            old(self).same_setup(&*final(self)),
            final(self).rate_limiter == old(self).rate_limiter,
            old(self).counted_1b(&*final(self), sender, vote),
    {
        let ghost w = self.weights();
        let ghost before = self.parties_voted_before@.dom();
        proof {
            lemma_set_weight_insert(w, before, sender, w.len() as int);
            lemma_set_weight_bounded(w, before.insert(sender), w.len() as int);
            lemma_total_weight_fits(w);
        }
        self.parties_voted_before.insert(sender, vote);
        assert(self.parties_voted_before@.dom() =~= before.insert(sender));
        self.messages_1b_weight = self.messages_1b_weight + self.cfg.party_weights[sender as usize] as u128;
        let self_weight = self.cfg.party_weights[self.id as usize] as u128;
        if self.messages_1b_weight >= self.cfg.threshold - self_weight {
            self.status = PartyStatus::Passed1b;
        }
    }

    /// Adopts the proposal `value` if the value selector's `verdict` on it
    /// is positive, and refuses it otherwise.
    pub fn accept_proposal(&mut self, value: V, verdict: bool) -> (r: Result<(), UpdateStateError<V>>)
        requires
            old(self).wf(),
        ensures
            final(self).wf(),
            old(self).same_setup(&*final(self)),
            final(self).rate_limiter == old(self).rate_limiter,
            old(self).proposal_outcome(&*final(self), value, verdict, r),
    {
        if verdict {
            self.status = PartyStatus::Passed2a;
            self.value_2a = Some(value);
            Ok(())
        } else {
            Err(UpdateStateError::ValueVerificationFailed)
        }
    }

    /// Takes the 2av message of `sender`, which carries `received`: refuses
    /// it if the comparison with the party's 2a value found them to differ,
    /// and otherwise counts the sender, once, and passes the 2av stage once
    /// the weight gathered is a quorum.
    pub fn confirm_value(&mut self, sender: u64, received: V, differs: bool) -> (r: Result<
        (),
        UpdateStateError<V>,
    >)
        requires
            old(self).wf(),
            old(self).status == PartyStatus::Passed2a,
            !differs && !old(self).messages_2av_state.senders().contains(sender) && (sender as int)
                < old(self).weights().len() ==> old(self).own_weight_known(),
        ensures
            final(self).wf(),
            old(self).same_setup(&*final(self)),
            final(self).rate_limiter == old(self).rate_limiter,
            old(self).confirmation_outcome(&*final(self), sender, received, differs, r),
    {
        if differs {
            let party_value = match &self.value_2a {
                Some(v) => v.clone(),
                None => vstd::pervasive::unreached(),
            };
            return Err(ValueMismatch { party_value, message_value: received }.into());
        }
        if !self.messages_2av_state.contains_sender(&sender) {
            if sender >= self.cfg.party_weights.len() as u64 {
                return Err(UpdateStateError::UnknownSender(sender));
            }
            let ghost w = self.weights();
            let ghost before = self.messages_2av_state.senders();
            proof {
                lemma_set_weight_insert(w, before, sender, w.len() as int);
                lemma_set_weight_bounded(w, before.insert(sender), w.len() as int);
                lemma_total_weight_fits(w);
            }
            self.messages_2av_state.add_sender(sender, self.cfg.party_weights[sender as usize] as u128);
            let self_weight = self.cfg.party_weights[self.id as usize] as u128;
            if self.messages_2av_state.get_weight() >= self.cfg.threshold - self_weight {
                self.status = PartyStatus::Passed2av;
            }
        }
        Ok(())
    }

    /// Counts the 2b message of `sender`, if it confirmed the 2a value and
    /// was not counted yet, and passes the 2b stage once the weight gathered
    /// is a quorum.
    fn record_2b(&mut self, sender: u64)
        requires
            old(self).wf(),
            old(self).status == PartyStatus::Passed2av,
            old(self).messages_2av_state.senders().contains(sender) && !old(
                self,
            ).messages_2b_state.senders().contains(sender) ==> old(self).weights_known(sender),
        ensures
            final(self).wf(),
            old(self).same_setup(&*final(self)),
            final(self).rate_limiter == old(self).rate_limiter,
            if old(self).messages_2av_state.senders().contains(sender) && !old(
                self,
            ).messages_2b_state.senders().contains(sender) {
                old(self).counted_2b(&*final(self), sender)
            } else {
                old(self).unchanged(&*final(self))
            },
    {
        if self.messages_2av_state.contains_sender(&sender) && !self.messages_2b_state.contains_sender(
            &sender,
        ) {
            let ghost w = self.weights();
            let ghost before = self.messages_2b_state.senders();
            proof {
                lemma_set_weight_insert(w, before, sender, w.len() as int);
                lemma_set_weight_bounded(w, before.insert(sender), w.len() as int);
                lemma_total_weight_fits(w);
            }
            self.messages_2b_state.add_sender(sender, self.cfg.party_weights[sender as usize] as u128);
            let self_weight = self.cfg.party_weights[self.id as usize] as u128;
            if self.messages_2b_state.get_weight() >= self.cfg.threshold - self_weight {
                self.status = PartyStatus::Passed2b;
            }
        }
    }

    /// Whether the checks of `update_state` pass for this message.
    fn passes_checks(&self, routing: MessageRouting, content: &Received<V>) -> (passes: bool)
        ensures
            passes == (self.check_failure(routing, *content) is None),
    {
        if self.status != needed_status(routing.msg_type) {
            return false;
        }
        match content {
            Err(_) => false,
            Ok(MessageContent::Msg1a(m)) => m.ballot == self.ballot && routing.sender == self.leader,
            Ok(MessageContent::Msg1b(m)) => m.ballot == self.ballot && match m.last_ballot_voted {
                Some(last) => last < self.ballot,
                None => true,
            },
            Ok(MessageContent::Msg2a(m)) => m.ballot == self.ballot && routing.sender == self.leader
                && m.value.is_ok(),
            Ok(MessageContent::Msg2av(m)) => m.ballot == self.ballot && m.received_value.is_ok(),
            Ok(MessageContent::Msg2b(m)) => m.ballot == self.ballot,
        }
    }

    /// Whether processing the message may add its sender's weight to a
    /// round, as `weighs_message` states.
    pub fn weighs(&self, routing: MessageRouting, content: &Received<V>) -> (weighs: bool)
        ensures
            weighs == self.weighs_message(routing, *content),
    {
        if !self.passes_checks(routing, content) {
            return false;
        }
        match content {
            Ok(MessageContent::Msg1b(m)) => !self.parties_voted_before.contains_key(&routing.sender)
                && !(match &m.last_value_voted {
                Some(Err(_)) => true,
                _ => false,
            }) && routing.sender < self.cfg.party_weights.len() as u64,
            Ok(MessageContent::Msg2av(_)) => !self.messages_2av_state.contains_sender(&routing.sender)
                && routing.sender < self.cfg.party_weights.len() as u64,
            Ok(MessageContent::Msg2b(_)) => self.messages_2av_state.contains_sender(&routing.sender)
                && !self.messages_2b_state.contains_sender(&routing.sender),
            _ => false,
        }
    }

    /// Whether this party's weight can be looked up and does not exceed the
    /// threshold, as `own_weight_known` states.
    pub fn knows_own_weight(&self) -> (known: bool)
        ensures
            known == self.own_weight_known(),
    {
        let n = self.cfg.party_weights.len();
        self.id < (n as u64) && (self.cfg.party_weights[self.id as usize] as u128)
            <= self.cfg.threshold
    }

    /// Processes a received message, whose contents were decoded according
    /// to its routing, and updates the party's state.
    ///
    /// The message is checked against the party's status, ballot and leader;
    /// a 1b, 2av or 2b message adds its sender's weight to its round, once
    /// per sender, and the party passes the stage when the weight gathered,
    /// with its own, reaches the threshold; a sender without a weight in the
    /// configuration is refused there. A 2a message is adopted if the value
    /// selector verifies its value. A refused message changes nothing.
    pub fn update_state(&mut self, routing: MessageRouting, content: Received<V>) -> (r: Result<
        (),
        UpdateStateError<V>,
    >)
        requires
            old(self).wf(),
            content matches Ok(c) ==> c.kind() == routing.msg_type,
            old(self).needs_own_weight(routing, content) ==> old(self).own_weight_known(),
        ensures
            final(self).wf(),
            final(self).rate_limiter == old(self).rate_limiter,
            old(self).updated(&*final(self), routing, content, r),
    {
        let ghost taken = content;
        let needed = needed_status(routing.msg_type);
        if self.status != needed {
            return Err(PartyStatusMismatch { party_status: self.status, needed_status: needed }.into());
        }
        let content = match content {
            Ok(c) => c,
            Err(e) => {
                return Err(e.into());
            },
        };
        match content {
            MessageContent::Msg1a(msg) => {
                if msg.ballot != self.ballot {
                    return Err(
                        BallotNumberMismatch {
                            party_ballot_number: self.ballot,
                            message_ballot_number: msg.ballot,
                        }.into(),
                    );
                }
                if routing.sender != self.leader {
                    return Err(
                        LeaderMismatch { party_leader: self.leader, message_sender: routing.sender }.into(),
                    );
                }
                self.status = PartyStatus::Passed1a;
                Ok(())
            },
            MessageContent::Msg1b(msg) => {
                if msg.ballot != self.ballot {
                    return Err(
                        BallotNumberMismatch {
                            party_ballot_number: self.ballot,
                            message_ballot_number: msg.ballot,
                        }.into(),
                    );
                }
                if let Some(last_ballot_voted) = msg.last_ballot_voted {
                    if last_ballot_voted >= self.ballot {
                        return Err(
                            BallotNumberMismatch {
                                party_ballot_number: self.ballot,
                                message_ballot_number: msg.ballot,
                            }.into(),
                        );
                    }
                }
                if !self.parties_voted_before.contains_key(&routing.sender) {
                    let vote = match msg.last_value_voted {
                        Some(Ok(v)) => Some(v),
                        Some(Err(e)) => {
                            return Err(e.into());
                        },
                        None => None,
                    };
                    if routing.sender >= self.cfg.party_weights.len() as u64 {
                        return Err(UpdateStateError::UnknownSender(routing.sender));
                    }
                    self.record_1b(routing.sender, vote);
                }
                Ok(())
            },
            MessageContent::Msg2a(msg) => {
                if msg.ballot != self.ballot {
                    return Err(
                        BallotNumberMismatch {
                            party_ballot_number: self.ballot,
                            message_ballot_number: msg.ballot,
                        }.into(),
                    );
                }
                if routing.sender != self.leader {
                    return Err(
                        LeaderMismatch { party_leader: self.leader, message_sender: routing.sender }.into(),
                    );
                }
                let value = match msg.value {
                    Ok(v) => v,
                    Err(e) => {
                        return Err(e.into());
                    },
                };
                let verdict = self.value_selector.verify(&value, &self.parties_voted_before);
                self.accept_proposal(value, verdict)
            },
            MessageContent::Msg2av(msg) => {
                if msg.ballot != self.ballot {
                    return Err(
                        BallotNumberMismatch {
                            party_ballot_number: self.ballot,
                            message_ballot_number: msg.ballot,
                        }.into(),
                    );
                }
                let received = match msg.received_value {
                    Ok(v) => v,
                    Err(e) => {
                        return Err(e.into());
                    },
                };
                let differs = match &self.value_2a {
                    Some(v) => received != *v,
                    None => vstd::pervasive::unreached(),
                };
                proof {
                    if !differs {
                        assert(self.compares(received, differs));
                        assert(!self.mismatches(taken));
                    }
                }
                self.confirm_value(routing.sender, received, differs)
            },
            MessageContent::Msg2b(msg) => {
                if msg.ballot != self.ballot {
                    return Err(
                        BallotNumberMismatch {
                            party_ballot_number: self.ballot,
                            message_ballot_number: msg.ballot,
                        }.into(),
                    );
                }
                self.record_2b(routing.sender);
                Ok(())
            },
        }
    }

    /// Whether the party ignores a message with this routing: its own
    /// messages, and a kind of message that it already processed from the
    /// sender in this ballot.
    pub open spec fn ignores(&self, routing: MessageRouting) -> bool {
        routing.sender == self.id || self.rate_limiter@.contains((routing.msg_type, routing.sender))
    }

    /// What taking a message does: `post` is the party afterwards and
    /// `outcome` what became of the message. Own messages and repeated
    /// kinds from a sender change nothing; any other message is processed
    /// and its kind and sender are remembered; either way the party ignores
    /// such a message from then on.
    pub open spec fn took_message(
        &self,
        post: &Self,
        routing: MessageRouting,
        content: Received<V>,
        outcome: MessageOutcome<V>,
    ) -> bool {
        &&& post.ignores(routing)
        &&& routing.sender == self.id ==> outcome is OwnMessage && *post == *self
        &&& routing.sender != self.id && self.rate_limiter@.contains(
            (routing.msg_type, routing.sender),
        ) ==> outcome is RateLimited && *post == *self
        &&& routing.sender != self.id && !self.rate_limiter@.contains(
            (routing.msg_type, routing.sender),
        ) ==> {
            &&& outcome matches MessageOutcome::Processed(r)
            &&& self.updated(post, routing, content, r)
            &&& post.rate_limiter@ == self.rate_limiter@.insert((routing.msg_type, routing.sender))
        }
    }

    /// What taking an event does: `post` is the party afterwards and `r`
    /// what was returned. The event is followed; if that fails, the ballot
    /// is marked failed and the event is reported with the error.
    pub open spec fn took_event(
        &self,
        post: &Self,
        event: PartyEvent,
        r: Result<Option<MessageContent<V>>, LaunchBallotError>,
    ) -> bool {
        match r {
            Ok(message) => self.followed(post, event, Ok(message)),
            Err(LaunchBallotError::FollowEventError(failed, e)) => {
                &&& failed == event
                &&& self.followed(self, event, Err(e))
                &&& *post == (Party { status: PartyStatus::Failed, ..*self })
            },
            Err(_) => false,
        }
    }

    /// Takes a message that arrived while the ballot runs. The party ignores
    /// its own messages, which are meant for the others, and a second
    /// message of a kind from the same sender in a ballot; it processes any
    /// other message, whether accepted or refused, and remembers its kind and
    /// sender.
    pub fn receive_message(&mut self, routing: MessageRouting, content: Received<V>) -> (outcome:
        MessageOutcome<V>)
        requires
            old(self).wf(),
            content matches Ok(c) ==> c.kind() == routing.msg_type,
            !old(self).ignores(routing) && old(self).needs_own_weight(routing, content) ==> old(
                self,
            ).own_weight_known(),
        ensures
            final(self).wf(),
            old(self).took_message(&*final(self), routing, content, outcome),
    {
        if self.id == routing.sender {
            return MessageOutcome::OwnMessage;
        }
        if self.rate_limiter.contains(routing.msg_type, routing.sender) {
            return MessageOutcome::RateLimited;
        }
        let ghost before = *self;
        let r = self.update_state(routing, content);
        let ghost processed = *self;
        self.rate_limiter.insert(routing.msg_type, routing.sender);
        proof {
            before.lemma_updated_ignores_rate_limiter(&processed, &*self, routing, content, r);
        }
        MessageOutcome::Processed(r)
    }

    /// What `updated` says of a party does not depend on its rate limiter.
    proof fn lemma_updated_ignores_rate_limiter(
        &self,
        post: &Self,
        other: &Self,
        routing: MessageRouting,
        content: Received<V>,
        r: Result<(), UpdateStateError<V>>,
    )
        requires
            self.updated(post, routing, content, r),
            *other == (Party { rate_limiter: other.rate_limiter, ..*post }),
        ensures
            self.updated(other, routing, content, r),
    {
        let answer = self.lemma_updated_answer(post, routing, content, r);
        if self.check_failure(routing, content) is None {
            match content {
                Ok(MessageContent::Msg2a(m)) => {
                    assert(self.proposal_outcome(other, m.value->Ok_0, answer, r));
                },
                Ok(MessageContent::Msg2av(m)) => {
                    let received = m.received_value->Ok_0;
                    assert(self.confirmation_outcome(other, routing.sender, received, answer, r));
                },
                _ => {},
            }
        }
    }

    /// The answer of the value selector's `verify`, or of `!=`, on which
    /// what `updated` says of a 2a or a 2av message that passes the checks
    /// rests: the outcome of that message with this answer.
    proof fn lemma_updated_answer(
        &self,
        post: &Self,
        routing: MessageRouting,
        content: Received<V>,
        r: Result<(), UpdateStateError<V>>,
    ) -> (answer: bool)
        requires
            self.updated(post, routing, content, r),
        ensures
            self.check_failure(routing, content) is None ==> match content {
                Ok(MessageContent::Msg2a(m)) => self.verifies(m.value->Ok_0, answer)
                    && self.proposal_outcome(post, m.value->Ok_0, answer, r),
                Ok(MessageContent::Msg2av(m)) => self.compares(m.received_value->Ok_0, answer)
                    && self.confirmation_outcome(
                    post,
                    routing.sender,
                    m.received_value->Ok_0,
                    answer,
                    r,
                ),
                _ => true,
            },
    {
        if self.check_failure(routing, content) is None {
            match content {
                Ok(MessageContent::Msg2a(m)) => {
                    choose|verdict: bool|
                        self.verifies(m.value->Ok_0, verdict) && #[trigger] self.proposal_outcome(
                            post,
                            m.value->Ok_0,
                            verdict,
                            r,
                        )
                },
                Ok(MessageContent::Msg2av(m)) => {
                    choose|differs: bool|
                        self.compares(m.received_value->Ok_0, differs)
                            && #[trigger] self.confirmation_outcome(
                            post,
                            routing.sender,
                            m.received_value->Ok_0,
                            differs,
                            r,
                        )
                },
                _ => false,
            }
        } else {
            false
        }
    }

    /// Takes an event of the ballot: follows it, and if that fails, marks the
    /// ballot as failed and reports the event with the error.
    pub fn receive_event(&mut self, event: PartyEvent) -> (r: Result<
        Option<MessageContent<V>>,
        LaunchBallotError,
    >)
        requires
            old(self).wf(),
        ensures
            final(self).wf(),
            old(self).took_event(&*final(self), event, r),
    {
        match self.follow_event(event) {
            Ok(message) => Ok(message),
            Err(e) => {
                self.status = PartyStatus::Failed;
                Err(LaunchBallotError::FollowEventError(event, e))
            },
        }
    }
}

/// What became of a message that arrived while the ballot runs.
#[derive(Debug)]
pub enum MessageOutcome<V: Value> {
    /// The message was the party's own, and was ignored.
    OwnMessage,
    /// The sender had already had a message of this kind processed in this
    /// ballot, and the message was ignored.
    RateLimited,
    /// The message was processed, with this result.
    Processed(Result<(), UpdateStateError<V>>),
}

impl<V: Value, VS: ValueSelector<V>> Party<V, VS> {
    /// Processing a message moves a party at most one stage on, and only when
    /// the message is accepted in the status its kind needs; it never
    /// changes the party's identity, configuration, ballot, leader or votes.
    pub proof fn lemma_update_moves_at_most_one_stage(
        &self,
        post: &Self,
        routing: MessageRouting,
        content: Received<V>,
        r: Result<(), UpdateStateError<V>>,
    )
        requires
            self.updated(post, routing, content, r),
            content matches Ok(c) ==> c.kind() == routing.msg_type,
        ensures
            self.same_setup(post),
            post.status == self.status || (r is Ok && self.status == status_for_message(
                routing.msg_type,
            ) && post.status == next_status(self.status)),
    {
        self.lemma_updated_answer(post, routing, content, r);
    }

    /// A refused message changes nothing: a party that returns an error from
    /// processing a message is as it was.
    pub proof fn lemma_refused_message_changes_nothing(
        &self,
        post: &Self,
        routing: MessageRouting,
        content: Received<V>,
        r: Result<(), UpdateStateError<V>>,
    )
        requires
            self.updated(post, routing, content, r),
            r is Err,
        ensures
            self.same_setup(post),
            self.unchanged(post),
    {
        self.lemma_updated_answer(post, routing, content, r);
    }

    /// A party passes the 1b, 2av or 2b stage on a message only when the
    /// weight its round has gathered, with the party's own, reaches the
    /// threshold.
    pub proof fn lemma_stage_passed_only_with_quorum(
        &self,
        post: &Self,
        routing: MessageRouting,
        content: Received<V>,
        r: Result<(), UpdateStateError<V>>,
    )
        requires
            self.updated(post, routing, content, r),
        ensures
            post.status == PartyStatus::Passed1b && self.status != PartyStatus::Passed1b
                ==> post.quorum(post.messages_1b_weight as int),
            post.status == PartyStatus::Passed2av && self.status != PartyStatus::Passed2av
                ==> post.quorum(post.messages_2av_state.weight() as int),
            post.status == PartyStatus::Passed2b && self.status != PartyStatus::Passed2b
                ==> post.quorum(post.messages_2b_state.weight() as int),
    {
        self.lemma_updated_answer(post, routing, content, r);
    }

    /// The leader's 1a message launches the 1a stage: a party that waits
    /// for it accepts a 1a message of its ballot from its leader and passes
    /// the 1a stage; from any other sender, or of another ballot, the
    /// message is refused and nothing changes.
    pub proof fn lemma_leader_opens_ballot(
        &self,
        post: &Self,
        routing: MessageRouting,
        m: Message1aContent,
        r: Result<(), UpdateStateError<V>>,
    )
        requires
            self.status == PartyStatus::Launched,
            routing.msg_type == ProtocolMessage::Msg1a,
            self.updated(post, routing, Ok(MessageContent::Msg1a(m)), r),
        ensures
            (r is Ok) <==> (m.ballot == self.ballot && routing.sender == self.leader),
            r is Ok ==> post.status == PartyStatus::Passed1a,
            r is Err ==> post.status == self.status,
            post.parties_voted_before@ == self.parties_voted_before@,
            post.messages_2av_state@ == self.messages_2av_state@,
            post.messages_2b_state@ == self.messages_2b_state@,
    {
    }

    /// The leader's proposal is adopted when verified: a party that waits for
    /// the 2a message accepts one of its ballot from its leader, with a
    /// decoded value, exactly when the value selector verifies the value;
    /// it then holds that value and passes the 2a stage. From any other
    /// sender or of another ballot the message is refused, and a refused
    /// message changes nothing.
    pub proof fn lemma_verified_proposal_is_adopted(
        &self,
        post: &Self,
        routing: MessageRouting,
        m: Message2aContent<Result<V, DeserializationError>>,
        r: Result<(), UpdateStateError<V>>,
    )
        requires
            self.status == PartyStatus::Passed1b,
            routing.msg_type == ProtocolMessage::Msg2a,
            m.value is Ok,
            self.updated(post, routing, Ok(MessageContent::Msg2a(m)), r),
        ensures
            r is Ok ==> m.ballot == self.ballot && routing.sender == self.leader,
            r is Ok ==> post.status == PartyStatus::Passed2a && post.value_2a == Some(m.value->Ok_0),
            m.ballot == self.ballot && routing.sender == self.leader ==> exists|verdict: bool|
                self.verifies(m.value->Ok_0, verdict) && (r is Ok <==> verdict),
            r is Err ==> post.status == self.status && post.value_2a == self.value_2a,
    {
        let verdict = self.lemma_updated_answer(post, routing, Ok(MessageContent::Msg2a(m)), r);
    }

    /// A 1b message counts: while the party waits for 1b messages, a 1b
    /// message of its ballot from a party with a weight, not counted yet,
    /// whose last vote (if any) was in an earlier ballot and decoded, is
    /// accepted. The sender is recorded with the value it last voted for, its
    /// weight is added to the 1b round, and the party passes the 1b stage
    /// exactly when the round's weight plus its own reaches the threshold.
    pub proof fn lemma_earlier_vote_is_counted(
        &self,
        post: &Self,
        routing: MessageRouting,
        m: Message1bContent<Result<V, DeserializationError>>,
        r: Result<(), UpdateStateError<V>>,
    )
        requires
            self.status == PartyStatus::Passed1a,
            routing.msg_type == ProtocolMessage::Msg1b,
            m.ballot == self.ballot,
            m.last_ballot_voted matches Some(last) ==> last < self.ballot,
            !(m.last_value_voted matches Some(Err(_))),
            (routing.sender as int) < self.cfg.party_weights@.len(),
            (self.id as int) < self.cfg.party_weights@.len(),
            !self.parties_voted_before@.contains_key(routing.sender),
            self.updated(post, routing, Ok(MessageContent::Msg1b(m)), r),
        ensures
            r is Ok,
            post.parties_voted_before@ == self.parties_voted_before@.insert(
                routing.sender,
                match m.last_value_voted {
                    Some(Ok(v)) => Some(v),
                    _ => None,
                },
            ),
            post.messages_1b_weight == self.messages_1b_weight
                + self.cfg.party_weights@[routing.sender as int],
            (post.status == PartyStatus::Passed1b) <==> (post.messages_1b_weight
                + self.cfg.party_weights@[self.id as int] >= self.cfg.threshold),
    {
    }

    /// A confirmation counts: while the party waits for 2av messages, a 2av
    /// message of its ballot, with a decoded value, from a party with a
    /// weight not counted yet, is accepted unless its value differs from the
    /// party's 2a value, and then always when `==` is the structural equality
    /// and the values are equal. Accepted, its sender's weight is added to the
    /// 2av round, and the party passes the 2av stage exactly when the round's
    /// weight plus its own reaches the threshold; refused, nothing changes.
    pub proof fn lemma_confirmation_is_counted(
        &self,
        post: &Self,
        routing: MessageRouting,
        m: Message2avContent<Result<V, DeserializationError>>,
        r: Result<(), UpdateStateError<V>>,
    )
        requires
            self.status == PartyStatus::Passed2a,
            routing.msg_type == ProtocolMessage::Msg2av,
            m.ballot == self.ballot,
            m.received_value is Ok,
            (routing.sender as int) < self.cfg.party_weights@.len(),
            (self.id as int) < self.cfg.party_weights@.len(),
            !self.messages_2av_state.senders().contains(routing.sender),
            self.updated(post, routing, Ok(MessageContent::Msg2av(m)), r),
        ensures
            V::obeys_eq_spec() && m.received_value->Ok_0.eq_spec(&self.value_2a->Some_0) ==> r is Ok,
            r is Err ==> (r matches Err(UpdateStateError::ValueMismatch(_))),
            r is Err ==> post.status == self.status && post.messages_2av_state@
                == self.messages_2av_state@,
            r is Ok ==> {
                &&& post.messages_2av_state.senders() == self.messages_2av_state.senders().insert(
                    routing.sender,
                )
                &&& post.messages_2av_state.weight() == self.messages_2av_state.weight()
                    + self.cfg.party_weights@[routing.sender as int]
                &&& (post.status == PartyStatus::Passed2av) <==> (post.messages_2av_state.weight()
                    + self.cfg.party_weights@[self.id as int] >= self.cfg.threshold)
            },
    {
        self.lemma_updated_answer(post, routing, Ok(MessageContent::Msg2av(m)), r);
    }

    /// A vote counts: while the party waits for 2b messages, a 2b message of
    /// its ballot from a party that confirmed the 2a value and was not
    /// counted yet is accepted. Its sender's weight is added to the 2b round,
    /// and the party passes the 2b stage exactly when the round's weight plus
    /// its own reaches the threshold, whether or not it leads the ballot.
    pub proof fn lemma_vote_is_counted(
        &self,
        post: &Self,
        routing: MessageRouting,
        m: Message2bContent,
        r: Result<(), UpdateStateError<V>>,
    )
        requires
            self.status == PartyStatus::Passed2av,
            routing.msg_type == ProtocolMessage::Msg2b,
            m.ballot == self.ballot,
            (routing.sender as int) < self.cfg.party_weights@.len(),
            (self.id as int) < self.cfg.party_weights@.len(),
            self.messages_2av_state.senders().contains(routing.sender),
            !self.messages_2b_state.senders().contains(routing.sender),
            self.updated(post, routing, Ok(MessageContent::Msg2b(m)), r),
        ensures
            r is Ok,
            post.messages_2b_state.senders() == self.messages_2b_state.senders().insert(
                routing.sender,
            ),
            post.messages_2b_state.weight() == self.messages_2b_state.weight()
                + self.cfg.party_weights@[routing.sender as int],
            (post.status == PartyStatus::Passed2b) <==> (post.messages_2b_state.weight()
                + self.cfg.party_weights@[self.id as int] >= self.cfg.threshold),
    {
    }

    /// Following an event moves a party at most one stage on.
    pub proof fn lemma_follow_moves_at_most_one_stage(
        &self,
        post: &Self,
        event: PartyEvent,
        r: Result<Option<MessageContent<V>>, FollowEventError>,
    )
        requires
            self.followed(post, event, r),
        ensures
            post.status == self.status || post.status == next_status(self.status),
    {
    }

    /// Each round of a well-formed party weighs at most the total weight of
    /// all parties, and the 2b round at most the 2av round: a party is
    /// counted once per round, and only a party that confirmed the 2a value
    /// counts in the 2b round.
    pub proof fn lemma_round_weights_bounded(&self)
        requires
            self.wf(),
        ensures
            self.messages_1b_weight <= total_weight(self.weights()),
            self.messages_2av_state.weight() <= total_weight(self.weights()),
            self.messages_2b_state.weight() <= self.messages_2av_state.weight(),
    {
        let w = self.weights();
        let n = w.len() as int;
        lemma_set_weight_bounded(w, self.parties_voted_before@.dom(), n);
        lemma_set_weight_bounded(w, self.messages_2av_state.senders(), n);
        lemma_set_weight_subset(
            w,
            self.messages_2b_state.senders(),
            self.messages_2av_state.senders(),
            n,
        );
    }

    /// Every stage that the party has passed by receiving messages was
    /// passed with a quorum: past 1b, the 1b round weighs a quorum; past 2av,
    /// the 2av round; past 2b, the 2b round.
    pub open spec fn quorums_recorded(&self) -> bool {
        &&& (self.status == PartyStatus::Passed1b || self.status == PartyStatus::Passed2a
            || self.status == PartyStatus::Passed2av || self.status == PartyStatus::Passed2b
            || self.status == PartyStatus::Finished) ==> self.quorum(self.messages_1b_weight as int)
        &&& (self.status == PartyStatus::Passed2av || self.status == PartyStatus::Passed2b
            || self.status == PartyStatus::Finished) ==> self.quorum(
            self.messages_2av_state.weight() as int,
        )
        &&& (self.status == PartyStatus::Passed2b || self.status == PartyStatus::Finished)
            ==> self.quorum(self.messages_2b_state.weight() as int)
    }

    /// Processing a message keeps the quorums recorded: a party finishes a
    /// ballot only after its 1b, 2av and 2b rounds have each gathered a
    /// quorum.
    pub proof fn lemma_update_keeps_quorums(
        &self,
        post: &Self,
        routing: MessageRouting,
        content: Received<V>,
        r: Result<(), UpdateStateError<V>>,
    )
        requires
            self.quorums_recorded(),
            self.updated(post, routing, content, r),
            content matches Ok(c) ==> c.kind() == routing.msg_type,
        ensures
            post.quorums_recorded(),
    {
        self.lemma_updated_answer(post, routing, content, r);
    }

    /// The party has passed the 2av stage: its 2av round gathered a quorum.
    pub open spec fn passed_2av(&self) -> bool {
        self.status == PartyStatus::Passed2av || self.status == PartyStatus::Passed2b
            || self.status == PartyStatus::Finished
    }

    /// Agreement, with Byzantine parties: two parties of one configuration
    /// that have passed the 2av stage hold the same 2a value, and so select
    /// the same value when they finish. Every party outside `equivocators`
    /// sends one value in the 2av round (`sent`), to everyone; the parties in
    /// `equivocators` may send anything to anyone, and their total weight is
    /// below twice the threshold less the total weight, the least weight two
    /// quorums share. Each of the two parties counted, besides itself, only
    /// parties whose 2av message carried its 2a value, as `update_state`
    /// counts a 2av message only when its value is not found to differ. A
    /// party never counts itself in its 2av round, as
    /// `lemma_step_keeps_own_confirmation_out` shows of a running ballot.
    pub proof fn lemma_confirmed_values_agree(
        &self,
        other: &Self,
        sent: spec_fn(u64) -> V,
        equivocators: Set<u64>,
    )
        requires
            self.wf(),
            other.wf(),
            self.cfg == other.cfg,
            self.quorums_recorded(),
            other.quorums_recorded(),
            self.passed_2av(),
            other.passed_2av(),
            (self.id as int) < self.weights().len(),
            (other.id as int) < other.weights().len(),
            !self.messages_2av_state.senders().contains(self.id),
            !other.messages_2av_state.senders().contains(other.id),
            parties_weight(self.weights(), equivocators) < 2 * self.cfg.threshold - total_weight(
                self.weights(),
            ),
            forall|s: u64|
                #[trigger] self.messages_2av_state.senders().insert(self.id).contains(s)
                    && !equivocators.contains(s) ==> self.value_2a == Some(sent(s)),
            forall|s: u64|
                #[trigger] other.messages_2av_state.senders().insert(other.id).contains(s)
                    && !equivocators.contains(s) ==> other.value_2a == Some(sent(s)),
        ensures
            self.value_2a == other.value_2a,
    {
        let w = self.weights();
        let n = w.len() as int;
        let a = self.messages_2av_state.senders().insert(self.id);
        let b = other.messages_2av_state.senders().insert(other.id);
        lemma_set_weight_insert(w, self.messages_2av_state.senders(), self.id, n);
        lemma_set_weight_insert(w, other.messages_2av_state.senders(), other.id, n);
        lemma_set_weight_bounded(w, equivocators, n);
        lemma_quorums_intersect(w, a, b, self.cfg.threshold as int);
        let shared = a.intersect(b);
        if forall|p: u64| shared.contains(p) ==> #[trigger] equivocators.contains(p) {
            assert(shared.subset_of(equivocators));
            lemma_set_weight_subset(w, shared, equivocators, n);
            assert(false);
        }
        let s = choose|s: u64| shared.contains(s) && !#[trigger] equivocators.contains(s);
        assert(a.contains(s) && b.contains(s));
        assert(self.value_2a == Some(sent(s)));
        assert(other.value_2a == Some(sent(s)));
    }

    /// Following an event keeps the quorums recorded.
    pub proof fn lemma_follow_keeps_quorums(
        &self,
        post: &Self,
        event: PartyEvent,
        r: Result<Option<MessageContent<V>>, FollowEventError>,
    )
        requires
            self.quorums_recorded(),
            self.followed(post, event, r),
        ensures
            post.quorums_recorded(),
    {
    }

    /// One step of a running ballot: taking a message with `routing`, or,
    /// where there is none, taking an event.
    pub open spec fn ballot_step(&self, post: &Self, routing: Option<MessageRouting>) -> bool {
        match routing {
            Some(rt) => exists|content: Received<V>, outcome: MessageOutcome<V>|
                #[trigger] self.took_message(post, rt, content, outcome),
            None => exists|event: PartyEvent, r: Result<Option<MessageContent<V>>, LaunchBallotError>|
                #[trigger] self.took_event(post, event, r),
        }
    }

    /// A step of a running ballot keeps ignoring what the party ignored: its
    /// identifier stays, and its rate limiter only grows.
    pub proof fn lemma_step_keeps_ignoring(
        &self,
        post: &Self,
        step: Option<MessageRouting>,
        routing: MessageRouting,
    )
        requires
            self.ballot_step(post, step),
            self.ignores(routing),
        ensures
            post.ignores(routing),
    {
        match step {
            Some(rt) => {
                let (content, outcome) = choose|content: Received<V>, outcome: MessageOutcome<V>|
                    #[trigger] self.took_message(post, rt, content, outcome);
                if rt.sender != self.id && !self.rate_limiter@.contains((rt.msg_type, rt.sender)) {
                    let r = outcome->Processed_0;
                    assert(self.same_setup(post));
                }
            },
            None => {
                let (event, r) = choose|
                    event: PartyEvent,
                    r: Result<Option<MessageContent<V>>, LaunchBallotError>,
                | #[trigger] self.took_event(post, event, r);
            },
        }
    }

    /// A step of a running ballot never counts the party itself in its 2av
    /// round: its own messages are ignored, and events leave the round as it
    /// is.
    pub proof fn lemma_step_keeps_own_confirmation_out(&self, post: &Self, step: Option<MessageRouting>)
        requires
            self.ballot_step(post, step),
            !self.messages_2av_state.senders().contains(self.id),
        ensures
            !post.messages_2av_state.senders().contains(post.id),
    {
        match step {
            Some(rt) => {
                let (content, outcome) = choose|content: Received<V>, outcome: MessageOutcome<V>|
                    #[trigger] self.took_message(post, rt, content, outcome);
                if rt.sender != self.id && !self.rate_limiter@.contains((rt.msg_type, rt.sender)) {
                    let r = outcome->Processed_0;
                    self.lemma_updated_answer(post, rt, content, r);
                }
            },
            None => {
                let (event, r) = choose|
                    event: PartyEvent,
                    r: Result<Option<MessageContent<V>>, LaunchBallotError>,
                | #[trigger] self.took_event(post, event, r);
            },
        }
    }

    /// Within a run of ballot steps, once the party ignores a routing it
    /// keeps ignoring it.
    proof fn lemma_run_keeps_ignoring(
        states: Seq<Self>,
        steps: Seq<Option<MessageRouting>>,
        routing: MessageRouting,
        i: int,
        j: int,
    )
        requires
            states.len() == steps.len() + 1,
            forall|k: int| 0 <= k < steps.len() ==> #[trigger] states[k].ballot_step(&states[k + 1], steps[k]),
            0 <= i <= j < states.len(),
            states[i].ignores(routing),
        ensures
            states[j].ignores(routing),
        decreases j - i,
    {
        if i < j {
            Self::lemma_run_keeps_ignoring(states, steps, routing, i, j - 1);
            assert(states[j - 1].ballot_step(&states[(j - 1) + 1], steps[j - 1]));
            states[j - 1].lemma_step_keeps_ignoring(&states[j], steps[j - 1], routing);
        }
    }

    /// Each party affects a running ballot at most once per kind of message:
    /// in a run of steps (messages taken, events taken between them), a
    /// message of a kind from a sender that already sent that kind earlier in
    /// the run, or a message of the party's own, leaves the party as it was.
    pub proof fn lemma_one_message_per_kind_and_sender(
        states: Seq<Self>,
        steps: Seq<Option<MessageRouting>>,
        i: int,
        j: int,
    )
        requires
            states.len() == steps.len() + 1,
            forall|k: int| 0 <= k < steps.len() ==> #[trigger] states[k].ballot_step(&states[k + 1], steps[k]),
            0 <= i < j < steps.len(),
            steps[i] matches Some(first) && steps[j] matches Some(later) && first.msg_type
                == later.msg_type && first.sender == later.sender,
        ensures
            states[j + 1] == states[j],
    {
        let first = steps[i]->Some_0;
        let later = steps[j]->Some_0;
        assert(states[i].ballot_step(&states[i + 1], steps[i]));
        let (c1, o1) = choose|content: Received<V>, outcome: MessageOutcome<V>|
            #[trigger] states[i].took_message(&states[i + 1], first, content, outcome);
        assert(states[i + 1].ignores(first));
        Self::lemma_run_keeps_ignoring(states, steps, first, i + 1, j);
        assert(states[j].ignores(later));
        assert(states[j].ballot_step(&states[j + 1], steps[j]));
        let (c2, o2) = choose|content: Received<V>, outcome: MessageOutcome<V>|
            #[trigger] states[j].took_message(&states[j + 1], later, content, outcome);
    }
}

} // verus!
