//! The messages of the BPCon protocol, their routing, and the bookkeeping
//! of who has sent a message in a round.
use std::collections::HashSet;
use vstd::prelude::*;
use vstd::std_specs::iter::IteratorSpec;

verus! {

broadcast use vstd::std_specs::hash::group_hash_axioms;

/// The kinds of protocol message, one per stage of the protocol.
#[derive(PartialEq, Eq, Structural, Debug, Copy, Clone)]
pub enum ProtocolMessage {
    Msg1a,
    Msg1b,
    Msg2a,
    Msg2av,
    Msg2b,
}

/// The text form of a `ProtocolMessage`: the type's name, a colon and the variant.
pub open spec fn message_kind_text(x: ProtocolMessage) -> Seq<char> {
    match x {
        ProtocolMessage::Msg1a => "ProtocolMessage: Msg1a"@,
        ProtocolMessage::Msg1b => "ProtocolMessage: Msg1b"@,
        ProtocolMessage::Msg2a => "ProtocolMessage: Msg2a"@,
        ProtocolMessage::Msg2av => "ProtocolMessage: Msg2av"@,
        ProtocolMessage::Msg2b => "ProtocolMessage: Msg2b"@,
    }
}

impl ProtocolMessage {
    /// The text form, as `message_kind_text` states.
    pub fn describe(&self) -> (s: String)
        ensures
            s@ == message_kind_text(*self),
    {
        match self {
            ProtocolMessage::Msg1a => "ProtocolMessage: Msg1a".to_owned(),
            ProtocolMessage::Msg1b => "ProtocolMessage: Msg1b".to_owned(),
            ProtocolMessage::Msg2a => "ProtocolMessage: Msg2a".to_owned(),
            ProtocolMessage::Msg2av => "ProtocolMessage: Msg2av".to_owned(),
            ProtocolMessage::Msg2b => "ProtocolMessage: Msg2b".to_owned(),
        }
    }
}

/// Routing information of a message: who sent it and what kind it is.
#[derive(PartialEq, Eq, Structural, Debug, Copy, Clone)]
pub struct MessageRouting {
    /// The identifier of the party that sent the message.
    pub sender: u64,
    /// The kind of the message.
    pub msg_type: ProtocolMessage,
}

/// Contents of a 1a message: the leader announces the ballot.
#[derive(Debug, Clone)]
pub struct Message1aContent {
    /// The ballot number.
    pub ballot: u64,
}

/// Contents of a 1b message: a party reports its last vote.
///
/// `T` is the form in which a value travels: its encoding on the wire, the
/// outcome of decoding it on receipt, or the value itself when sent.
#[derive(Debug, Clone)]
pub struct Message1bContent<T> {
    /// The ballot number.
    pub ballot: u64,
    /// The last ballot in which the sender voted, if any.
    pub last_ballot_voted: Option<u64>,
    /// The value the sender last voted for, if any.
    pub last_value_voted: Option<T>,
}

/// Contents of a 2a message: the leader proposes a value.
#[derive(Debug, Clone)]
pub struct Message2aContent<T> {
    /// The ballot number.
    pub ballot: u64,
    /// The proposed value.
    pub value: T,
}

/// Contents of a 2av message: a party confirms the value it received.
#[derive(Debug, Clone)]
pub struct Message2avContent<T> {
    /// The ballot number.
    pub ballot: u64,
    /// The value received in the 2a message.
    pub received_value: T,
}

/// Contents of a 2b message: a party votes.
#[derive(Debug, Clone)]
pub struct Message2bContent {
    /// The ballot number.
    pub ballot: u64,
}

/// The contents of any protocol message.
#[derive(Debug, Clone)]
pub enum MessageContent<T> {
    Msg1a(Message1aContent),
    Msg1b(Message1bContent<T>),
    Msg2a(Message2aContent<T>),
    Msg2av(Message2avContent<T>),
    Msg2b(Message2bContent),
}

impl<T> MessageContent<T> {
    /// The kind of message these contents belong to.
    pub open spec fn kind(&self) -> ProtocolMessage {
        match self {
            MessageContent::Msg1a(_) => ProtocolMessage::Msg1a,
            MessageContent::Msg1b(_) => ProtocolMessage::Msg1b,
            MessageContent::Msg2a(_) => ProtocolMessage::Msg2a,
            MessageContent::Msg2av(_) => ProtocolMessage::Msg2av,
            MessageContent::Msg2b(_) => ProtocolMessage::Msg2b,
        }
    }

    /// The ballot number that the message carries.
    pub open spec fn ballot_of(&self) -> u64 {
        match self {
            MessageContent::Msg1a(m) => m.ballot,
            MessageContent::Msg1b(m) => m.ballot,
            MessageContent::Msg2a(m) => m.ballot,
            MessageContent::Msg2av(m) => m.ballot,
            MessageContent::Msg2b(m) => m.ballot,
        }
    }

    /// Creates the routing information for these contents sent by `sender`.
    pub fn route(&self, sender: u64) -> (routing: MessageRouting)
        ensures
            routing.sender == sender,
            routing.msg_type == self.kind(),
    {
        let msg_type = match self {
            MessageContent::Msg1a(_) => ProtocolMessage::Msg1a,
            MessageContent::Msg1b(_) => ProtocolMessage::Msg1b,
            MessageContent::Msg2a(_) => ProtocolMessage::Msg2a,
            MessageContent::Msg2av(_) => ProtocolMessage::Msg2av,
            MessageContent::Msg2b(_) => ProtocolMessage::Msg2b,
        };
        MessageRouting { sender, msg_type }
    }
}

/// Keeps track of the parties that sent a message in a round and of the
/// cumulative weight of their messages.
#[derive(PartialEq, Eq, Debug)]
pub struct MessageRoundState {
    senders: HashSet<u64>,
    weight: u128,
}

impl View for MessageRoundState {
    type V = (Set<u64>, u128);

    /// The set of senders, and the cumulative weight.
    closed spec fn view(&self) -> (Set<u64>, u128) {
        (self.senders@, self.weight)
    }
}

impl MessageRoundState {
    /// The parties that have sent a message in this round.
    pub open spec fn senders(&self) -> Set<u64> {
        self@.0
    }

    /// The cumulative weight of the messages of this round.
    pub open spec fn weight(&self) -> u128 {
        self@.1
    }

    /// Creates an empty state: no senders and zero weight.
    pub fn new() -> (state: Self)
        ensures
            state.senders() == Set::<u64>::empty(),
            state.weight() == 0,
    {
        MessageRoundState { senders: HashSet::new(), weight: 0 }
    }

    /// Returns the cumulative weight of all messages of this round.
    pub fn get_weight(&self) -> (weight: u128)
        ensures
            weight == self.weight(),
    {
        self.weight
    }

    /// Records `sender` and adds `weight` to the cumulative weight.
    pub fn add_sender(&mut self, sender: u64, weight: u128)
        requires
            old(self).weight() + weight <= u128::MAX,
        ensures
            final(self).senders() == old(self).senders().insert(sender),
            final(self).weight() == old(self).weight() + weight,
    {
        self.senders.insert(sender);
        self.weight = self.weight + weight;
    }

    /// Whether `sender` has already sent a message in this round.
    pub fn contains_sender(&self, sender: &u64) -> (contains: bool)
        ensures
            contains == self.senders().contains(*sender),
    {
        self.senders.contains(sender)
    }

    /// Clears the senders and the weight, for a new round.
    pub fn reset(&mut self)
        ensures
            final(self).senders() == Set::<u64>::empty(),
            final(self).weight() == 0,
    {
        self.senders.clear();
        self.weight = 0;
    }
}

impl Clone for MessageRoundState {
    /// A copy with the same senders and the same weight.
    fn clone(&self) -> (copy: Self)
        ensures
            copy@ == self@,
    {
        let mut senders: HashSet<u64> = HashSet::new();
        proof {
            let keys = vstd::std_specs::hash::spec_hash_keys_iter(&self.senders).remaining();
            assert forall|x: u64|
                self.senders@.contains(x) <==> exists|j: int|
                    0 <= j < keys.len() && *#[trigger] keys[j] == x by {
                assert(keys.unref().to_set() == self.senders@);
                if self.senders@.contains(x) {
                    assert(keys.unref().contains(x));
                    let j = choose|j: int| 0 <= j < keys.unref().len() && keys.unref()[j] == x;
                    assert(*keys[j] == x);
                }
                if exists|j: int| 0 <= j < keys.len() && *#[trigger] keys[j] == x {
                    let j = choose|j: int| 0 <= j < keys.len() && *#[trigger] keys[j] == x;
                    assert(keys.unref()[j] == x);
                }
            }
        }
        for s in it: self.senders.iter()
            invariant
                forall|x: u64|
                    senders@.contains(x) <==> exists|j: int|
                        0 <= j < it.index() && *#[trigger] it.seq()[j] == x,
                forall|x: u64|
                    self.senders@.contains(x) <==> exists|j: int|
                        0 <= j < it.seq().len() && *#[trigger] it.seq()[j] == x,
            ensures
                senders@ =~= self.senders@,
        {
            senders.insert(*s);
            proof {
                assert forall|x: u64|
                    senders@.contains(x) <==> exists|j: int|
                        0 <= j < it.index() + 1 && *#[trigger] it.seq()[j] == x by {
                    if x == *s {
                        assert(*it.seq()[it.index()] == x);
                    }
                }
            }
        }
        MessageRoundState { senders, weight: self.weight }
    }
}

impl Default for MessageRoundState {
    fn default() -> (state: Self)
        ensures
            state.senders() == Set::<u64>::empty(),
            state.weight() == 0,
    {
        MessageRoundState::new()
    }
}

} // verus!
