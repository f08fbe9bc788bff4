//! The errors of launching a ballot, following an event and processing a
//! message.
use crate::party::{event_text, status_text, PartyEvent, PartyStatus};
use crate::value::Value;
use vstd::prelude::*;
use vstd::std_specs::convert::FromSpecImpl;
use vstd::string::to_string_from_display_ensures;

verus! {

/// Errors that end a ballot.
#[derive(Debug)]
pub enum LaunchBallotError {
    /// An event could not be sent to the party's event queue.
    FailedToSendEvent(PartyEvent, String),
    /// The event queue was closed.
    EventChannelClosed,
    /// The message queue was closed.
    MessageChannelClosed,
    /// Following an event failed.
    FollowEventError(PartyEvent, FollowEventError),
    /// The leader could not be elected.
    LeaderElectionError(String),
}

/// Errors of following an event.
#[derive(Debug)]
pub enum FollowEventError {
    PartyStatusMismatch(PartyStatusMismatch),
    SerializationError(SerializationError),
    FailedToSendMessage(String),
}

/// Errors of processing a received message.
#[derive(Debug)]
pub enum UpdateStateError<V: Value> {
    PartyStatusMismatch(PartyStatusMismatch),
    BallotNumberMismatch(BallotNumberMismatch),
    LeaderMismatch(LeaderMismatch),
    ValueMismatch(ValueMismatch<V>),
    ValueVerificationFailed,
    DeserializationError(DeserializationError),
    /// The sender has no weight in the configuration, so its message cannot
    /// be counted.
    UnknownSender(u64),
}

/// The party is not in the status that the event or message needs.
#[derive(Debug)]
pub struct PartyStatusMismatch {
    pub party_status: PartyStatus,
    pub needed_status: PartyStatus,
}

/// The message's ballot number is not the one the party expects.
#[derive(Debug)]
pub struct BallotNumberMismatch {
    pub party_ballot_number: u64,
    pub message_ballot_number: u64,
}

/// The message was not sent by the party's leader.
#[derive(Debug)]
pub struct LeaderMismatch {
    pub party_leader: u64,
    pub message_sender: u64,
}

/// The value in the message is not the value the party holds.
#[derive(Debug)]
pub struct ValueMismatch<V: Value> {
    pub party_value: V,
    pub message_value: V,
}

/// A message or a value could not be decoded.
#[derive(Debug, Clone)]
pub enum DeserializationError {
    Message(String),
    Value(String),
}

/// A message or a value could not be encoded.
#[derive(Debug, Clone)]
pub enum SerializationError {
    Message(String),
    Value(String),
}

impl From<PartyStatusMismatch> for FollowEventError {
    fn from(error: PartyStatusMismatch) -> (e: Self)
        ensures
            e == FollowEventError::PartyStatusMismatch(error),
    {
        FollowEventError::PartyStatusMismatch(error)
    }
}

impl FromSpecImpl<PartyStatusMismatch> for FollowEventError {
    open spec fn obeys_from_spec() -> bool {
        true
    }

    open spec fn from_spec(error: PartyStatusMismatch) -> Self {
        FollowEventError::PartyStatusMismatch(error)
    }
}

impl From<SerializationError> for FollowEventError {
    fn from(error: SerializationError) -> (e: Self)
        ensures
            e == FollowEventError::SerializationError(error),
    {
        FollowEventError::SerializationError(error)
    }
}

impl FromSpecImpl<SerializationError> for FollowEventError {
    open spec fn obeys_from_spec() -> bool {
        true
    }

    open spec fn from_spec(error: SerializationError) -> Self {
        FollowEventError::SerializationError(error)
    }
}

impl<V: Value> From<PartyStatusMismatch> for UpdateStateError<V> {
    fn from(error: PartyStatusMismatch) -> (e: Self)
        ensures
            e == UpdateStateError::<V>::PartyStatusMismatch(error),
    {
        UpdateStateError::PartyStatusMismatch(error)
    }
}

impl<V: Value> FromSpecImpl<PartyStatusMismatch> for UpdateStateError<V> {
    open spec fn obeys_from_spec() -> bool {
        true
    }

    open spec fn from_spec(error: PartyStatusMismatch) -> Self {
        UpdateStateError::PartyStatusMismatch(error)
    }
}

impl<V: Value> From<LeaderMismatch> for UpdateStateError<V> {
    fn from(error: LeaderMismatch) -> (e: Self)
        ensures
            e == UpdateStateError::<V>::LeaderMismatch(error),
    {
        UpdateStateError::LeaderMismatch(error)
    }
}

impl<V: Value> FromSpecImpl<LeaderMismatch> for UpdateStateError<V> {
    open spec fn obeys_from_spec() -> bool {
        true
    }

    open spec fn from_spec(error: LeaderMismatch) -> Self {
        UpdateStateError::LeaderMismatch(error)
    }
}

impl<V: Value> From<BallotNumberMismatch> for UpdateStateError<V> {
    fn from(error: BallotNumberMismatch) -> (e: Self)
        ensures
            e == UpdateStateError::<V>::BallotNumberMismatch(error),
    {
        UpdateStateError::BallotNumberMismatch(error)
    }
}

impl<V: Value> FromSpecImpl<BallotNumberMismatch> for UpdateStateError<V> {
    open spec fn obeys_from_spec() -> bool {
        true
    }

    open spec fn from_spec(error: BallotNumberMismatch) -> Self {
        UpdateStateError::BallotNumberMismatch(error)
    }
}

impl<V: Value> From<ValueMismatch<V>> for UpdateStateError<V> {
    fn from(error: ValueMismatch<V>) -> (e: Self)
        ensures
            e == UpdateStateError::<V>::ValueMismatch(error),
    {
        UpdateStateError::ValueMismatch(error)
    }
}

impl<V: Value> FromSpecImpl<ValueMismatch<V>> for UpdateStateError<V> {
    open spec fn obeys_from_spec() -> bool {
        true
    }

    open spec fn from_spec(error: ValueMismatch<V>) -> Self {
        UpdateStateError::ValueMismatch(error)
    }
}

impl<V: Value> From<DeserializationError> for UpdateStateError<V> {
    fn from(error: DeserializationError) -> (e: Self)
        ensures
            e == UpdateStateError::<V>::DeserializationError(error),
    {
        UpdateStateError::DeserializationError(error)
    }
}

impl<V: Value> FromSpecImpl<DeserializationError> for UpdateStateError<V> {
    open spec fn obeys_from_spec() -> bool {
        true
    }

    open spec fn from_spec(error: DeserializationError) -> Self {
        UpdateStateError::DeserializationError(error)
    }
}


// ---------------------------------------------------------------------------
// The messages that describe the errors.
// ---------------------------------------------------------------------------

/// The decimal digit `d`, for `d < 10`.
pub open spec fn digit_text(d: nat) -> Seq<char> {
    if d == 0 {
        "0"@
    } else if d == 1 {
        "1"@
    } else if d == 2 {
        "2"@
    } else if d == 3 {
        "3"@
    } else if d == 4 {
        "4"@
    } else if d == 5 {
        "5"@
    } else if d == 6 {
        "6"@
    } else if d == 7 {
        "7"@
    } else if d == 8 {
        "8"@
    } else {
        "9"@
    }
}

/// The decimal notation of `n`, without leading zeros.
pub open spec fn decimal(n: nat) -> Seq<char>
    decreases n,
{
    if n < 10 {
        digit_text(n)
    } else {
        decimal(n / 10) + digit_text(n % 10)
    }
}

/// The decimal digit `d`.
fn digit_str(d: u64) -> (s: &'static str)
    requires
        d < 10,
    ensures
        s@ == digit_text(d as nat),
{
    if d == 0 {
        "0"
    } else if d == 1 {
        "1"
    } else if d == 2 {
        "2"
    } else if d == 3 {
        "3"
    } else if d == 4 {
        "4"
    } else if d == 5 {
        "5"
    } else if d == 6 {
        "6"
    } else if d == 7 {
        "7"
    } else if d == 8 {
        "8"
    } else {
        "9"
    }
}

/// Appends the decimal notation of `n` to `text`.
fn push_decimal(text: &mut String, n: u64)
    ensures
        final(text)@ == old(text)@ + decimal(n as nat),
    decreases n,
{
    let ghost start = text@;
    if n >= 10 {
        push_decimal(text, n / 10);
    }
    text.append(digit_str(n % 10));
    proof {
        if n >= 10 {
            assert(text@ =~= start + (decimal((n / 10) as nat) + digit_text((n % 10) as nat)));
        } else {
            assert(text@ =~= start + decimal(n as nat));
        }
    }
}

/// The decimal notation of `n`, as `{}` writes a `u64`.
pub fn decimal_text(n: u64) -> (s: String)
    ensures
        s@ == decimal(n as nat),
{
    let mut s = String::new();
    push_decimal(&mut s, n);
    assert(s@ =~= decimal(n as nat));
    s
}

/// The message that describes a status mismatch.
pub open spec fn status_mismatch_text(e: PartyStatusMismatch) -> Seq<char> {
    "party status mismatch: party status is "@ + status_text(e.party_status)
        + " whilst needed status is "@ + status_text(e.needed_status)
}

/// The message that describes a ballot number mismatch.
pub open spec fn ballot_mismatch_text(e: BallotNumberMismatch) -> Seq<char> {
    "ballot number mismatch: party's ballot number is "@ + decimal(e.party_ballot_number as nat)
        + " whilst received "@ + decimal(e.message_ballot_number as nat) + " in the message"@
}

/// The message that describes a leader mismatch.
pub open spec fn leader_mismatch_text(e: LeaderMismatch) -> Seq<char> {
    "leader mismatch: party's leader is "@ + decimal(e.party_leader as nat)
        + " whilst the message was sent by "@ + decimal(e.message_sender as nat)
}

/// The message that describes a value mismatch, given the text forms of
/// the two values.
pub open spec fn value_mismatch_text(party_value: Seq<char>, message_value: Seq<char>) -> Seq<
    char,
> {
    "value mismatch: party's value is "@ + party_value + " whilst received "@ + message_value
        + " in the message"@
}

/// `text` describes the value mismatch `e`, each value written as its
/// `Display` writes it.
pub open spec fn describes_value_mismatch<V: Value>(e: ValueMismatch<V>, text: Seq<char>) -> bool {
    exists|party_value: String, message_value: String|
        #[trigger] to_string_from_display_ensures::<V>(&e.party_value, party_value)
            && #[trigger] to_string_from_display_ensures::<V>(&e.message_value, message_value)
            && text == value_mismatch_text(party_value@, message_value@)
}

/// The message that describes a decoding error.
pub open spec fn deserialization_text(e: DeserializationError) -> Seq<char> {
    match e {
        DeserializationError::Message(s) => "message deserialization error: "@ + s@,
        DeserializationError::Value(s) => "value deserialization error: "@ + s@,
    }
}

/// The message that describes an encoding error.
pub open spec fn serialization_text(e: SerializationError) -> Seq<char> {
    match e {
        SerializationError::Message(s) => "message serialization error: "@ + s@,
        SerializationError::Value(s) => "value serialization error: "@ + s@,
    }
}

/// The message that describes an error of following an event.
pub open spec fn follow_error_text(e: FollowEventError) -> Seq<char> {
    match e {
        FollowEventError::PartyStatusMismatch(m) => status_mismatch_text(m),
        FollowEventError::SerializationError(m) => serialization_text(m),
        FollowEventError::FailedToSendMessage(s) => s@,
    }
}

/// `text` describes the error `e` of processing a message.
pub open spec fn describes_update_error<V: Value>(e: UpdateStateError<V>, text: Seq<char>) -> bool {
    match e {
        UpdateStateError::PartyStatusMismatch(m) => text == status_mismatch_text(m),
        UpdateStateError::BallotNumberMismatch(m) => text == ballot_mismatch_text(m),
        UpdateStateError::LeaderMismatch(m) => text == leader_mismatch_text(m),
        UpdateStateError::ValueMismatch(m) => describes_value_mismatch(m, text),
        UpdateStateError::ValueVerificationFailed => text == "value verification failed"@,
        UpdateStateError::DeserializationError(m) => text == deserialization_text(m),
        UpdateStateError::UnknownSender(sender) => text == "unknown sender: party "@ + decimal(
            sender as nat,
        ) + " has no weight"@,
    }
}

/// The message that describes an error that ends a ballot.
pub open spec fn launch_error_text(e: LaunchBallotError) -> Seq<char> {
    match e {
        LaunchBallotError::FailedToSendEvent(event, s) => "failed to send event "@ + event_text(
            event,
        ) + ": "@ + s@,
        LaunchBallotError::EventChannelClosed => "event channel closed"@,
        LaunchBallotError::MessageChannelClosed => "message channel closed"@,
        LaunchBallotError::FollowEventError(event, m) => "failed to follow event "@ + event_text(
            event,
        ) + ": "@ + follow_error_text(m),
        LaunchBallotError::LeaderElectionError(s) => "leader election error: "@ + s@,
    }
}

impl PartyStatusMismatch {
    /// The message that describes the error.
    pub fn describe(&self) -> (s: String)
        ensures
            s@ == status_mismatch_text(*self),
    {
        let mut s = "party status mismatch: party status is ".to_owned();
        s.append(self.party_status.describe().as_str());
        s.append(" whilst needed status is ");
        s.append(self.needed_status.describe().as_str());
        s
    }
}

impl BallotNumberMismatch {
    /// The message that describes the error.
    pub fn describe(&self) -> (s: String)
        ensures
            s@ == ballot_mismatch_text(*self),
    {
        let mut s = "ballot number mismatch: party's ballot number is ".to_owned();
        s.append(decimal_text(self.party_ballot_number).as_str());
        s.append(" whilst received ");
        s.append(decimal_text(self.message_ballot_number).as_str());
        s.append(" in the message");
        s
    }
}

impl LeaderMismatch {
    /// The message that describes the error.
    pub fn describe(&self) -> (s: String)
        ensures
            s@ == leader_mismatch_text(*self),
    {
        let mut s = "leader mismatch: party's leader is ".to_owned();
        s.append(decimal_text(self.party_leader).as_str());
        s.append(" whilst the message was sent by ");
        s.append(decimal_text(self.message_sender).as_str());
        s
    }
}

impl<V: Value> ValueMismatch<V> {
    /// The message that describes the error, with each value written as its
    /// `Display` writes it.
    pub fn describe(&self) -> (s: String)
        ensures
            describes_value_mismatch(*self, s@),
    {
        let party_value = self.party_value.to_string();
        let message_value = self.message_value.to_string();
        let mut s = "value mismatch: party's value is ".to_owned();
        s.append(party_value.as_str());
        s.append(" whilst received ");
        s.append(message_value.as_str());
        s.append(" in the message");
        assert(s@ == value_mismatch_text(party_value@, message_value@));
        s
    }
}

impl DeserializationError {
    /// The message that describes the error.
    pub fn describe(&self) -> (s: String)
        ensures
            s@ == deserialization_text(*self),
    {
        match self {
            DeserializationError::Message(m) => {
                let mut s = "message deserialization error: ".to_owned();
                s.append(m.as_str());
                s
            },
            DeserializationError::Value(m) => {
                let mut s = "value deserialization error: ".to_owned();
                s.append(m.as_str());
                s
            },
        }
    }
}

impl SerializationError {
    /// The message that describes the error.
    pub fn describe(&self) -> (s: String)
        ensures
            s@ == serialization_text(*self),
    {
        match self {
            SerializationError::Message(m) => {
                let mut s = "message serialization error: ".to_owned();
                s.append(m.as_str());
                s
            },
            SerializationError::Value(m) => {
                let mut s = "value serialization error: ".to_owned();
                s.append(m.as_str());
                s
            },
        }
    }
}

impl FollowEventError {
    /// The message that describes the error.
    pub fn describe(&self) -> (s: String)
        ensures
            s@ == follow_error_text(*self),
    {
        match self {
            FollowEventError::PartyStatusMismatch(m) => m.describe(),
            FollowEventError::SerializationError(m) => m.describe(),
            FollowEventError::FailedToSendMessage(m) => m.clone(),
        }
    }
}

impl<V: Value> UpdateStateError<V> {
    /// The message that describes the error.
    pub fn describe(&self) -> (s: String)
        ensures
            describes_update_error(*self, s@),
    {
        match self {
            UpdateStateError::PartyStatusMismatch(m) => m.describe(),
            UpdateStateError::BallotNumberMismatch(m) => m.describe(),
            UpdateStateError::LeaderMismatch(m) => m.describe(),
            UpdateStateError::ValueMismatch(m) => m.describe(),
            UpdateStateError::ValueVerificationFailed => "value verification failed".to_owned(),
            UpdateStateError::DeserializationError(m) => m.describe(),
            UpdateStateError::UnknownSender(sender) => {
                let mut s = "unknown sender: party ".to_owned();
                s.append(decimal_text(*sender).as_str());
                s.append(" has no weight");
                s
            },
        }
    }
}

impl LaunchBallotError {
    /// The message that describes the error.
    pub fn describe(&self) -> (s: String)
        ensures
            s@ == launch_error_text(*self),
    {
        match self {
            LaunchBallotError::FailedToSendEvent(event, m) => {
                let mut s = "failed to send event ".to_owned();
                s.append(event.describe().as_str());
                s.append(": ");
                s.append(m.as_str());
                s
            },
            LaunchBallotError::EventChannelClosed => "event channel closed".to_owned(),
            LaunchBallotError::MessageChannelClosed => "message channel closed".to_owned(),
            LaunchBallotError::FollowEventError(event, m) => {
                let mut s = "failed to follow event ".to_owned();
                s.append(event.describe().as_str());
                s.append(": ");
                s.append(m.describe().as_str());
                s
            },
            LaunchBallotError::LeaderElectionError(m) => {
                let mut s = "leader election error: ".to_owned();
                s.append(m.as_str());
                s
            },
        }
    }
}

} // verus!
