use bpcon::error::{
    decimal_text, BallotNumberMismatch, DeserializationError, FollowEventError, LaunchBallotError,
    LeaderMismatch, PartyStatusMismatch, SerializationError, UpdateStateError, ValueMismatch,
};
use bpcon::party::{PartyEvent, PartyStatus};
use bpcon::value::Value;

#[derive(Clone, PartialEq, Eq, Debug)]
struct Tag(u8);

impl Value for Tag {}

impl std::fmt::Display for Tag {
    fn fmt(&self, f: &mut std::fmt::Formatter<'_>) -> std::fmt::Result {
        f.write_str(&format!("Tag({})", self.0))
    }
}

fn mismatch() -> PartyStatusMismatch {
    PartyStatusMismatch { party_status: PartyStatus::Launched, needed_status: PartyStatus::Passed1a }
}

#[test]
fn follow_event_errors_convert() {
    match FollowEventError::from(mismatch()) {
        FollowEventError::PartyStatusMismatch(e) => {
            assert_eq!(e.party_status, PartyStatus::Launched);
            assert_eq!(e.needed_status, PartyStatus::Passed1a);
        }
        other => panic!("unexpected {:?}", other),
    }
    match FollowEventError::from(SerializationError::Value("v".to_string())) {
        FollowEventError::SerializationError(SerializationError::Value(s)) => assert_eq!(s, "v"),
        other => panic!("unexpected {:?}", other),
    }
}

#[test]
fn update_state_errors_convert() {
    assert!(matches!(
        UpdateStateError::<Tag>::from(mismatch()),
        UpdateStateError::PartyStatusMismatch(_)
    ));
    match UpdateStateError::<Tag>::from(LeaderMismatch { party_leader: 1, message_sender: 2 }) {
        UpdateStateError::LeaderMismatch(e) => {
            assert_eq!(e.party_leader, 1);
            assert_eq!(e.message_sender, 2);
        }
        other => panic!("unexpected {:?}", other),
    }
    match UpdateStateError::<Tag>::from(BallotNumberMismatch {
        party_ballot_number: 3,
        message_ballot_number: 4,
    }) {
        UpdateStateError::BallotNumberMismatch(e) => {
            assert_eq!(e.party_ballot_number, 3);
            assert_eq!(e.message_ballot_number, 4);
        }
        other => panic!("unexpected {:?}", other),
    }
    match UpdateStateError::from(ValueMismatch { party_value: Tag(1), message_value: Tag(2) }) {
        UpdateStateError::ValueMismatch(e) => {
            assert_eq!(e.party_value, Tag(1));
            assert_eq!(e.message_value, Tag(2));
        }
        other => panic!("unexpected {:?}", other),
    }
    match UpdateStateError::<Tag>::from(DeserializationError::Message("m".to_string())) {
        UpdateStateError::DeserializationError(DeserializationError::Message(s)) => assert_eq!(s, "m"),
        other => panic!("unexpected {:?}", other),
    }
}

#[test]
fn decimal_text_writes_numbers() {
    assert_eq!(decimal_text(0), "0");
    assert_eq!(decimal_text(7), "7");
    assert_eq!(decimal_text(10), "10");
    assert_eq!(decimal_text(907), "907");
    assert_eq!(decimal_text(u64::MAX), u64::MAX.to_string());
}

#[test]
fn mismatches_are_described() {
    assert_eq!(
        mismatch().describe(),
        "party status mismatch: party status is PartyStatus: Launched whilst needed status is PartyStatus: Passed1a"
    );
    assert_eq!(
        BallotNumberMismatch { party_ballot_number: 3, message_ballot_number: 42 }.describe(),
        "ballot number mismatch: party's ballot number is 3 whilst received 42 in the message"
    );
    assert_eq!(
        LeaderMismatch { party_leader: 1, message_sender: 20 }.describe(),
        "leader mismatch: party's leader is 1 whilst the message was sent by 20"
    );
    assert_eq!(
        ValueMismatch { party_value: Tag(1), message_value: Tag(2) }.describe(),
        "value mismatch: party's value is Tag(1) whilst received Tag(2) in the message"
    );
}

#[test]
fn coding_errors_are_described() {
    assert_eq!(DeserializationError::Message("m".to_string()).describe(), "message deserialization error: m");
    assert_eq!(DeserializationError::Value("v".to_string()).describe(), "value deserialization error: v");
    assert_eq!(SerializationError::Message("m".to_string()).describe(), "message serialization error: m");
    assert_eq!(SerializationError::Value("v".to_string()).describe(), "value serialization error: v");
}

#[test]
fn update_and_follow_errors_are_described() {
    assert_eq!(UpdateStateError::<Tag>::ValueVerificationFailed.describe(), "value verification failed");
    assert_eq!(UpdateStateError::<Tag>::UnknownSender(9).describe(), "unknown sender: party 9 has no weight");
    assert_eq!(
        UpdateStateError::<Tag>::from(LeaderMismatch { party_leader: 0, message_sender: 2 }).describe(),
        "leader mismatch: party's leader is 0 whilst the message was sent by 2"
    );
    assert_eq!(
        UpdateStateError::from(ValueMismatch { party_value: Tag(5), message_value: Tag(6) }).describe(),
        "value mismatch: party's value is Tag(5) whilst received Tag(6) in the message"
    );
    assert_eq!(FollowEventError::FailedToSendMessage("closed".to_string()).describe(), "closed");
    assert_eq!(
        FollowEventError::from(SerializationError::Value("bad".to_string())).describe(),
        "value serialization error: bad"
    );
}

#[test]
fn launch_errors_are_described() {
    assert_eq!(LaunchBallotError::EventChannelClosed.describe(), "event channel closed");
    assert_eq!(LaunchBallotError::MessageChannelClosed.describe(), "message channel closed");
    assert_eq!(
        LaunchBallotError::LeaderElectionError("zero weight sum".to_string()).describe(),
        "leader election error: zero weight sum"
    );
    assert_eq!(
        LaunchBallotError::FailedToSendEvent(PartyEvent::Launch1b, "gone".to_string()).describe(),
        "failed to send event PartyEvent: Launch1b: gone"
    );
    assert_eq!(
        LaunchBallotError::FollowEventError(PartyEvent::Launch2a, FollowEventError::from(mismatch()))
            .describe(),
        "failed to follow event PartyEvent: Launch2a: party status mismatch: party status is PartyStatus: Launched whilst needed status is PartyStatus: Passed1a"
    );
}
