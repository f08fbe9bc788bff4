use bpcon::config::BPConConfig;
use bpcon::error::{DeserializationError, FollowEventError, LaunchBallotError, UpdateStateError};
use bpcon::leader::{DefaultLeaderElector, LeaderElector};
use bpcon::message::{
    Message1aContent, Message1bContent, Message2aContent, Message2avContent, Message2bContent,
    MessageContent, MessageRouting, ProtocolMessage,
};
use bpcon::party::{MessageOutcome, Party, PartyEvent, PartyStatus, Received};
use bpcon::value::{Value, ValueSelector};
use std::collections::HashMap;

#[derive(Clone, PartialEq, Eq, Debug, Default)]
struct MockValue(u64);

impl Value for MockValue {}

impl std::fmt::Display for MockValue {
    fn fmt(&self, f: &mut std::fmt::Formatter<'_>) -> std::fmt::Result {
        f.write_str(&format!("MockValue({})", self.0))
    }
}

#[derive(Clone, Default)]
struct MockValueSelector;

impl ValueSelector<MockValue> for MockValueSelector {
    fn verify(&self, _: &MockValue, _: &HashMap<u64, Option<MockValue>>) -> bool {
        true
    }

    fn select(&self, _: &HashMap<u64, Option<MockValue>>) -> MockValue {
        MockValue(1)
    }
}

#[derive(Clone, Default)]
struct RejectingSelector;

impl ValueSelector<MockValue> for RejectingSelector {
    fn verify(&self, _: &MockValue, _: &HashMap<u64, Option<MockValue>>) -> bool {
        false
    }

    fn select(&self, m: &HashMap<u64, Option<MockValue>>) -> MockValue {
        MockValue(m.len() as u64)
    }
}

struct FixedElector(Result<u64, String>);

impl LeaderElector<MockValue, MockValueSelector> for FixedElector {
    fn elect_leader(&self, _: &Party<MockValue, MockValueSelector>) -> Result<u64, String> {
        self.0.clone()
    }
}

type MockParty = Party<MockValue, MockValueSelector>;

fn mock_party() -> MockParty {
    Party::new(0, BPConConfig::default(), MockValueSelector)
}

type Content = MessageContent<Result<MockValue, DeserializationError>>;

fn send(party: &mut MockParty, content: Content, sender: u64) -> Result<(), UpdateStateError<MockValue>> {
    let routing = content.route(sender);
    party.update_state(routing, Ok(content))
}

fn msg1b(ballot: u64) -> Content {
    MessageContent::Msg1b(Message1bContent {
        ballot,
        last_ballot_voted: None,
        last_value_voted: Some(Ok(MockValue::default())),
    })
}

fn msg2av(ballot: u64, value: MockValue) -> Content {
    MessageContent::Msg2av(Message2avContent { ballot, received_value: Ok(value) })
}

#[test]
fn test_update_state_msg1a() {
    // The leader sends its 1a message to another participant.
    let mut party = MockParty { status: PartyStatus::Launched, id: 0, leader: 1, ..mock_party() };
    let content: Content = MessageContent::Msg1a(Message1aContent { ballot: party.ballot });
    let leader = party.leader;

    send(&mut party, content, leader).unwrap();

    assert_eq!(party.status, PartyStatus::Passed1a);
}

#[test]
fn test_update_state_msg1b() {
    let mut party = MockParty { status: PartyStatus::Passed1a, ..mock_party() };

    let content = msg1b(party.ballot);

    // First, a 1b message from party 1.
    send(&mut party, content.clone(), 1).unwrap();

    // Then, a 1b message from party 2.
    send(&mut party, content, 2).unwrap();

    // 1 (own) + 1 (party 1) + 1 (party 2) = 3, which reaches the threshold.
    assert_eq!(party.status, PartyStatus::Passed1b);
}

#[test]
fn test_update_state_msg2a() {
    let mut party = MockParty { status: PartyStatus::Passed1b, ..mock_party() };

    let content: Content = MessageContent::Msg2a(Message2aContent {
        ballot: party.ballot,
        value: Ok(MockValue::default()),
    });
    let leader = party.leader;
    send(&mut party, content, leader).unwrap();

    assert_eq!(party.status, PartyStatus::Passed2a);
}

#[test]
fn test_update_state_msg2av() {
    let value_to_verify = MockValue::default();
    let mut party = MockParty {
        status: PartyStatus::Passed2a,
        value_2a: Some(value_to_verify.clone()),
        ..mock_party()
    };

    let content = msg2av(party.ballot, value_to_verify.clone());

    // First, a 2av message from party 1.
    send(&mut party, content.clone(), 1).unwrap();

    // Then, a 2av message from party 2.
    send(&mut party, content, 2).unwrap();

    // 1 (own) + 1 (party 1) + 1 (party 2) = 3, which reaches the threshold.
    assert_eq!(party.status, PartyStatus::Passed2av);
}

#[test]
fn test_update_state_msg2b() {
    let mut party = MockParty { status: PartyStatus::Passed2av, ..mock_party() };

    // Parties 1 and 2 have already sent 2av messages.
    party.messages_2av_state.add_sender(1, 1);
    party.messages_2av_state.add_sender(2, 1);

    let content = || -> Content { MessageContent::Msg2b(Message2bContent { ballot: 0 }) };

    // First, a 2b message from party 1.
    send(&mut party, content(), 1).unwrap();

    // Then, a 2b message from party 2.
    send(&mut party, content(), 2).unwrap();

    // 1 (own) + 1 (party 1) + 1 (party 2) = 3, which reaches the threshold.
    assert_eq!(party.status, PartyStatus::Passed2b);
}

#[test]
fn test_follow_event_launch1a() {
    let mut party = MockParty::new(0, BPConConfig::default(), MockValueSelector);

    party.status = PartyStatus::Launched;
    party.leader = party.id;

    party.follow_event(PartyEvent::Launch1a).unwrap();

    // The leader in the Launched state sends its 1a message and passes 1a
    // itself; the other participants pass 1a on receiving it.
    assert_eq!(party.status, PartyStatus::Passed1a);
}

#[test]
fn new_party_is_idle() {
    let party = mock_party();
    assert_eq!(party.status, PartyStatus::Idle);
    assert_eq!(party.ballot(), 0);
    assert_eq!(party.leader, 0);
    assert!(!party.is_launched());
    assert!(!party.is_stopped());
    assert_eq!(party.get_value_selected(), None);
}

#[test]
fn launched_and_stopped_statuses() {
    let mut party = mock_party();
    party.status = PartyStatus::Passed2a;
    assert!(party.is_launched());
    assert!(!party.is_stopped());
    party.status = PartyStatus::Finished;
    assert!(!party.is_launched());
    assert!(party.is_stopped());
    party.fail();
    assert_eq!(party.status, PartyStatus::Failed);
    assert!(party.is_stopped());
}

#[test]
fn value_selected_only_when_finished() {
    let mut party = MockParty { status: PartyStatus::Passed2b, value_2a: Some(MockValue(4)), ..mock_party() };
    assert_eq!(party.get_value_selected(), None);
    party.follow_event(PartyEvent::Finalize).unwrap();
    assert_eq!(party.status, PartyStatus::Finished);
    assert_eq!(party.get_value_selected(), Some(MockValue(4)));
}

#[test]
fn status_mismatch_is_refused_without_change() {
    let mut party = MockParty { status: PartyStatus::Launched, ..mock_party() };
    let err = send(&mut party, msg1b(0), 1).unwrap_err();
    match err {
        UpdateStateError::PartyStatusMismatch(e) => {
            assert_eq!(e.party_status, PartyStatus::Launched);
            assert_eq!(e.needed_status, PartyStatus::Passed1a);
        }
        other => panic!("unexpected error {:?}", other),
    }
    assert_eq!(party.status, PartyStatus::Launched);
    assert!(party.parties_voted_before.is_empty());
}

#[test]
fn ballot_mismatch_is_refused() {
    let mut party = MockParty { status: PartyStatus::Launched, leader: 1, ..mock_party() };
    let content: Content = MessageContent::Msg1a(Message1aContent { ballot: 5 });
    match send(&mut party, content, 1).unwrap_err() {
        UpdateStateError::BallotNumberMismatch(e) => {
            assert_eq!(e.party_ballot_number, 0);
            assert_eq!(e.message_ballot_number, 5);
        }
        other => panic!("unexpected error {:?}", other),
    }
    assert_eq!(party.status, PartyStatus::Launched);
}

#[test]
fn late_last_ballot_voted_is_refused() {
    let mut party = MockParty { status: PartyStatus::Passed1a, ballot: 3, ..mock_party() };
    let content: Content = MessageContent::Msg1b(Message1bContent {
        ballot: 3,
        last_ballot_voted: Some(3),
        last_value_voted: None,
    });
    match send(&mut party, content, 1).unwrap_err() {
        UpdateStateError::BallotNumberMismatch(e) => {
            assert_eq!(e.party_ballot_number, 3);
            assert_eq!(e.message_ballot_number, 3);
        }
        other => panic!("unexpected error {:?}", other),
    }
    assert!(party.parties_voted_before.is_empty());
}

#[test]
fn message_from_non_leader_is_refused() {
    let mut party = MockParty { status: PartyStatus::Launched, leader: 2, ..mock_party() };
    let content: Content = MessageContent::Msg1a(Message1aContent { ballot: 0 });
    match send(&mut party, content, 3).unwrap_err() {
        UpdateStateError::LeaderMismatch(e) => {
            assert_eq!(e.party_leader, 2);
            assert_eq!(e.message_sender, 3);
        }
        other => panic!("unexpected error {:?}", other),
    }
    assert_eq!(party.status, PartyStatus::Launched);
}

#[test]
fn undecodable_contents_are_refused() {
    let mut party = MockParty { status: PartyStatus::Launched, ..mock_party() };
    let routing = MessageRouting { sender: 0, msg_type: ProtocolMessage::Msg1a };
    let received: Received<MockValue> = Err(DeserializationError::Message("bad".to_string()));
    match party.update_state(routing, received).unwrap_err() {
        UpdateStateError::DeserializationError(DeserializationError::Message(m)) => assert_eq!(m, "bad"),
        other => panic!("unexpected error {:?}", other),
    }
}

#[test]
fn undecodable_value_of_new_1b_sender_is_refused() {
    let mut party = MockParty { status: PartyStatus::Passed1a, ..mock_party() };
    let content: Content = MessageContent::Msg1b(Message1bContent {
        ballot: 0,
        last_ballot_voted: None,
        last_value_voted: Some(Err(DeserializationError::Value("v".to_string()))),
    });
    assert!(matches!(
        send(&mut party, content, 1),
        Err(UpdateStateError::DeserializationError(DeserializationError::Value(_)))
    ));
    assert!(party.parties_voted_before.is_empty());
    assert_eq!(party.messages_1b_weight, 0);
}

#[test]
fn repeated_1b_sender_counts_once() {
    let mut party = MockParty { status: PartyStatus::Passed1a, ..mock_party() };
    send(&mut party, msg1b(0), 1).unwrap();
    send(&mut party, msg1b(0), 1).unwrap();
    assert_eq!(party.messages_1b_weight, 1);
    assert_eq!(party.status, PartyStatus::Passed1a);
    assert_eq!(party.parties_voted_before.get(&1), Some(&Some(MockValue::default())));
}

#[test]
fn rejected_proposal_changes_nothing() {
    let mut party: Party<MockValue, RejectingSelector> =
        Party { status: PartyStatus::Passed1b, ..Party::new(0, BPConConfig::default(), RejectingSelector) };
    let content: Content = MessageContent::Msg2a(Message2aContent { ballot: 0, value: Ok(MockValue(9)) });
    let routing = content.route(0);
    assert!(matches!(party.update_state(routing, Ok(content)), Err(UpdateStateError::ValueVerificationFailed)));
    assert_eq!(party.status, PartyStatus::Passed1b);
    assert_eq!(party.value_2a, None);
}

#[test]
fn accept_proposal_follows_verdict() {
    let mut party = MockParty { status: PartyStatus::Passed1b, ..mock_party() };
    assert!(matches!(
        party.accept_proposal(MockValue(3), false),
        Err(UpdateStateError::ValueVerificationFailed)
    ));
    assert_eq!(party.status, PartyStatus::Passed1b);
    party.accept_proposal(MockValue(3), true).unwrap();
    assert_eq!(party.status, PartyStatus::Passed2a);
    assert_eq!(party.value_2a, Some(MockValue(3)));
}

#[test]
fn mismatching_2av_value_is_refused() {
    let mut party =
        MockParty { status: PartyStatus::Passed2a, value_2a: Some(MockValue(1)), ..mock_party() };
    match send(&mut party, msg2av(0, MockValue(2)), 1).unwrap_err() {
        UpdateStateError::ValueMismatch(e) => {
            assert_eq!(e.party_value, MockValue(1));
            assert_eq!(e.message_value, MockValue(2));
        }
        other => panic!("unexpected error {:?}", other),
    }
    assert!(!party.messages_2av_state.contains_sender(&1));
}

#[test]
fn confirm_value_follows_comparison() {
    let mut party =
        MockParty { status: PartyStatus::Passed2a, value_2a: Some(MockValue(1)), ..mock_party() };
    assert!(matches!(
        party.confirm_value(1, MockValue(1), true),
        Err(UpdateStateError::ValueMismatch(_))
    ));
    party.confirm_value(1, MockValue(1), false).unwrap();
    assert_eq!(party.messages_2av_state.get_weight(), 1);
    party.confirm_value(1, MockValue(1), false).unwrap();
    assert_eq!(party.messages_2av_state.get_weight(), 1);
    assert_eq!(party.status, PartyStatus::Passed2a);
}

#[test]
fn msg2b_from_party_without_2av_is_not_counted() {
    let mut party = MockParty { status: PartyStatus::Passed2av, ..mock_party() };
    let content: Content = MessageContent::Msg2b(Message2bContent { ballot: 0 });
    send(&mut party, content, 3).unwrap();
    assert_eq!(party.messages_2b_state.get_weight(), 0);
    assert_eq!(party.status, PartyStatus::Passed2av);
}

#[test]
fn weighted_quorum_needs_enough_weight() {
    let cfg = BPConConfig::with_default_timeouts(vec![1, 5, 1, 1], 6);
    let mut party = MockParty { status: PartyStatus::Passed1a, ..Party::new(0, cfg, MockValueSelector) };
    send(&mut party, msg1b(0), 2).unwrap();
    assert_eq!(party.status, PartyStatus::Passed1a);
    send(&mut party, msg1b(0), 3).unwrap();
    assert_eq!(party.status, PartyStatus::Passed1a);
    send(&mut party, msg1b(0), 1).unwrap();
    assert_eq!(party.messages_1b_weight, 7);
    assert_eq!(party.status, PartyStatus::Passed1b);
}

#[test]
fn weighs_and_knows_own_weight() {
    let mut party = MockParty { status: PartyStatus::Passed1a, ..mock_party() };
    let received: Received<MockValue> = Ok(msg1b(0));
    let routing = MessageRouting { sender: 3, msg_type: ProtocolMessage::Msg1b };
    assert!(party.weighs(routing, &received));
    let unknown = MessageRouting { sender: 9, msg_type: ProtocolMessage::Msg1b };
    assert!(!party.weighs(unknown, &received));
    assert!(party.knows_own_weight());
    party.id = 7;
    assert!(!party.knows_own_weight());
    party.id = 0;
    party.status = PartyStatus::Launched;
    assert!(!party.weighs(routing, &received));
}

#[test]
fn unknown_senders_are_refused() {
    let mut party = MockParty { status: PartyStatus::Passed1a, ..mock_party() };
    assert!(matches!(send(&mut party, msg1b(0), 9), Err(UpdateStateError::UnknownSender(9))));
    assert!(party.parties_voted_before.is_empty());
    assert_eq!(party.messages_1b_weight, 0);

    let mut party =
        MockParty { status: PartyStatus::Passed2a, value_2a: Some(MockValue(1)), ..mock_party() };
    assert!(matches!(
        send(&mut party, msg2av(0, MockValue(1)), 42),
        Err(UpdateStateError::UnknownSender(42))
    ));
    assert_eq!(party.messages_2av_state.get_weight(), 0);
    assert_eq!(party.status, PartyStatus::Passed2a);
}

#[test]
fn launch2b_records_the_vote() {
    let mut party = MockParty {
        status: PartyStatus::Passed2av,
        ballot: 4,
        value_2a: Some(MockValue(6)),
        ..mock_party()
    };
    party.follow_event(PartyEvent::Launch2b).unwrap();
    assert_eq!(party.last_ballot_voted, Some(4));
    assert_eq!(party.last_value_voted, Some(MockValue(6)));
    // The next ballot's 1b message reports the vote.
    party.status = PartyStatus::Passed1a;
    party.ballot = 5;
    match party.follow_event(PartyEvent::Launch1b).unwrap() {
        Some(MessageContent::Msg1b(m)) => {
            assert_eq!(m.last_ballot_voted, Some(4));
            assert_eq!(m.last_value_voted, Some(MockValue(6)));
        }
        other => panic!("unexpected message {:?}", other),
    }
}

#[test]
fn statuses_and_events_have_text() {
    assert_eq!(PartyStatus::Idle.describe(), "PartyStatus: Idle");
    assert_eq!(PartyStatus::Passed2av.describe(), "PartyStatus: Passed2av");
    assert_eq!(PartyEvent::Finalize.describe(), "PartyEvent: Finalize");
    assert_eq!(ProtocolMessage::Msg1b.describe(), "ProtocolMessage: Msg1b");
}

#[test]
fn follow_event_launch1a_by_non_leader_sends_nothing() {
    let mut party = MockParty { status: PartyStatus::Launched, leader: 2, ..mock_party() };
    assert!(party.follow_event(PartyEvent::Launch1a).unwrap().is_none());
    assert_eq!(party.status, PartyStatus::Launched);
}

#[test]
fn follow_event_messages() {
    let mut party = MockParty { status: PartyStatus::Passed1a, ballot: 7, ..mock_party() };
    match party.follow_event(PartyEvent::Launch1b).unwrap() {
        Some(MessageContent::Msg1b(m)) => {
            assert_eq!(m.ballot, 7);
            assert_eq!(m.last_ballot_voted, None);
            assert_eq!(m.last_value_voted, None);
        }
        other => panic!("unexpected message {:?}", other),
    }
    party.status = PartyStatus::Passed1b;
    match party.follow_event(PartyEvent::Launch2a).unwrap() {
        Some(MessageContent::Msg2a(m)) => {
            assert_eq!(m.ballot, 7);
            assert_eq!(m.value, MockValue(1));
        }
        other => panic!("unexpected message {:?}", other),
    }
    assert_eq!(party.status, PartyStatus::Passed2a);
    assert_eq!(party.value_2a, Some(MockValue(1)));
    match party.follow_event(PartyEvent::Launch2av).unwrap() {
        Some(MessageContent::Msg2av(m)) => {
            assert_eq!(m.ballot, 7);
            assert_eq!(m.received_value, MockValue(1));
        }
        other => panic!("unexpected message {:?}", other),
    }
    party.status = PartyStatus::Passed2av;
    assert!(matches!(
        party.follow_event(PartyEvent::Launch2b).unwrap(),
        Some(MessageContent::Msg2b(Message2bContent { ballot: 7 }))
    ));
}

#[test]
fn finalize_mismatch_reports_passed2av() {
    let mut party = MockParty { status: PartyStatus::Passed2av, ..mock_party() };
    match party.follow_event(PartyEvent::Finalize).unwrap_err() {
        FollowEventError::PartyStatusMismatch(e) => {
            assert_eq!(e.party_status, PartyStatus::Passed2av);
            assert_eq!(e.needed_status, PartyStatus::Passed2av);
        }
        other => panic!("unexpected error {:?}", other),
    }
    assert_eq!(party.status, PartyStatus::Passed2av);
}

#[test]
fn failed_event_fails_the_ballot() {
    let mut party = MockParty { status: PartyStatus::Launched, ..mock_party() };
    match party.receive_event(PartyEvent::Launch2b).unwrap_err() {
        LaunchBallotError::FollowEventError(event, FollowEventError::PartyStatusMismatch(e)) => {
            assert_eq!(event, PartyEvent::Launch2b);
            assert_eq!(e.needed_status, PartyStatus::Passed2av);
        }
        other => panic!("unexpected error {:?}", other),
    }
    assert_eq!(party.status, PartyStatus::Failed);
}

#[test]
fn own_and_repeated_messages_are_ignored() {
    let mut party = MockParty { status: PartyStatus::Passed1a, ..mock_party() };
    let own = party.receive_message(MessageRouting { sender: 0, msg_type: ProtocolMessage::Msg1b }, Ok(msg1b(0)));
    assert!(matches!(own, MessageOutcome::OwnMessage));
    assert_eq!(party.messages_1b_weight, 0);

    let first = party.receive_message(MessageRouting { sender: 1, msg_type: ProtocolMessage::Msg1b }, Ok(msg1b(0)));
    assert!(matches!(first, MessageOutcome::Processed(Ok(()))));
    let again = party.receive_message(MessageRouting { sender: 1, msg_type: ProtocolMessage::Msg1b }, Ok(msg1b(0)));
    assert!(matches!(again, MessageOutcome::RateLimited));

    // A refused message also uses up the sender's allowance for its kind.
    let refused = party.receive_message(
        MessageRouting { sender: 2, msg_type: ProtocolMessage::Msg2b },
        Ok(MessageContent::Msg2b(Message2bContent { ballot: 0 })),
    );
    assert!(matches!(refused, MessageOutcome::Processed(Err(UpdateStateError::PartyStatusMismatch(_)))));
    let refused_again = party.receive_message(
        MessageRouting { sender: 2, msg_type: ProtocolMessage::Msg2b },
        Ok(MessageContent::Msg2b(Message2bContent { ballot: 0 })),
    );
    assert!(matches!(refused_again, MessageOutcome::RateLimited));
}

#[test]
fn prepare_next_ballot_resets_rounds() {
    let mut party = MockParty { status: PartyStatus::Passed1a, ..mock_party() };
    send(&mut party, msg1b(0), 1).unwrap();
    party.receive_message(MessageRouting { sender: 2, msg_type: ProtocolMessage::Msg1b }, Ok(msg1b(0)));
    party.prepare_next_ballot(&FixedElector(Ok(3))).unwrap();
    assert_eq!(party.ballot(), 1);
    assert_eq!(party.status, PartyStatus::Launched);
    assert_eq!(party.leader, 3);
    assert!(party.parties_voted_before.is_empty());
    assert_eq!(party.messages_1b_weight, 0);
    assert_eq!(party.value_2a, None);
    assert!(!party.rate_limiter.contains(ProtocolMessage::Msg1b, 2));
}

#[test]
fn failed_election_is_reported() {
    let mut party = MockParty { leader: 2, ..mock_party() };
    match party.prepare_next_ballot(&FixedElector(Err("no leader".to_string()))).unwrap_err() {
        LaunchBallotError::LeaderElectionError(e) => assert_eq!(e, "no leader"),
        other => panic!("unexpected error {:?}", other),
    }
    assert_eq!(party.ballot(), 1);
    assert_eq!(party.status, PartyStatus::Launched);
    assert_eq!(party.leader, 2);
}

#[test]
fn default_elector_elects_a_party_for_next_ballot() {
    let mut party = mock_party();
    party.prepare_next_ballot(&DefaultLeaderElector::new()).unwrap();
    assert!(party.leader < 4);
    let elected = DefaultLeaderElector::new().elect_leader(&party).unwrap();
    assert_eq!(party.leader, elected);
}

#[test]
fn whole_ballot_as_leader() {
    let mut party = mock_party();
    party.prepare_next_ballot(&FixedElector(Ok(0))).unwrap();
    assert!(matches!(party.follow_event(PartyEvent::Launch1a).unwrap(), Some(MessageContent::Msg1a(_))));
    assert_eq!(party.status, PartyStatus::Passed1a);
    for sender in 1..3 {
        send(&mut party, msg1b(1), sender).unwrap();
    }
    assert_eq!(party.status, PartyStatus::Passed1b);
    party.follow_event(PartyEvent::Launch2a).unwrap();
    assert_eq!(party.status, PartyStatus::Passed2a);
    for sender in 1..3 {
        send(&mut party, msg2av(1, MockValue(1)), sender).unwrap();
    }
    assert_eq!(party.status, PartyStatus::Passed2av);
    for sender in 1..3 {
        let content: Content = MessageContent::Msg2b(Message2bContent { ballot: 1 });
        send(&mut party, content, sender).unwrap();
    }
    assert_eq!(party.status, PartyStatus::Passed2b);
    party.follow_event(PartyEvent::Finalize).unwrap();
    assert_eq!(party.get_value_selected(), Some(MockValue(1)));
}

#[test]
fn mismatch_is_refused_without_own_weight() {
    // Party 7 has no weight in the configuration; a 2av message whose value
    // differs from its 2a value is still answered with the mismatch.
    let mut party = MockParty {
        id: 7,
        status: PartyStatus::Passed2a,
        value_2a: Some(MockValue(1)),
        ..mock_party()
    };
    assert!(!party.knows_own_weight());
    let r = send(&mut party, msg2av(0, MockValue(2)), 1);
    match r {
        Err(UpdateStateError::ValueMismatch(e)) => {
            assert_eq!(e.party_value, MockValue(1));
            assert_eq!(e.message_value, MockValue(2));
        }
        other => panic!("unexpected result: {:?}", other.is_ok()),
    }
    assert_eq!(party.status, PartyStatus::Passed2a);
    assert!(party.messages_2av_state.get_weight() == 0);
}

#[test]
fn parties_confirming_one_value_agree() {
    // Two parties hold the 2a value that the same parties confirmed to both:
    // each passes the 2av stage with that value.
    let value = MockValue(5);
    let mut first = MockParty { status: PartyStatus::Passed2a, value_2a: Some(value.clone()), ..mock_party() };
    let mut second = MockParty {
        id: 1,
        status: PartyStatus::Passed2a,
        value_2a: Some(value.clone()),
        ..mock_party()
    };
    for sender in [2u64, 3] {
        send(&mut first, msg2av(0, value.clone()), sender).unwrap();
        send(&mut second, msg2av(0, value.clone()), sender).unwrap();
    }
    assert_eq!(first.status, PartyStatus::Passed2av);
    assert_eq!(second.status, PartyStatus::Passed2av);
    assert_eq!(first.value_2a, second.value_2a);
}

#[test]
fn own_confirmation_is_not_counted() {
    let mut party = MockParty { status: PartyStatus::Passed2a, value_2a: Some(MockValue(1)), ..mock_party() };
    let own = msg2av(0, MockValue(1));
    let routing = own.route(party.id);
    let outcome = party.receive_message(routing, Ok(own));
    assert!(matches!(outcome, MessageOutcome::OwnMessage));
    assert!(!party.messages_2av_state.contains_sender(&party.id));
    assert_eq!(party.messages_2av_state.get_weight(), 0);
}

#[test]
fn agreement_survives_an_equivocating_party() {
    // Party 3 sends value 5 to party 0 and value 6 to party 1; party 1
    // refuses the mismatch, and both parties still confirm value 5.
    let value = MockValue(5);
    let mut first = MockParty { status: PartyStatus::Passed2a, value_2a: Some(value.clone()), ..mock_party() };
    let mut second = MockParty {
        id: 1,
        status: PartyStatus::Passed2a,
        value_2a: Some(value.clone()),
        ..mock_party()
    };
    send(&mut first, msg2av(0, value.clone()), 3).unwrap();
    assert!(matches!(
        send(&mut second, msg2av(0, MockValue(6)), 3),
        Err(UpdateStateError::ValueMismatch(_))
    ));
    send(&mut first, msg2av(0, value.clone()), 2).unwrap();
    send(&mut second, msg2av(0, value.clone()), 2).unwrap();
    send(&mut second, msg2av(0, value.clone()), 0).unwrap();
    assert_eq!(first.status, PartyStatus::Passed2av);
    assert_eq!(second.status, PartyStatus::Passed2av);
    assert_eq!(first.value_2a, second.value_2a);
}
