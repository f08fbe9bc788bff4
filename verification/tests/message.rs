use bpcon::message::{
    Message1aContent, Message1bContent, Message2aContent, Message2avContent, Message2bContent,
    MessageContent, MessageRoundState, MessageRouting, ProtocolMessage,
};

#[test]
fn round_state_starts_empty() {
    let state = MessageRoundState::new();
    assert_eq!(state.get_weight(), 0);
    assert!(!state.contains_sender(&0));
    let default_state = MessageRoundState::default();
    assert_eq!(default_state.get_weight(), 0);
}

#[test]
fn round_state_accumulates_senders_and_weight() {
    let mut state = MessageRoundState::new();
    state.add_sender(1, 5);
    state.add_sender(2, 7);
    assert_eq!(state.get_weight(), 12);
    assert!(state.contains_sender(&1));
    assert!(state.contains_sender(&2));
    assert!(!state.contains_sender(&3));
}

#[test]
fn round_state_reset_clears_everything() {
    let mut state = MessageRoundState::new();
    state.add_sender(1, 5);
    state.reset();
    assert_eq!(state.get_weight(), 0);
    assert!(!state.contains_sender(&1));
}

#[test]
fn route_names_sender_and_kind() {
    let contents: Vec<(MessageContent<Vec<u8>>, ProtocolMessage)> = vec![
        (MessageContent::Msg1a(Message1aContent { ballot: 1 }), ProtocolMessage::Msg1a),
        (
            MessageContent::Msg1b(Message1bContent {
                ballot: 1,
                last_ballot_voted: None,
                last_value_voted: None,
            }),
            ProtocolMessage::Msg1b,
        ),
        (
            MessageContent::Msg2a(Message2aContent { ballot: 1, value: vec![1] }),
            ProtocolMessage::Msg2a,
        ),
        (
            MessageContent::Msg2av(Message2avContent { ballot: 1, received_value: vec![1] }),
            ProtocolMessage::Msg2av,
        ),
        (MessageContent::Msg2b(Message2bContent { ballot: 1 }), ProtocolMessage::Msg2b),
    ];
    for (content, kind) in contents {
        assert_eq!(content.route(7), MessageRouting { sender: 7, msg_type: kind });
    }
}

#[test]
fn round_state_clone_keeps_senders_and_weight() {
    let mut state = MessageRoundState::new();
    state.add_sender(1, 4);
    state.add_sender(3, 5);
    let copy = state.clone();
    assert_eq!(copy, state);
    assert!(copy.contains_sender(&1));
    assert!(copy.contains_sender(&3));
    assert!(!copy.contains_sender(&2));
    assert_eq!(copy.get_weight(), 9);
}
