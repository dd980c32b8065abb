use ai_vs_ai::session::{ConversationSession, ConversationTurn};
use ai_vs_ai::timestamp::Timestamp;

fn at(second: u32) -> Timestamp {
    Timestamp::new(2024, 5, 6, 7, 8, second).unwrap()
}

fn turn(round: usize, question: &str) -> ConversationTurn {
    ConversationTurn::at(
        round,
        question.to_string(),
        format!("answer to {question}"),
        format!("review of {question}"),
        at(round as u32 % 60),
    )
}

#[test]
fn a_new_session_is_empty() {
    let session = ConversationSession::started_at(at(0));
    assert!(session.is_empty());
    assert_eq!(session.len(), 0);
    assert_eq!(session.first_question(), None);
    assert!(session.turn(0).is_none());
    assert_eq!(session.start_time(), at(0));
}

#[test]
fn a_session_started_now_is_empty() {
    let session = ConversationSession::new();
    assert!(session.is_empty());
    assert!(session.start_time().year() >= 2024);
}

#[test]
fn turn_keeps_its_parts() {
    let t = ConversationTurn::at(3, "q".into(), "a".into(), "r".into(), at(9));
    assert_eq!(t.round(), 3);
    assert_eq!(t.user_question(), "q");
    assert_eq!(t.moonshot_answer(), "a");
    assert_eq!(t.deepseek_review(), "r");
    assert_eq!(t.timestamp(), at(9));
}

#[test]
fn turn_made_now_keeps_its_parts() {
    let t = ConversationTurn::new(1, "q".into(), "a".into(), "r".into());
    assert_eq!(t.round(), 1);
    assert_eq!(t.user_question(), "q");
    assert_eq!(t.moonshot_answer(), "a");
    assert_eq!(t.deepseek_review(), "r");
    assert!(t.timestamp().year() >= 2024);
}

#[test]
fn add_turn_appends_in_order() {
    let mut session = ConversationSession::started_at(at(0));
    assert!(session.add_turn(turn(1, "first")));
    assert!(session.add_turn(turn(2, "second")));
    assert!(session.add_turn(turn(3, "third")));
    assert_eq!(session.len(), 3);
    assert!(!session.is_empty());
    assert_eq!(session.first_question(), Some("first"));
    for n in 1..=3usize {
        assert_eq!(session.turn(n - 1).unwrap().round(), n);
    }
    assert_eq!(session.turn(1).unwrap().user_question(), "second");
    assert_eq!(session.turn(2).unwrap().deepseek_review(), "review of third");
    assert!(session.turn(3).is_none());
}

#[test]
fn add_turn_refuses_a_number_that_is_not_the_next() {
    let mut session = ConversationSession::started_at(at(0));
    assert!(!session.add_turn(turn(0, "zero")));
    assert!(!session.add_turn(turn(2, "two")));
    assert_eq!(session.len(), 0);
    assert!(session.add_turn(turn(1, "one")));
    assert!(!session.add_turn(turn(1, "one again")));
    assert!(!session.add_turn(turn(3, "three")));
    assert!(!session.add_turn(turn(usize::MAX, "far")));
    assert_eq!(session.len(), 1);
    assert_eq!(session.first_question(), Some("one"));
}
