//! The record of a run: the rounds that were completed, in order.

use crate::timestamp::{is_calendar_time, CalendarTime, Timestamp};
use vstd::prelude::*;

verus! {

/// What one completed round holds.
pub struct TurnView {
    pub round: nat,
    pub user_question: Seq<char>,
    pub moonshot_answer: Seq<char>,
    pub deepseek_review: Seq<char>,
    pub timestamp: CalendarTime,
}

/// One completed round: a question, the answer to it and the review of that
/// answer.
#[derive(Clone, Debug, PartialEq, Eq)]
pub struct ConversationTurn {
    round: usize,
    user_question: String,
    moonshot_answer: String,
    deepseek_review: String,
    timestamp: Timestamp,
}

impl View for ConversationTurn {
    type V = TurnView;

    closed spec fn view(&self) -> TurnView {
        TurnView {
            round: self.round as nat,
            user_question: self.user_question@,
            moonshot_answer: self.moonshot_answer@,
            deepseek_review: self.deepseek_review@,
            timestamp: self.timestamp@,
        }
    }
}

impl ConversationTurn {
    /// A round that was completed at the time the system clock shows now.
    pub fn new(
        round: usize,
        user_question: String,
        moonshot_answer: String,
        deepseek_review: String,
    ) -> (turn: ConversationTurn)
        ensures
            turn@.round == round,
            turn@.user_question == user_question@,
            turn@.moonshot_answer == moonshot_answer@,
            turn@.deepseek_review == deepseek_review@,
            is_calendar_time(turn@.timestamp),
    {
        ConversationTurn::at(
            round,
            user_question,
            moonshot_answer,
            deepseek_review,
            Timestamp::now(),
        )
    }

    /// A round that was completed at `timestamp`.
    pub fn at(
        round: usize,
        user_question: String,
        moonshot_answer: String,
        deepseek_review: String,
        timestamp: Timestamp,
    ) -> (turn: ConversationTurn)
        ensures
            turn@ == (TurnView {
                round: round as nat,
                user_question: user_question@,
                moonshot_answer: moonshot_answer@,
                deepseek_review: deepseek_review@,
                timestamp: timestamp@,
            }),
            is_calendar_time(turn@.timestamp),
    {
        proof {
            use_type_invariant(&timestamp);
        }
        ConversationTurn { round, user_question, moonshot_answer, deepseek_review, timestamp }
    }

    pub fn round(&self) -> (n: usize)
        ensures
            n == self@.round,
    {
        self.round
    }

    pub fn user_question(&self) -> (s: &str)
        ensures
            s@ == self@.user_question,
    {
        self.user_question.as_str()
    }

    pub fn moonshot_answer(&self) -> (s: &str)
        ensures
            s@ == self@.moonshot_answer,
    {
        self.moonshot_answer.as_str()
    }

    pub fn deepseek_review(&self) -> (s: &str)
        ensures
            s@ == self@.deepseek_review,
    {
        self.deepseek_review.as_str()
    }

    pub fn timestamp(&self) -> (t: Timestamp)
        ensures
            t@ == self@.timestamp,
            is_calendar_time(self@.timestamp),
    {
        proof {
            use_type_invariant(&self.timestamp);
        }
        self.timestamp
    }
}

/// What a session holds: when it began, and its rounds in the order in which
/// they were completed.
pub struct SessionView {
    pub start_time: CalendarTime,
    pub turns: Seq<TurnView>,
}

impl SessionView {
    /// The rounds are numbered from 1 without a gap, and every time is one
    /// that the calendar has.
    pub open spec fn well_formed(self) -> bool {
        &&& is_calendar_time(self.start_time)
        &&& forall|i: int|
            0 <= i < self.turns.len() ==> (#[trigger] self.turns[i]).round == i + 1
        &&& forall|i: int|
            0 <= i < self.turns.len() ==> is_calendar_time((#[trigger] self.turns[i]).timestamp)
    }

    /// The number that the next round gets.
    pub open spec fn next_round(self) -> nat {
        self.turns.len() + 1
    }

    /// The session with `turn` as its last round.
    pub open spec fn with_turn(self, turn: TurnView) -> SessionView {
        SessionView { start_time: self.start_time, turns: self.turns.push(turn) }
    }

    /// Whether `turn` can follow the rounds of this session.
    pub open spec fn accepts(self, turn: TurnView) -> bool {
        turn.round == self.next_round()
    }
}

/// The rounds completed since the program started.
#[derive(Debug, PartialEq, Eq)]
pub struct ConversationSession {
    turns: Vec<ConversationTurn>,
    start_time: Timestamp,
}

impl View for ConversationSession {
    type V = SessionView;

    closed spec fn view(&self) -> SessionView {
        SessionView {
            start_time: self.start_time@,
            turns: self.turns@.map_values(|t: ConversationTurn| t@),
        }
    }
}

impl ConversationSession {
    /// Every session is well formed.
    #[verifier::type_invariant]
    pub open spec fn valid(self) -> bool {
        self@.well_formed()
    }

    /// An empty session that begins at the time the system clock shows now.
    pub fn new() -> (session: ConversationSession)
        ensures
            session@.turns.len() == 0,
            session@.well_formed(),
    {
        ConversationSession::started_at(Timestamp::now())
    }

    /// An empty session that began at `start_time`.
    pub fn started_at(start_time: Timestamp) -> (session: ConversationSession)
        ensures
            session@ == (SessionView { start_time: start_time@, turns: Seq::empty() }),
            session@.well_formed(),
    {
        proof {
            use_type_invariant(&start_time);
        }
        let session = ConversationSession { turns: Vec::new(), start_time };
        assert(session@.turns =~= Seq::empty());
        session
    }

    /// Appends `turn` if its number is the next one, and says whether it did.
    pub fn add_turn(&mut self, turn: ConversationTurn) -> (added: bool)
        ensures
            added == old(self)@.accepts(turn@),
            added ==> final(self)@ == old(self)@.with_turn(turn@),
            !added ==> final(self)@ == old(self)@,
            final(self)@.well_formed(),
    {
        proof {
            use_type_invariant(&*self);
            use_type_invariant(&turn.timestamp);
        }
        if turn.round == 0 || turn.round - 1 != self.turns.len() {
            return false;
        }
        let ghost before = self@;
        let mut turns: Vec<ConversationTurn> = Vec::new();
        std::mem::swap(&mut turns, &mut self.turns);
        turns.push(turn);
        assert(turns@.map_values(|t: ConversationTurn| t@) =~= before.turns.push(turn@));
        self.turns = turns;
        true
    }

    pub fn is_empty(&self) -> (b: bool)
        ensures
            b == (self@.turns.len() == 0),
    {
        self.turns.len() == 0
    }

    pub fn len(&self) -> (n: usize)
        ensures
            n == self@.turns.len(),
            self@.well_formed(),
    {
        proof {
            use_type_invariant(self);
        }
        self.turns.len()
    }

    /// The question of the first round, if there is one.
    pub fn first_question(&self) -> (q: Option<&str>)
        ensures
            self@.turns.len() == 0 ==> q is None,
            self@.turns.len() > 0 ==> (q matches Some(s) && s@ == self@.turns[0].user_question),
    {
        if self.turns.len() == 0 {
            None
        } else {
            Some(self.turns[0].user_question())
        }
    }

    /// The round at position `index`, counted from 0.
    pub fn turn(&self, index: usize) -> (t: Option<&ConversationTurn>)
        ensures
            index >= self@.turns.len() ==> t is None,
            index < self@.turns.len() ==> (t matches Some(turn) && turn@ == self@.turns[
                index as int
            ]),
    {
        if index < self.turns.len() {
            Some(&self.turns[index])
        } else {
            None
        }
    }

    pub fn start_time(&self) -> (t: Timestamp)
        ensures
            t@ == self@.start_time,
    {
        self.start_time
    }
}

} // verus!
