//! The order of a round: a question is read, the first provider answers it,
//! the second reviews the answer, and only then the round is recorded.
//!
//! The orchestrator decides; its caller reads lines, sends requests and
//! writes files, and reports back what happened.

use crate::chat::{
    call_for, completion, message_views, prepare_call, read_reply, ApiError,
    ApiErrorView, ChatMessage, ChatMessageView, HttpCall, HttpCallView, HttpOutcome,
    HttpOutcomeView, Role,
};
use crate::config::{AiConfig, AiConfigView, Provider};
use crate::export::{export_at, export_of, ExportFile, ExportFileView};
use crate::session::{ConversationSession, ConversationTurn, SessionView, TurnView};
use crate::text::{eq_ignore_ascii_case, equals_ignoring_ascii_case, trim, trimmed};
use crate::timestamp::{is_calendar_time, CalendarTime, Timestamp};
use vstd::prelude::*;
use vstd::string::StringExecFns;

verus! {

/// The context that the answering provider gets for `question`.
pub open spec fn answer_context(question: Seq<char>) -> Seq<ChatMessageView> {
    seq![
        ChatMessageView { role: Role::System, content: "You are a helpful AI assistant."@ },
        ChatMessageView { role: Role::User, content: question },
    ]
}

/// What the reviewing provider is asked: the question and the answer, word
/// for word, and the request to review the answer in Chinese.
pub open spec fn review_prompt_text(question: Seq<char>, answer: Seq<char>) -> Seq<char> {
    "The user asked: \""@ + question
        + "\"\n\nAnother AI assistant provided the following answer:\n\""@ + answer
        + "\"\n\nPlease review this answer. Point out any errors, hallucinations, or missing information. If the code is provided, check for bugs. If the answer is perfect, verify it.\n\nIMPORTANT: Please provide your review entirely in Chinese."@
}

/// The context that the reviewing provider gets for `question` and `answer`.
pub open spec fn review_context(question: Seq<char>, answer: Seq<char>) -> Seq<ChatMessageView> {
    seq![
        ChatMessageView {
            role: Role::System,
            content: "You are an expert at technical review. Your goal is to verify the accuracy and quality of answers provided by other AI models. You must output your review in Chinese."@,
        },
        ChatMessageView { role: Role::User, content: review_prompt_text(question, answer) },
    ]
}

/// Builds the context that the answering provider gets for `question`.
pub fn answer_messages(question: &str) -> (messages: Vec<ChatMessage>)
    ensures
        message_views(messages@) == answer_context(question@),
{
    let mut messages: Vec<ChatMessage> = Vec::new();
    messages.push(
        ChatMessage { role: Role::System, content: "You are a helpful AI assistant.".to_owned() },
    );
    messages.push(ChatMessage { role: Role::User, content: question.to_owned() });
    assert(message_views(messages@) =~= answer_context(question@));
    messages
}

/// Builds what the reviewing provider is asked about `question` and `answer`.
pub fn review_prompt(question: &str, answer: &str) -> (prompt: String)
    ensures
        prompt@ == review_prompt_text(question@, answer@),
{
    let mut prompt = "The user asked: \"".to_owned();
    prompt.append(question);
    prompt.append("\"\n\nAnother AI assistant provided the following answer:\n\"");
    prompt.append(answer);
    prompt.append(
        "\"\n\nPlease review this answer. Point out any errors, hallucinations, or missing information. If the code is provided, check for bugs. If the answer is perfect, verify it.\n\nIMPORTANT: Please provide your review entirely in Chinese.",
    );
    prompt
}

/// Builds the context that the reviewing provider gets for `question` and
/// `answer`.
pub fn review_messages(question: &str, answer: &str) -> (messages: Vec<ChatMessage>)
    ensures
        message_views(messages@) == review_context(question@, answer@),
{
    let mut messages: Vec<ChatMessage> = Vec::new();
    messages.push(
        ChatMessage {
            role: Role::System,
            content: "You are an expert at technical review. Your goal is to verify the accuracy and quality of answers provided by other AI models. You must output your review in Chinese.".to_owned(),
        },
    );
    messages.push(ChatMessage { role: Role::User, content: review_prompt(question, answer) });
    assert(message_views(messages@) =~= review_context(question@, answer@));
    messages
}

pub enum LineReadView {
    Line(Seq<char>),
    EndOfInput,
    Interrupted,
    Failed(Seq<char>),
}

/// How the reading of a line ended.
#[derive(Clone, Debug, PartialEq, Eq)]
pub enum LineRead {
    /// A line, as it was typed.
    Line(String),
    /// The input is at its end.
    EndOfInput,
    /// The operator interrupted the reading.
    Interrupted,
    /// The line could not be read: the reason, in words.
    Failed(String),
}

impl View for LineRead {
    type V = LineReadView;

    open spec fn view(&self) -> LineReadView {
        match self {
            LineRead::Line(text) => LineReadView::Line(text@),
            LineRead::EndOfInput => LineReadView::EndOfInput,
            LineRead::Interrupted => LineReadView::Interrupted,
            LineRead::Failed(reason) => LineReadView::Failed(reason@),
        }
    }
}

pub struct IoErrorView {
    pub message: Seq<char>,
}

/// A file or a directory could not be created or written.
#[derive(Clone, Debug, PartialEq, Eq)]
pub struct IoError {
    pub message: String,
}

impl View for IoError {
    type V = IoErrorView;

    open spec fn view(&self) -> IoErrorView {
        IoErrorView { message: self.message@ }
    }
}

pub enum EventView {
    Input(LineReadView),
    Reply(HttpOutcomeView),
    Written(Result<Seq<char>, IoErrorView>),
}

/// What the caller reports back after it did what was asked of it.
#[derive(Debug, PartialEq, Eq)]
pub enum Event {
    /// After `Request::ReadLine`.
    Input(LineRead),
    /// After `Request::Send`.
    Reply(HttpOutcome),
    /// After `Request::Write`: the path of the file, or why there is none.
    Written(Result<String, IoError>),
}

impl View for Event {
    type V = EventView;

    open spec fn view(&self) -> EventView {
        match self {
            Event::Input(read) => EventView::Input(read@),
            Event::Reply(outcome) => EventView::Reply(outcome@),
            Event::Written(result) => EventView::Written(
                match result {
                    Ok(path) => Ok(path@),
                    Err(error) => Err(error@),
                },
            ),
        }
    }
}

pub enum PhaseView {
    AwaitInput,
    CallAnswerer { question: Seq<char> },
    CallReviewer { question: Seq<char>, answer: Seq<char> },
    Saving,
    Finished,
}

/// Where the orchestrator stands.
#[derive(Clone, Debug, PartialEq, Eq)]
pub enum Phase {
    /// A line is awaited.
    AwaitInput,
    /// The answer to `question` is awaited.
    CallAnswerer { question: String },
    /// The review of `answer` is awaited.
    CallReviewer { question: String, answer: String },
    /// The writing of the session's file is awaited.
    Saving,
    /// The session is over.
    Finished,
}

impl View for Phase {
    type V = PhaseView;

    open spec fn view(&self) -> PhaseView {
        match self {
            Phase::AwaitInput => PhaseView::AwaitInput,
            Phase::CallAnswerer { question } => PhaseView::CallAnswerer { question: question@ },
            Phase::CallReviewer { question, answer } => PhaseView::CallReviewer {
                question: question@,
                answer: answer@,
            },
            Phase::Saving => PhaseView::Saving,
            Phase::Finished => PhaseView::Finished,
        }
    }
}

pub enum RequestView {
    ReadLine,
    Send { provider: Provider, call: HttpCallView },
    Write(ExportFileView),
    Stop,
}

/// What the caller is asked to do next.
#[derive(Clone, Debug, PartialEq, Eq)]
pub enum Request {
    /// Read a line and report it as `Event::Input`.
    ReadLine,
    /// Send `call` to `provider` and report the outcome as `Event::Reply`.
    Send { provider: Provider, call: HttpCall },
    /// Write the file and report the outcome as `Event::Written`.
    Write(ExportFile),
    /// Leave the loop.
    Stop,
}

impl View for Request {
    type V = RequestView;

    open spec fn view(&self) -> RequestView {
        match self {
            Request::ReadLine => RequestView::ReadLine,
            Request::Send { provider, call } => RequestView::Send {
                provider: *provider,
                call: call@,
            },
            Request::Write(file) => RequestView::Write(file@),
            Request::Stop => RequestView::Stop,
        }
    }
}

pub enum ReportView {
    Nothing,
    InterruptHint,
    ReadFailed(Seq<char>),
    NothingToSave,
    AnswerFailed(ApiErrorView),
    Answer(Seq<char>),
    ReviewFailed(ApiErrorView),
    TurnRecorded { round: nat, review: Seq<char> },
    Saved { path: Seq<char>, rounds: nat },
    SaveFailed(IoErrorView),
    OutOfTurn,
}

/// What the operator is to be told.
#[derive(Clone, Debug, PartialEq, Eq)]
pub enum Report {
    Nothing,
    /// The reading was interrupted: the session ends with `exit` or `quit`.
    InterruptHint,
    /// A line could not be read.
    ReadFailed(String),
    /// There is no round to save yet.
    NothingToSave,
    /// The answering provider gave no answer; the round is given up.
    AnswerFailed(ApiError),
    /// The answer, which is shown before the review is asked for.
    Answer(String),
    /// The reviewing provider gave no review; the round is given up.
    ReviewFailed(ApiError),
    /// The round is recorded under the number `round`; `review` is shown.
    TurnRecorded { round: usize, review: String },
    /// The session, with `rounds` rounds, is in the file at `path`.
    Saved { path: String, rounds: usize },
    /// The session could not be saved.
    SaveFailed(IoError),
    /// The event was not the one awaited; what was under way is given up.
    OutOfTurn,
}

impl View for Report {
    type V = ReportView;

    open spec fn view(&self) -> ReportView {
        match self {
            Report::Nothing => ReportView::Nothing,
            Report::InterruptHint => ReportView::InterruptHint,
            Report::ReadFailed(reason) => ReportView::ReadFailed(reason@),
            Report::NothingToSave => ReportView::NothingToSave,
            Report::AnswerFailed(error) => ReportView::AnswerFailed(error@),
            Report::Answer(answer) => ReportView::Answer(answer@),
            Report::ReviewFailed(error) => ReportView::ReviewFailed(error@),
            Report::TurnRecorded { round, review } => ReportView::TurnRecorded {
                round: *round as nat,
                review: review@,
            },
            Report::Saved { path, rounds } => ReportView::Saved {
                path: path@,
                rounds: *rounds as nat,
            },
            Report::SaveFailed(error) => ReportView::SaveFailed(error@),
            Report::OutOfTurn => ReportView::OutOfTurn,
        }
    }
}

pub struct OutcomeView {
    pub report: ReportView,
    pub next: RequestView,
}

/// The result of a step: what to tell the operator, and what to do next.
#[derive(Clone, Debug, PartialEq, Eq)]
pub struct Outcome {
    pub report: Report,
    pub next: Request,
}

impl View for Outcome {
    type V = OutcomeView;

    open spec fn view(&self) -> OutcomeView {
        OutcomeView { report: self.report@, next: self.next@ }
    }
}

pub struct OrchestratorView {
    pub session: SessionView,
    pub phase: PhaseView,
    pub moonshot: AiConfigView,
    pub deepseek: AiConfigView,
}

/// The state of a run: the session so far, the phase, and the two providers.
#[derive(Debug, PartialEq, Eq)]
pub struct Orchestrator {
    session: ConversationSession,
    phase: Phase,
    moonshot: AiConfig,
    deepseek: AiConfig,
}

impl View for Orchestrator {
    type V = OrchestratorView;

    closed spec fn view(&self) -> OrchestratorView {
        OrchestratorView {
            session: self.session@,
            phase: self.phase@,
            moonshot: self.moonshot@,
            deepseek: self.deepseek@,
        }
    }
}

impl OrchestratorView {
    /// This state in another phase.
    pub open spec fn in_phase(self, phase: PhaseView) -> OrchestratorView {
        OrchestratorView { phase, ..self }
    }

    /// What a line means while a line is awaited. The line counts without
    /// the whitespace around it: `exit` and `quit`, in any case, end the
    /// session; an empty line does nothing; `/save`, in any case, saves the
    /// session if it has a round; anything else is a question.
    pub open spec fn on_line(self, text: Seq<char>, now: CalendarTime) -> (
        OrchestratorView,
        OutcomeView,
    ) {
        let input = trimmed(text);
        if eq_ignore_ascii_case(input, "exit"@) || eq_ignore_ascii_case(input, "quit"@) {
            (
                self.in_phase(PhaseView::Finished),
                OutcomeView { report: ReportView::Nothing, next: RequestView::Stop },
            )
        } else if input.len() == 0 {
            (self, OutcomeView { report: ReportView::Nothing, next: RequestView::ReadLine })
        } else if eq_ignore_ascii_case(input, "/save"@) {
            if self.session.turns.len() == 0 {
                (
                    self,
                    OutcomeView { report: ReportView::NothingToSave, next: RequestView::ReadLine },
                )
            } else {
                (
                    self.in_phase(PhaseView::Saving),
                    OutcomeView {
                        report: ReportView::Nothing,
                        next: RequestView::Write(
                            export_of(self.session, self.moonshot.model, self.deepseek.model, now),
                        ),
                    },
                )
            }
        } else {
            (
                self.in_phase(PhaseView::CallAnswerer { question: input }),
                OutcomeView {
                    report: ReportView::Nothing,
                    next: RequestView::Send {
                        provider: Provider::Moonshot,
                        call: call_for(self.moonshot, answer_context(input)),
                    },
                },
            )
        }
    }

    /// What the end of a reading means while a line is awaited.
    pub open spec fn on_input(self, read: LineReadView, now: CalendarTime) -> (
        OrchestratorView,
        OutcomeView,
    ) {
        match read {
            LineReadView::Line(text) => self.on_line(text, now),
            LineReadView::EndOfInput => (
                self.in_phase(PhaseView::Finished),
                OutcomeView { report: ReportView::Nothing, next: RequestView::Stop },
            ),
            LineReadView::Interrupted => (
                self,
                OutcomeView { report: ReportView::InterruptHint, next: RequestView::ReadLine },
            ),
            LineReadView::Failed(reason) => (
                self,
                OutcomeView { report: ReportView::ReadFailed(reason), next: RequestView::ReadLine },
            ),
        }
    }

    /// What the outcome of the first request means: with an answer the
    /// review is asked for; without one the round is given up.
    pub open spec fn on_answer(self, question: Seq<char>, outcome: HttpOutcomeView) -> (
        OrchestratorView,
        OutcomeView,
    ) {
        match completion(outcome) {
            Ok(answer) => (
                self.in_phase(PhaseView::CallReviewer { question, answer }),
                OutcomeView {
                    report: ReportView::Answer(answer),
                    next: RequestView::Send {
                        provider: Provider::DeepSeek,
                        call: call_for(self.deepseek, review_context(question, answer)),
                    },
                },
            ),
            Err(error) => (
                self.in_phase(PhaseView::AwaitInput),
                OutcomeView { report: ReportView::AnswerFailed(error), next: RequestView::ReadLine },
            ),
        }
    }

    /// What the outcome of the second request means: with a review the round
    /// is recorded under the next number; without one the round is given up
    /// and the session stays as it was.
    pub open spec fn on_review(
        self,
        question: Seq<char>,
        answer: Seq<char>,
        outcome: HttpOutcomeView,
        now: CalendarTime,
    ) -> (OrchestratorView, OutcomeView) {
        match completion(outcome) {
            Ok(review) => (
                OrchestratorView {
                    session: self.session.with_turn(
                        TurnView {
                            round: self.session.next_round(),
                            user_question: question,
                            moonshot_answer: answer,
                            deepseek_review: review,
                            timestamp: now,
                        },
                    ),
                    phase: PhaseView::AwaitInput,
                    ..self
                },
                OutcomeView {
                    report: ReportView::TurnRecorded { round: self.session.next_round(), review },
                    next: RequestView::ReadLine,
                },
            ),
            Err(error) => (
                self.in_phase(PhaseView::AwaitInput),
                OutcomeView { report: ReportView::ReviewFailed(error), next: RequestView::ReadLine },
            ),
        }
    }

    /// What the outcome of the writing means.
    pub open spec fn on_written(self, result: Result<Seq<char>, IoErrorView>) -> (
        OrchestratorView,
        OutcomeView,
    ) {
        (
            self.in_phase(PhaseView::AwaitInput),
            OutcomeView {
                report: match result {
                    Ok(path) => ReportView::Saved { path, rounds: self.session.turns.len() },
                    Err(error) => ReportView::SaveFailed(error),
                },
                next: RequestView::ReadLine,
            },
        )
    }

    /// What an event means that is not the one awaited: what was under way
    /// is given up, and a session that is over stays over.
    pub open spec fn on_stray_event(self) -> (OrchestratorView, OutcomeView) {
        if self.phase is Finished {
            (self, OutcomeView { report: ReportView::OutOfTurn, next: RequestView::Stop })
        } else {
            (
                self.in_phase(PhaseView::AwaitInput),
                OutcomeView { report: ReportView::OutOfTurn, next: RequestView::ReadLine },
            )
        }
    }

    /// The state after `event`, which comes at the time `now`, and what the
    /// caller is told.
    pub open spec fn step(self, event: EventView, now: CalendarTime) -> (
        OrchestratorView,
        OutcomeView,
    ) {
        match (self.phase, event) {
            (PhaseView::AwaitInput, EventView::Input(read)) => self.on_input(read, now),
            (PhaseView::CallAnswerer { question }, EventView::Reply(outcome)) => self.on_answer(
                question,
                outcome,
            ),
            (PhaseView::CallReviewer { question, answer }, EventView::Reply(outcome)) => {
                self.on_review(question, answer, outcome, now)
            },
            (PhaseView::Saving, EventView::Written(result)) => self.on_written(result),
            _ => self.on_stray_event(),
        }
    }

    /// Whether `event` completes a round in this state.
    pub open spec fn completes_round(self, event: EventView) -> bool {
        &&& self.phase is CallReviewer
        &&& event matches EventView::Reply(outcome)
        &&& completion(outcome) is Ok
    }
}

fn outcome(report: Report, next: Request) -> (o: Outcome)
    ensures
        o@ == (OutcomeView { report: report@, next: next@ }),
{
    Outcome { report, next }
}

impl Orchestrator {
    /// The state in which a line is awaited, with `session` as the rounds so far.
    pub fn new(moonshot: AiConfig, deepseek: AiConfig, session: ConversationSession) -> (state:
        Orchestrator)
        ensures
            state@ == (OrchestratorView {
                session: session@,
                phase: PhaseView::AwaitInput,
                moonshot: moonshot@,
                deepseek: deepseek@,
            }),
    {
        Orchestrator { session, phase: Phase::AwaitInput, moonshot, deepseek }
    }

    pub fn session(&self) -> (session: &ConversationSession)
        ensures
            session@ == self@.session,
    {
        &self.session
    }

    pub fn phase(&self) -> (phase: &Phase)
        ensures
            phase@ == self@.phase,
    {
        &self.phase
    }

    /// The configuration of `provider`.
    pub fn config(&self, provider: Provider) -> (config: &AiConfig)
        ensures
            config@ == match provider {
                Provider::Moonshot => self@.moonshot,
                Provider::DeepSeek => self@.deepseek,
            },
    {
        match provider {
            Provider::Moonshot => &self.moonshot,
            Provider::DeepSeek => &self.deepseek,
        }
    }

    /// Whether the number of one more round fits in `usize`.
    pub fn has_room(&self) -> (b: bool)
        ensures
            b == (self@.session.turns.len() < usize::MAX),
    {
        self.session.len() < usize::MAX
    }

    fn take_line(self, text: String, now: Timestamp) -> (r: (Orchestrator, Outcome))
        requires
            self@.phase is AwaitInput,
        ensures
            (r.0@, r.1@) == self@.on_line(text@, now@),
    {
        let Orchestrator { session, phase, moonshot, deepseek } = self;
        let input = trim(text.as_str());
        if equals_ignoring_ascii_case(input.as_str(), "exit") || equals_ignoring_ascii_case(
            input.as_str(),
            "quit",
        ) {
            (
                Orchestrator { session, phase: Phase::Finished, moonshot, deepseek },
                outcome(Report::Nothing, Request::Stop),
            )
        } else if input.as_str().is_empty() {
            (
                Orchestrator { session, phase, moonshot, deepseek },
                outcome(Report::Nothing, Request::ReadLine),
            )
        } else if equals_ignoring_ascii_case(input.as_str(), "/save") {
            if session.is_empty() {
                (
                    Orchestrator { session, phase, moonshot, deepseek },
                    outcome(Report::NothingToSave, Request::ReadLine),
                )
            } else {
                let file = export_at(&session, moonshot.model.as_str(), deepseek.model.as_str(), now);
                (
                    Orchestrator { session, phase: Phase::Saving, moonshot, deepseek },
                    outcome(Report::Nothing, Request::Write(file)),
                )
            }
        } else {
            let call = prepare_call(&moonshot, answer_messages(input.as_str()));
            (
                Orchestrator {
                    session,
                    phase: Phase::CallAnswerer { question: input },
                    moonshot,
                    deepseek,
                },
                outcome(Report::Nothing, Request::Send { provider: Provider::Moonshot, call }),
            )
        }
    }

    fn take_input(self, read: LineRead, now: Timestamp) -> (r: (Orchestrator, Outcome))
        requires
            self@.phase is AwaitInput,
        ensures
            (r.0@, r.1@) == self@.on_input(read@, now@),
    {
        match read {
            LineRead::Line(text) => self.take_line(text, now),
            LineRead::EndOfInput => {
                let Orchestrator { session, phase, moonshot, deepseek } = self;
                (
                    Orchestrator { session, phase: Phase::Finished, moonshot, deepseek },
                    outcome(Report::Nothing, Request::Stop),
                )
            },
            LineRead::Interrupted => (self, outcome(Report::InterruptHint, Request::ReadLine)),
            LineRead::Failed(reason) => (
                self,
                outcome(Report::ReadFailed(reason), Request::ReadLine),
            ),
        }
    }

    fn take_answer(self, question: String, reply: HttpOutcome) -> (r: (Orchestrator, Outcome))
        ensures
            (r.0@, r.1@) == self@.on_answer(question@, reply@),
    {
        let Orchestrator { session, phase, moonshot, deepseek } = self;
        match read_reply(reply) {
            Ok(answer) => {
                let call = prepare_call(
                    &deepseek,
                    review_messages(question.as_str(), answer.as_str()),
                );
                let shown = answer.clone();
                (
                    Orchestrator {
                        session,
                        phase: Phase::CallReviewer { question, answer },
                        moonshot,
                        deepseek,
                    },
                    outcome(
                        Report::Answer(shown),
                        Request::Send { provider: Provider::DeepSeek, call },
                    ),
                )
            },
            Err(error) => (
                Orchestrator { session, phase: Phase::AwaitInput, moonshot, deepseek },
                outcome(Report::AnswerFailed(error), Request::ReadLine),
            ),
        }
    }

    fn take_review(self, question: String, answer: String, reply: HttpOutcome, now: Timestamp) -> (r:
        (Orchestrator, Outcome))
        requires
            completion(reply@) is Ok ==> self@.session.turns.len() < usize::MAX,
        ensures
            (r.0@, r.1@) == self@.on_review(question@, answer@, reply@, now@),
    {
        let Orchestrator { session, phase, moonshot, deepseek } = self;
        let mut session = session;
        match read_reply(reply) {
            Ok(review) => {
                let round = session.len() + 1;
                let shown = review.clone();
                let turn = ConversationTurn::at(round, question, answer, review, now);
                let added = session.add_turn(turn);
                assert(added);
                (
                    Orchestrator { session, phase: Phase::AwaitInput, moonshot, deepseek },
                    outcome(Report::TurnRecorded { round, review: shown }, Request::ReadLine),
                )
            },
            Err(error) => (
                Orchestrator { session, phase: Phase::AwaitInput, moonshot, deepseek },
                outcome(Report::ReviewFailed(error), Request::ReadLine),
            ),
        }
    }

    fn take_written(self, result: Result<String, IoError>) -> (r: (Orchestrator, Outcome))
        ensures
            (r.0@, r.1@) == self@.on_written(
                match result {
                    Ok(path) => Ok(path@),
                    Err(error) => Err(error@),
                },
            ),
    {
        let Orchestrator { session, phase, moonshot, deepseek } = self;
        let report = match result {
            Ok(path) => Report::Saved { path, rounds: session.len() },
            Err(error) => Report::SaveFailed(error),
        };
        (
            Orchestrator { session, phase: Phase::AwaitInput, moonshot, deepseek },
            outcome(report, Request::ReadLine),
        )
    }

    fn drop_stray_event(self) -> (r: (Orchestrator, Outcome))
        ensures
            (r.0@, r.1@) == self@.on_stray_event(),
    {
        let Orchestrator { session, phase, moonshot, deepseek } = self;
        match phase {
            Phase::Finished => (
                Orchestrator { session, phase: Phase::Finished, moonshot, deepseek },
                outcome(Report::OutOfTurn, Request::Stop),
            ),
            _ => (
                Orchestrator { session, phase: Phase::AwaitInput, moonshot, deepseek },
                outcome(Report::OutOfTurn, Request::ReadLine),
            ),
        }
    }

    /// Takes `event`, which comes at the time `now`: the next state, and
    /// what the caller is to tell the operator and to do next. Where the
    /// event completes a round, the number of that round must fit in `usize`.
    pub fn step_at(self, event: Event, now: Timestamp) -> (r: (Orchestrator, Outcome))
        requires
            self@.completes_round(event@) ==> self@.session.turns.len() < usize::MAX,
        ensures
            (r.0@, r.1@) == self@.step(event@, now@),
    {
        let Orchestrator { session, phase, moonshot, deepseek } = self;
        match (phase, event) {
            (Phase::AwaitInput, Event::Input(read)) => {
                let state = Orchestrator { session, phase: Phase::AwaitInput, moonshot, deepseek };
                state.take_input(read, now)
            },
            (Phase::CallAnswerer { question }, Event::Reply(reply)) => {
                let state = Orchestrator { session, phase: Phase::AwaitInput, moonshot, deepseek };
                state.take_answer(question, reply)
            },
            (Phase::CallReviewer { question, answer }, Event::Reply(reply)) => {
                let state = Orchestrator { session, phase: Phase::AwaitInput, moonshot, deepseek };
                state.take_review(question, answer, reply, now)
            },
            (Phase::Saving, Event::Written(result)) => {
                let state = Orchestrator { session, phase: Phase::AwaitInput, moonshot, deepseek };
                state.take_written(result)
            },
            (phase, _) => {
                let state = Orchestrator { session, phase, moonshot, deepseek };
                state.drop_stray_event()
            },
        }
    }

    /// Takes `event` at the time of the system clock: `step_at` with that time.
    pub fn step(self, event: Event) -> (r: (Orchestrator, Outcome))
        requires
            self@.completes_round(event@) ==> self@.session.turns.len() < usize::MAX,
        ensures
            exists|now: CalendarTime|
                is_calendar_time(now) && (r.0@, r.1@) == self@.step(event@, now),
    {
        let now = Timestamp::now();
        let ghost before = self@;
        let r = self.step_at(event, now);
        assert(is_calendar_time(now@) && (r.0@, r.1@) == before.step(event@, now@));
        r
    }
}

/// An event and the time at which it comes.
pub struct TimedEvent {
    pub event: EventView,
    pub at: CalendarTime,
}

impl OrchestratorView {
    /// The state after the events of `trace`, taken in their order.
    pub open spec fn run(self, trace: Seq<TimedEvent>) -> OrchestratorView
        decreases trace.len(),
    {
        if trace.len() == 0 {
            self
        } else {
            self.run(trace.drop_last()).step(trace.last().event, trace.last().at).0
        }
    }

    /// How many events of `trace` complete a round: a question was asked,
    /// the answer came, and now the review comes too.
    pub open spec fn rounds_completed(self, trace: Seq<TimedEvent>) -> nat
        decreases trace.len(),
    {
        if trace.len() == 0 {
            0
        } else {
            let earlier = self.rounds_completed(trace.drop_last());
            if self.run(trace.drop_last()).completes_round(trace.last().event) {
                earlier + 1
            } else {
                earlier
            }
        }
    }
}

/// Whether every event of `trace` comes at a time that the calendar has.
pub open spec fn times_are_valid(trace: Seq<TimedEvent>) -> bool {
    forall|i: int| 0 <= i < trace.len() ==> is_calendar_time((#[trigger] trace[i]).at)
}

/// An event that completes a round appends that round under the next
/// number; any other event leaves the session as it was. Either way the
/// providers stay the same.
pub proof fn lemma_step_on_session(state: OrchestratorView, event: EventView, now: CalendarTime)
    ensures
        state.step(event, now).0.moonshot == state.moonshot,
        state.step(event, now).0.deepseek == state.deepseek,
        !state.completes_round(event) ==> state.step(event, now).0.session == state.session,
        state.completes_round(event) ==> state.step(event, now).0.session.start_time
            == state.session.start_time,
        state.completes_round(event) ==> state.step(event, now).0.session.turns.len()
            == state.session.turns.len() + 1,
        state.completes_round(event) ==> state.step(event, now).0.session.turns.drop_last()
            == state.session.turns,
        state.completes_round(event) ==> state.step(event, now).0.session.turns.last().round
            == state.session.turns.len() + 1,
        state.completes_round(event) ==> state.step(event, now).0.session.turns.last().timestamp
            == now,
{
    if state.completes_round(event) {
        let next = state.step(event, now).0.session.turns;
        assert(next.drop_last() == state.session.turns);
    }
}

/// A step keeps the rounds numbered from 1 without a gap.
pub proof fn lemma_step_keeps_numbering(
    state: OrchestratorView,
    event: EventView,
    now: CalendarTime,
)
    requires
        state.session.well_formed(),
        is_calendar_time(now),
    ensures
        state.step(event, now).0.session.well_formed(),
{
    lemma_step_on_session(state, event, now);
}

/// After any events at all, the rounds of the session are numbered from 1
/// without a gap, the round at position `n` counted from 1 has the number
/// `n`, and the session has grown by exactly as many rounds as were
/// completed: no line, no command and no failed request adds one.
pub proof fn lemma_rounds_are_counted(state: OrchestratorView, trace: Seq<TimedEvent>)
    requires
        state.session.well_formed(),
        times_are_valid(trace),
    ensures
        state.run(trace).session.well_formed(),
        state.run(trace).session.turns.len() == state.session.turns.len() + state.rounds_completed(
            trace,
        ),
        forall|n: int|
            1 <= n <= state.run(trace).session.turns.len() ==> (#[trigger] state.run(
                trace,
            ).session.turns[n - 1]).round == n,
    decreases trace.len(),
{
    if trace.len() > 0 {
        let earlier = trace.drop_last();
        lemma_rounds_are_counted(state, earlier);
        let before = state.run(earlier);
        assert(is_calendar_time(trace[trace.len() - 1].at));
        lemma_step_on_session(before, trace.last().event, trace.last().at);
        lemma_step_keeps_numbering(before, trace.last().event, trace.last().at);
    }
}

/// A review that fails leaves the session as it was: no part of the round
/// is recorded.
pub proof fn lemma_failed_review_records_nothing(
    state: OrchestratorView,
    reply: HttpOutcomeView,
    now: CalendarTime,
)
    requires
        state.phase is CallReviewer,
        completion(reply) is Err,
    ensures
        state.step(EventView::Reply(reply), now).0 == state.in_phase(PhaseView::AwaitInput),
        state.step(EventView::Reply(reply), now).1 == (OutcomeView {
            report: ReportView::ReviewFailed(completion(reply)->Err_0),
            next: RequestView::ReadLine,
        }),
{
}

/// If the answer comes and the review then fails, the session is as it was
/// before the question.
pub proof fn lemma_answer_without_review_records_nothing(
    state: OrchestratorView,
    answer_reply: HttpOutcomeView,
    review_reply: HttpOutcomeView,
    first: CalendarTime,
    second: CalendarTime,
)
    requires
        state.phase is CallAnswerer,
        completion(answer_reply) is Ok,
        completion(review_reply) is Err,
    ensures
        state.step(EventView::Reply(answer_reply), first).0.step(
            EventView::Reply(review_reply),
            second,
        ).0 == state.in_phase(PhaseView::AwaitInput),
{
}

/// The review is asked of the answer that has just come, word for word,
/// together with the question that it answers.
pub proof fn lemma_review_is_asked_of_the_answer(
    state: OrchestratorView,
    reply: HttpOutcomeView,
    now: CalendarTime,
)
    requires
        state.phase is CallAnswerer,
        completion(reply) is Ok,
    ensures
        state.step(EventView::Reply(reply), now).0.phase == (PhaseView::CallReviewer {
            question: state.phase->CallAnswerer_question,
            answer: completion(reply)->Ok_0,
        }),
        state.step(EventView::Reply(reply), now).1.next == (RequestView::Send {
            provider: Provider::DeepSeek,
            call: call_for(
                state.deepseek,
                review_context(state.phase->CallAnswerer_question, completion(reply)->Ok_0),
            ),
        }),
{
}

/// A question, its answer and the review of that answer, one after the
/// other, add exactly one round to the session: it holds the question
/// without the whitespace around it, the answer and the review as they
/// came, the next number, and the time at which the review came.
pub proof fn lemma_round_is_recorded_whole(
    state: OrchestratorView,
    text: Seq<char>,
    answer_reply: HttpOutcomeView,
    review_reply: HttpOutcomeView,
    first: CalendarTime,
    second: CalendarTime,
    third: CalendarTime,
)
    requires
        state.phase is AwaitInput,
        state.step(EventView::Input(LineReadView::Line(text)), first).0.phase is CallAnswerer,
        completion(answer_reply) is Ok,
        completion(review_reply) is Ok,
    ensures
        state.step(EventView::Input(LineReadView::Line(text)), first).0.step(
            EventView::Reply(answer_reply),
            second,
        ).0.step(EventView::Reply(review_reply), third).0 == (OrchestratorView {
            session: state.session.with_turn(
                TurnView {
                    round: state.session.turns.len() + 1,
                    user_question: trimmed(text),
                    moonshot_answer: completion(answer_reply)->Ok_0,
                    deepseek_review: completion(review_reply)->Ok_0,
                    timestamp: third,
                },
            ),
            ..state
        }),
{
}

/// While a session has no round, `/save` writes nothing: the operator is
/// told that there is nothing to save, and the state stays as it was.
pub proof fn lemma_save_without_rounds(state: OrchestratorView, text: Seq<char>, now: CalendarTime)
    requires
        state.phase is AwaitInput,
        state.session.turns.len() == 0,
        eq_ignore_ascii_case(trimmed(text), "/save"@),
    ensures
        state.step(EventView::Input(LineReadView::Line(text)), now) == (
            state,
            OutcomeView { report: ReportView::NothingToSave, next: RequestView::ReadLine },
        ),
{
    reveal_strlit("/save");
    reveal_strlit("exit");
    reveal_strlit("quit");
}

} // verus!
