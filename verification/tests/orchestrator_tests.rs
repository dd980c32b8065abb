use ai_vs_ai::chat::{
    ApiError, ChatChoice, ChatMessage, ChatResponse, HttpOutcome, MessageContent, Role,
};
use ai_vs_ai::config::{AiConfig, Provider};
use ai_vs_ai::export::{parse_header, render_session};
use ai_vs_ai::orchestrator::{
    answer_messages, review_messages, review_prompt, Event, IoError, LineRead, Orchestrator,
    Outcome, Phase, Report, Request,
};
use ai_vs_ai::session::ConversationSession;
use ai_vs_ai::timestamp::Timestamp;

fn at(minute: u32) -> Timestamp {
    Timestamp::new(2024, 2, 29, 10, minute, 0).unwrap()
}

fn fresh() -> Orchestrator {
    Orchestrator::new(
        AiConfig::moonshot("key-a".to_string()),
        AiConfig::deepseek("key-b".to_string()),
        ConversationSession::started_at(at(0)),
    )
}

fn line(text: &str) -> Event {
    Event::Input(LineRead::Line(text.to_string()))
}

fn ok_reply(content: &str) -> Event {
    Event::Reply(HttpOutcome::Response {
        status: 200,
        body: String::new(),
        parsed: Some(ChatResponse {
            choices: vec![ChatChoice { message: MessageContent { content: content.to_string() } }],
        }),
    })
}

fn failed_reply(status: u16, body: &str) -> Event {
    Event::Reply(HttpOutcome::Response { status, body: body.to_string(), parsed: None })
}

fn read_next(report: Report) -> Outcome {
    Outcome { report, next: Request::ReadLine }
}

/// Runs one whole round and returns the state after it.
fn round(state: Orchestrator, question: &str, answer: &str, review: &str, minute: u32) -> Orchestrator {
    let (state, _) = state.step_at(line(question), at(minute));
    let (state, _) = state.step_at(ok_reply(answer), at(minute));
    let (state, _) = state.step_at(ok_reply(review), at(minute));
    state
}

#[test]
fn answer_messages_are_a_system_and_a_user_message() {
    assert_eq!(
        answer_messages("why?"),
        vec![
            ChatMessage { role: Role::System, content: "You are a helpful AI assistant.".into() },
            ChatMessage { role: Role::User, content: "why?".into() },
        ]
    );
}

#[test]
fn review_prompt_holds_question_and_answer_word_for_word() {
    let prompt = review_prompt("What is \"x\"?", "line one\nline two");
    assert_eq!(
        prompt,
        "The user asked: \"What is \"x\"?\"\n\nAnother AI assistant provided the following answer:\n\"line one\nline two\"\n\nPlease review this answer. Point out any errors, hallucinations, or missing information. If the code is provided, check for bugs. If the answer is perfect, verify it.\n\nIMPORTANT: Please provide your review entirely in Chinese."
    );
}

#[test]
fn review_messages_are_a_system_message_and_the_prompt() {
    let messages = review_messages("q", "a");
    assert_eq!(messages.len(), 2);
    assert_eq!(messages[0].role, Role::System);
    assert_eq!(
        messages[0].content,
        "You are an expert at technical review. Your goal is to verify the accuracy and quality of answers provided by other AI models. You must output your review in Chinese."
    );
    assert_eq!(messages[1].role, Role::User);
    assert_eq!(messages[1].content, review_prompt("q", "a"));
}

#[test]
fn a_new_orchestrator_awaits_a_line() {
    let state = fresh();
    assert_eq!(state.phase(), &Phase::AwaitInput);
    assert!(state.session().is_empty());
    assert!(state.has_room());
    assert_eq!(state.config(Provider::Moonshot).api_key, "key-a");
    assert_eq!(state.config(Provider::DeepSeek).model, "deepseek-chat");
}

#[test]
fn a_question_is_sent_to_the_answering_provider() {
    let (state, outcome) = fresh().step_at(line("  What is Rust?  \n"), at(1));
    assert_eq!(state.phase(), &Phase::CallAnswerer { question: "What is Rust?".to_string() });
    assert_eq!(outcome.report, Report::Nothing);
    match outcome.next {
        Request::Send { provider, call } => {
            assert_eq!(provider, Provider::Moonshot);
            assert_eq!(call.url, "https://api.moonshot.cn/v1/chat/completions");
            assert_eq!(call.authorization, "Bearer key-a");
            assert_eq!(call.content_type, "application/json");
            assert_eq!(call.body.model, "moonshot-v1-8k");
            assert_eq!(call.body.temperature_tenths, 7);
            assert_eq!(call.body.messages, answer_messages("What is Rust?"));
        }
        other => panic!("unexpected request {other:?}"),
    }
    assert!(state.session().is_empty());
}

#[test]
fn an_answer_is_shown_and_sent_on_for_review() {
    let (state, _) = fresh().step_at(line("q?"), at(1));
    let (state, outcome) = state.step_at(ok_reply("the answer"), at(2));
    assert_eq!(
        state.phase(),
        &Phase::CallReviewer { question: "q?".to_string(), answer: "the answer".to_string() }
    );
    assert_eq!(outcome.report, Report::Answer("the answer".to_string()));
    match outcome.next {
        Request::Send { provider, call } => {
            assert_eq!(provider, Provider::DeepSeek);
            assert_eq!(call.url, "https://api.deepseek.com/chat/completions");
            assert_eq!(call.authorization, "Bearer key-b");
            assert_eq!(call.body.model, "deepseek-chat");
            assert_eq!(call.body.messages, review_messages("q?", "the answer"));
        }
        other => panic!("unexpected request {other:?}"),
    }
    assert!(state.session().is_empty());
}

#[test]
fn a_review_completes_the_round() {
    let (state, _) = fresh().step_at(line("q?"), at(1));
    let (state, _) = state.step_at(ok_reply("a"), at(2));
    let (state, outcome) = state.step_at(ok_reply("r"), at(3));
    assert_eq!(outcome, read_next(Report::TurnRecorded { round: 1, review: "r".to_string() }));
    assert_eq!(state.phase(), &Phase::AwaitInput);
    assert_eq!(state.session().len(), 1);
    let turn = state.session().turn(0).unwrap();
    assert_eq!(turn.round(), 1);
    assert_eq!(turn.user_question(), "q?");
    assert_eq!(turn.moonshot_answer(), "a");
    assert_eq!(turn.deepseek_review(), "r");
    assert_eq!(turn.timestamp(), at(3));
}

#[test]
fn the_nth_round_has_the_number_n() {
    let mut state = fresh();
    for n in 1..=5usize {
        state = round(state, &format!("q{n}"), &format!("a{n}"), &format!("r{n}"), n as u32);
        assert_eq!(state.session().len(), n);
    }
    for n in 1..=5usize {
        let turn = state.session().turn(n - 1).unwrap();
        assert_eq!(turn.round(), n);
        assert_eq!(turn.user_question(), format!("q{n}"));
        assert_eq!(turn.moonshot_answer(), format!("a{n}"));
    }
}

#[test]
fn failed_rounds_leave_no_gap_in_the_numbers() {
    let state = round(fresh(), "q1", "a1", "r1", 1);
    let (state, _) = state.step_at(line("lost"), at(2));
    let (state, _) = state.step_at(failed_reply(500, "down"), at(2));
    let (state, _) = state.step_at(line("lost too"), at(3));
    let (state, _) = state.step_at(ok_reply("a"), at(3));
    let (state, _) = state.step_at(failed_reply(503, "busy"), at(3));
    let state = round(state, "q2", "a2", "r2", 4);
    assert_eq!(state.session().len(), 2);
    assert_eq!(state.session().turn(1).unwrap().round(), 2);
    assert_eq!(state.session().turn(1).unwrap().user_question(), "q2");
}

#[test]
fn lines_and_commands_add_no_round() {
    let mut state = round(fresh(), "q1", "a1", "r1", 1);
    for text in ["", "   ", "\t\n", "/save"] {
        let (next, _) = state.step_at(line(text), at(2));
        state = next;
        if state.phase() == &Phase::Saving {
            let (next, _) = state.step_at(Event::Written(Ok("p".to_string())), at(2));
            state = next;
        }
        assert_eq!(state.session().len(), 1);
    }
    let (state, _) = state.step_at(Event::Input(LineRead::Interrupted), at(3));
    assert_eq!(state.session().len(), 1);
    let (state, _) = state.step_at(line("exit"), at(3));
    assert_eq!(state.session().len(), 1);
}

#[test]
fn a_failed_review_records_nothing_of_the_round() {
    let state = round(fresh(), "q1", "a1", "r1", 1);
    let (state, _) = state.step_at(line("q2"), at(2));
    let (state, shown) = state.step_at(ok_reply("a2"), at(2));
    assert_eq!(shown.report, Report::Answer("a2".to_string()));
    let (state, outcome) = state.step_at(failed_reply(500, "oops"), at(2));
    assert_eq!(
        outcome,
        read_next(Report::ReviewFailed(ApiError::HttpStatus { code: 500, body: "oops".to_string() }))
    );
    assert_eq!(state.phase(), &Phase::AwaitInput);
    assert_eq!(state.session().len(), 1);
    assert_eq!(state.session().turn(0).unwrap().user_question(), "q1");
}

#[test]
fn a_rate_limited_answer_records_no_round() {
    let (state, _) = fresh().step_at(line("q"), at(1));
    let (state, outcome) = state.step_at(failed_reply(429, "rate limited"), at(1));
    assert_eq!(
        outcome,
        read_next(Report::AnswerFailed(ApiError::HttpStatus {
            code: 429,
            body: "rate limited".to_string(),
        }))
    );
    assert_eq!(state.phase(), &Phase::AwaitInput);
    assert!(state.session().is_empty());
}

#[test]
fn each_kind_of_failure_gives_up_the_round() {
    let failures = [
        (HttpOutcome::Unsent("no route".into()), ApiError::Transport("no route".into())),
        (
            HttpOutcome::Response { status: 200, body: "<html>".into(), parsed: None },
            ApiError::MalformedResponse,
        ),
        (
            HttpOutcome::Response {
                status: 200,
                body: "{\"choices\": []}".into(),
                parsed: Some(ChatResponse { choices: Vec::new() }),
            },
            ApiError::EmptyChoices,
        ),
    ];
    for (reply, error) in failures {
        let (state, _) = fresh().step_at(line("q"), at(1));
        let (state, outcome) = state.step_at(Event::Reply(reply.clone()), at(1));
        assert_eq!(outcome, read_next(Report::AnswerFailed(error.clone())));
        assert!(state.session().is_empty());
        let (state, _) = state.step_at(line("q"), at(1));
        let (state, _) = state.step_at(ok_reply("a"), at(1));
        let (state, outcome) = state.step_at(Event::Reply(reply), at(1));
        assert_eq!(outcome, read_next(Report::ReviewFailed(error)));
        assert!(state.session().is_empty());
        assert_eq!(state.phase(), &Phase::AwaitInput);
    }
}

#[test]
fn save_before_any_round_writes_nothing() {
    for text in ["/save", "/SAVE", "  /Save  ", "/sAvE\n"] {
        let (state, outcome) = fresh().step_at(line(text), at(1));
        assert_eq!(outcome, read_next(Report::NothingToSave));
        assert_eq!(state, fresh());
    }
}

#[test]
fn save_after_a_round_asks_for_the_file_to_be_written() {
    let state = round(fresh(), "How are you?", "fine", "好", 1);
    let (state, outcome) = state.step_at(line("/save"), at(7));
    assert_eq!(state.phase(), &Phase::Saving);
    assert_eq!(outcome.report, Report::Nothing);
    match outcome.next {
        Request::Write(file) => {
            assert_eq!(file.directory, "conversations");
            assert_eq!(file.filename, "2024-02-29_10-07-00_How_are_you_.md");
            assert_eq!(
                file.content,
                render_session(state.session(), "moonshot-v1-8k", "deepseek-chat")
            );
            let header = parse_header(&file.content).unwrap();
            assert_eq!(header.total_rounds, 1);
            assert_eq!(header.moonshot_model, "moonshot-v1-8k");
            assert_eq!(header.deepseek_model, "deepseek-chat");
            assert_eq!(header.session_start, "2024-02-29 10:00:00");
        }
        other => panic!("unexpected request {other:?}"),
    }
    let (state, outcome) = state.step_at(Event::Written(Ok("/tmp/x.md".to_string())), at(7));
    assert_eq!(outcome, read_next(Report::Saved { path: "/tmp/x.md".to_string(), rounds: 1 }));
    assert_eq!(state.phase(), &Phase::AwaitInput);
    assert_eq!(state.session().len(), 1);
}

#[test]
fn a_failed_write_is_reported_and_the_session_stays() {
    let state = round(fresh(), "q", "a", "r", 1);
    let (state, _) = state.step_at(line("/save"), at(2));
    let error = IoError { message: "disk full".to_string() };
    let (state, outcome) = state.step_at(Event::Written(Err(error.clone())), at(2));
    assert_eq!(outcome, read_next(Report::SaveFailed(error)));
    assert_eq!(state.phase(), &Phase::AwaitInput);
    assert_eq!(state.session().len(), 1);
}

#[test]
fn exit_and_quit_end_the_session_in_any_case() {
    for text in ["exit", "quit", "EXIT", "Quit", "  eXiT\n", "\tQUIT "] {
        let (state, outcome) = fresh().step_at(line(text), at(1));
        assert_eq!(outcome, Outcome { report: Report::Nothing, next: Request::Stop });
        assert_eq!(state.phase(), &Phase::Finished);
    }
}

#[test]
fn words_that_only_look_like_commands_are_questions() {
    for text in ["exit now", "quit?", "save", "/save it", "exi", "/saved"] {
        let (state, outcome) = fresh().step_at(line(text), at(1));
        assert_eq!(state.phase(), &Phase::CallAnswerer { question: text.to_string() });
        assert!(matches!(outcome.next, Request::Send { provider: Provider::Moonshot, .. }));
    }
}

#[test]
fn an_empty_line_does_nothing() {
    for text in ["", " ", "\n", " \t \r\n"] {
        let (state, outcome) = fresh().step_at(line(text), at(1));
        assert_eq!(outcome, read_next(Report::Nothing));
        assert_eq!(state, fresh());
    }
}

#[test]
fn the_end_of_input_ends_the_session() {
    let (state, outcome) = fresh().step_at(Event::Input(LineRead::EndOfInput), at(1));
    assert_eq!(outcome, Outcome { report: Report::Nothing, next: Request::Stop });
    assert_eq!(state.phase(), &Phase::Finished);
}

#[test]
fn an_interrupt_gives_a_hint_and_reads_on() {
    let (state, outcome) = fresh().step_at(Event::Input(LineRead::Interrupted), at(1));
    assert_eq!(outcome, read_next(Report::InterruptHint));
    assert_eq!(state, fresh());
}

#[test]
fn a_failed_reading_is_reported_and_reads_on() {
    let (state, outcome) =
        fresh().step_at(Event::Input(LineRead::Failed("bad terminal".to_string())), at(1));
    assert_eq!(outcome, read_next(Report::ReadFailed("bad terminal".to_string())));
    assert_eq!(state, fresh());
}

#[test]
fn an_event_out_of_turn_gives_up_what_was_under_way() {
    let (state, outcome) = fresh().step_at(ok_reply("unasked"), at(1));
    assert_eq!(outcome, read_next(Report::OutOfTurn));
    assert_eq!(state, fresh());

    let (state, _) = fresh().step_at(line("q"), at(1));
    let (state, outcome) = state.step_at(line("another"), at(1));
    assert_eq!(outcome, read_next(Report::OutOfTurn));
    assert_eq!(state, fresh());

    let (state, _) = fresh().step_at(line("q"), at(1));
    let (state, _) = state.step_at(ok_reply("a"), at(1));
    let (state, outcome) = state.step_at(Event::Written(Ok("p".to_string())), at(1));
    assert_eq!(outcome, read_next(Report::OutOfTurn));
    assert_eq!(state, fresh());
}

#[test]
fn a_finished_session_stays_finished() {
    let (state, _) = fresh().step_at(line("quit"), at(1));
    let (state, outcome) = state.step_at(line("q"), at(2));
    assert_eq!(outcome, Outcome { report: Report::OutOfTurn, next: Request::Stop });
    assert_eq!(state.phase(), &Phase::Finished);
    let (state, outcome) = state.step_at(ok_reply("a"), at(2));
    assert_eq!(outcome, Outcome { report: Report::OutOfTurn, next: Request::Stop });
    assert_eq!(state.phase(), &Phase::Finished);
    assert!(state.session().is_empty());
}

#[test]
fn step_with_the_clock_records_the_round_too() {
    let (state, _) = fresh().step(line("q"));
    let (state, _) = state.step(ok_reply("a"));
    let (state, outcome) = state.step(ok_reply("r"));
    assert_eq!(outcome, read_next(Report::TurnRecorded { round: 1, review: "r".to_string() }));
    assert_eq!(state.session().len(), 1);
    assert!(state.session().turn(0).unwrap().timestamp().year() >= 2024);
    let (_, outcome) = state.step(line("/save"));
    match outcome.next {
        Request::Write(file) => assert!(file.filename.ends_with("_q.md")),
        other => panic!("unexpected request {other:?}"),
    }
}
