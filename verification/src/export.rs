//! The markdown document that a saved session becomes, and the name of its
//! file.

use crate::decimal::{
    decimal, decimal_string, lemma_decimal_is_digits, lemma_decimal_round_trip, parse_decimal,
    parse_decimal_chars,
};
use crate::session::{ConversationSession, ConversationTurn, SessionView, TurnView};
use crate::text::{
    char_is_ascii_punctuation, char_is_ascii_whitespace, from_chars, is_ascii_punctuation,
    is_ascii_whitespace, to_chars,
};
use crate::timestamp::{
    display_text, file_stamp_text, is_calendar_time, lemma_display_text_is_one_line,
    CalendarTime, Timestamp,
};
use vstd::prelude::*;
use vstd::string::StringExecFns;

verus! {

/// How many characters of the first question go into a file name.
pub const FILENAME_PREFIX_BUDGET: usize = 20;

/// `c`, or `_` in place of ASCII punctuation and ASCII whitespace.
pub open spec fn sanitized_char(c: char) -> char {
    if is_ascii_punctuation(c) || is_ascii_whitespace(c) {
        '_'
    } else {
        c
    }
}

/// The first `FILENAME_PREFIX_BUDGET` characters of `question` (all of it
/// where it is shorter), each one sanitized.
pub open spec fn question_prefix(question: Seq<char>) -> Seq<char> {
    let kept = if question.len() <= FILENAME_PREFIX_BUDGET {
        question
    } else {
        question.take(FILENAME_PREFIX_BUDGET as int)
    };
    kept.map_values(|c: char| sanitized_char(c))
}

/// The name of the file that holds a session saved at `now` whose first
/// question is `question`.
pub open spec fn filename_text(now: CalendarTime, question: Seq<char>) -> Seq<char> {
    file_stamp_text(now) + "_"@ + question_prefix(question) + ".md"@
}

/// Of a question longer than the budget, the file name keeps the first
/// `FILENAME_PREFIX_BUDGET` characters and no more, with `_` in place of each
/// that is ASCII punctuation or ASCII whitespace.
pub proof fn lemma_prefix_of_long_question(question: Seq<char>)
    requires
        question.len() > FILENAME_PREFIX_BUDGET,
    ensures
        question_prefix(question).len() == FILENAME_PREFIX_BUDGET,
        forall|i: int|
            0 <= i < FILENAME_PREFIX_BUDGET ==> question_prefix(question)[i] == (if
                is_ascii_punctuation(question[i]) || is_ascii_whitespace(question[i]) {
                '_'
            } else {
                question[i]
            }),
{
}

/// The name of the file for a session that is saved at `now` and whose first
/// question is `question`.
pub fn filename_at(now: Timestamp, question: &str) -> (name: String)
    ensures
        name@ == filename_text(now@, question@),
{
    let chars = to_chars(question);
    let kept: usize = if chars.len() <= FILENAME_PREFIX_BUDGET {
        chars.len()
    } else {
        FILENAME_PREFIX_BUDGET
    };
    let mut name = now.file_stamp();
    name.append("_");
    let ghost stem = name@;
    let mut i: usize = 0;
    while i < kept
        invariant
            i <= kept <= chars.len(),
            name@ == stem + chars@.take(i as int).map_values(|c: char| sanitized_char(c)),
        decreases kept - i,
    {
        let c = chars[i];
        let ghost before = chars@.take(i as int).map_values(|c: char| sanitized_char(c));
        if char_is_ascii_punctuation(c) || char_is_ascii_whitespace(c) {
            name.push('_');
        } else {
            name.push(c);
        }
        i += 1;
        assert(chars@.take(i as int).map_values(|c: char| sanitized_char(c)) =~= before.push(
            sanitized_char(c),
        ));
    }
    assert(chars@.take(chars.len() as int) == chars@);
    name.append(".md");
    name
}

/// The name of the file for a session that is saved now and whose first
/// question is `question`: `filename_at` with the time of the system clock.
pub fn generate_filename(question: &str) -> (name: String)
    ensures
        exists|now: CalendarTime| is_calendar_time(now) && name@ == filename_text(now, question@),
{
    let now = Timestamp::now();
    let name = filename_at(now, question);
    assert(is_calendar_time(now@) && name@ == filename_text(now@, question@));
    name
}

/// The number of characters of `s` before its first line feed (all of them
/// where it has none).
pub open spec fn line_end(s: Seq<char>) -> nat
    decreases s.len(),
{
    if s.len() == 0 || s[0] == '\n' {
        0
    } else {
        1 + line_end(s.drop_first())
    }
}

/// `line` without a carriage return at its end.
pub open spec fn without_carriage_return(line: Seq<char>) -> Seq<char> {
    if line.len() > 0 && line.last() == '\r' {
        line.drop_last()
    } else {
        line
    }
}

/// The lines of `s`. A line ends with a line feed, or with a carriage return
/// and a line feed, neither of which belongs to it; the last line may end
/// with the text.
pub open spec fn lines(s: Seq<char>) -> Seq<Seq<char>>
    decreases s.len(),
{
    if s.len() == 0 {
        Seq::empty()
    } else if line_end(s) >= s.len() {
        seq![s]
    } else {
        seq![without_carriage_return(s.take(line_end(s) as int))] + lines(
            s.skip(line_end(s) + 1 as int),
        )
    }
}

/// The lines, each with `prefix` before it, joined by line feeds.
pub open spec fn join_prefixed(lines: Seq<Seq<char>>, prefix: Seq<char>) -> Seq<char>
    decreases lines.len(),
{
    if lines.len() == 0 {
        Seq::empty()
    } else if lines.len() == 1 {
        prefix + lines[0]
    } else {
        join_prefixed(lines.drop_last(), prefix) + seq!['\n'] + prefix + lines.last()
    }
}

/// `content` with `prefix` before each of its lines.
pub open spec fn content_with_prefix(content: Seq<char>, prefix: Seq<char>) -> Seq<char> {
    join_prefixed(lines(content), prefix)
}

/// Puts `prefix` before each line of `content`.
pub fn format_content_with_prefix(content: &str, prefix: &str) -> (out: String)
    ensures
        out@ == content_with_prefix(content@, prefix@),
{
    let v = to_chars(content);
    let n = v.len();
    let mut out = String::new();
    let mut i: usize = 0;
    let ghost mut done: Seq<Seq<char>> = Seq::empty();
    assert(v@.skip(0) == v@);
    while i < n
        invariant
            i <= n,
            n == v.len(),
            lines(v@) == done + lines(v@.skip(i as int)),
            out@ == join_prefixed(done, prefix@),
            i > 0 <==> done.len() > 0,
        decreases n - i,
    {
        let ghost rest = v@.skip(i as int);
        let mut j: usize = i;
        assert(v@.skip(j as int) == rest);
        while j < n && v[j] != '\n'
            invariant
                i <= j <= n,
                n == v.len(),
                line_end(v@.skip(i as int)) == (j - i) + line_end(v@.skip(j as int)),
            decreases n - j,
        {
            assert(v@.skip(j as int).drop_first() == v@.skip(j + 1));
            j += 1;
        }
        assert(line_end(rest) == j - i);
        let end: usize = if j < n && j > i && v[j - 1] == '\r' {
            (j - 1) as usize
        } else {
            j
        };
        let line = from_chars(&v, i, end);
        let ghost line_text = if j < n {
            without_carriage_return(rest.take(j - i))
        } else {
            rest
        };
        assert(line@ == line_text) by {
            assert(rest.take(j - i) == v@.subrange(i as int, j as int));
            if j < n {
                if j > i && v[j - 1] == '\r' {
                    assert(v@.subrange(i as int, j as int).drop_last() == v@.subrange(
                        i as int,
                        j - 1,
                    ));
                }
            } else {
                assert(rest == v@.subrange(i as int, n as int));
            }
        }
        if i > 0 {
            out.push('\n');
        }
        out.append(prefix);
        out.append(line.as_str());
        let ghost next: int = if j < n {
            j + 1
        } else {
            n as int
        };
        proof {
            assert(done.push(line_text).drop_last() == done);
            if j < n {
                assert(rest.skip(j - i + 1) == v@.skip(j + 1));
                assert(lines(rest) == seq![line_text] + lines(v@.skip(next)));
            } else {
                assert(lines(rest) == seq![line_text]);
                assert(lines(v@.skip(next)) == Seq::<Seq<char>>::empty());
            }
            assert(lines(v@) == done.push(line_text) + lines(v@.skip(next)));
            done = done.push(line_text);
        }
        i = if j < n {
            j + 1
        } else {
            n
        };
    }
    assert(lines(v@.skip(n as int)) == Seq::<Seq<char>>::empty());
    assert(done + Seq::<Seq<char>>::empty() == done);
    out
}

/// `text` as a line of a document: the text and a line feed.
pub open spec fn line(text: Seq<char>) -> Seq<char> {
    text.push('\n')
}

/// The block at the head of a document: when the session began, how many
/// rounds it holds and the models of the two providers, then the title.
pub open spec fn header_text(
    start_time: CalendarTime,
    rounds: nat,
    moonshot_model: Seq<char>,
    deepseek_model: Seq<char>,
) -> Seq<char> {
    line("---"@) + line("session_start: "@ + display_text(start_time)) + line(
        "total_rounds: "@ + decimal(rounds),
    ) + line("moonshot_model: "@ + moonshot_model) + line("deepseek_model: "@ + deepseek_model)
        + line("---"@) + line(""@) + line("# AIvsAI 对话记录"@) + line(""@)
}

/// The section of one round: its number, the question, and the answer and
/// the review as quoted blocks under the names of their models.
pub open spec fn turn_text(
    turn: TurnView,
    moonshot_model: Seq<char>,
    deepseek_model: Seq<char>,
) -> Seq<char> {
    line("## 第 "@ + decimal(turn.round) + " 轮"@) + line(""@) + line(
        "> 💬 **用户**："@ + turn.user_question,
    ) + line(""@) + line("---"@) + line(""@) + line(
        "> 🤖 **Moonshot** ("@ + moonshot_model + ")"@,
    ) + line("> "@) + line(content_with_prefix(turn.moonshot_answer, "> "@)) + line(""@)
        + line("---"@) + line(""@) + line("> 🔍 **DeepSeek** ("@ + deepseek_model + ")"@)
        + line("> "@) + line(content_with_prefix(turn.deepseek_review, "> "@)) + line(""@) + line("---"@) + line(""@)
}

/// The sections of the rounds, in order.
pub open spec fn turns_text(
    turns: Seq<TurnView>,
    moonshot_model: Seq<char>,
    deepseek_model: Seq<char>,
) -> Seq<char>
    decreases turns.len(),
{
    if turns.len() == 0 {
        Seq::empty()
    } else {
        turns_text(turns.drop_last(), moonshot_model, deepseek_model) + turn_text(
            turns.last(),
            moonshot_model,
            deepseek_model,
        )
    }
}

/// The document of a session: the header, then one section for each round.
pub open spec fn document_text(
    session: SessionView,
    moonshot_model: Seq<char>,
    deepseek_model: Seq<char>,
) -> Seq<char> {
    header_text(session.start_time, session.turns.len(), moonshot_model, deepseek_model)
        + turns_text(session.turns, moonshot_model, deepseek_model)
}

fn push_line(out: &mut String, text: &str)
    ensures
        final(out)@ == old(out)@ + line(text@),
{
    out.append(text);
    out.push('\n');
}

fn joined(first: &str, second: &str) -> (s: String)
    ensures
        s@ == first@ + second@,
{
    let mut s = first.to_owned();
    s.append(second);
    s
}

fn enclosed(first: &str, second: &str, third: &str) -> (s: String)
    ensures
        s@ == first@ + second@ + third@,
{
    let mut s = first.to_owned();
    s.append(second);
    s.append(third);
    s
}

fn header_block(
    start_time: Timestamp,
    rounds: usize,
    moonshot_model: &str,
    deepseek_model: &str,
) -> (out: String)
    ensures
        out@ == header_text(start_time@, rounds as nat, moonshot_model@, deepseek_model@),
{
    let mut out = String::new();
    assert(out@ + line("---"@) == line("---"@));
    push_line(&mut out, "---");
    push_line(&mut out, joined("session_start: ", start_time.display().as_str()).as_str());
    push_line(&mut out, joined("total_rounds: ", decimal_string(rounds).as_str()).as_str());
    push_line(&mut out, joined("moonshot_model: ", moonshot_model).as_str());
    push_line(&mut out, joined("deepseek_model: ", deepseek_model).as_str());
    push_line(&mut out, "---");
    push_line(&mut out, "");
    push_line(&mut out, "# AIvsAI 对话记录");
    push_line(&mut out, "");
    out
}

fn turn_block(turn: &ConversationTurn, moonshot_model: &str, deepseek_model: &str) -> (out: String)
    ensures
        out@ == turn_text(turn@, moonshot_model@, deepseek_model@),
{
    let mut out = String::new();
    let heading = enclosed("## 第 ", decimal_string(turn.round()).as_str(), " 轮");
    assert(out@ + line(heading@) == line(heading@));
    push_line(&mut out, heading.as_str());
    push_line(&mut out, "");
    push_line(&mut out, joined("> 💬 **用户**：", turn.user_question()).as_str());
    push_line(&mut out, "");
    push_line(&mut out, "---");
    push_line(&mut out, "");
    push_line(&mut out, enclosed("> 🤖 **Moonshot** (", moonshot_model, ")").as_str());
    push_line(&mut out, "> ");
    push_line(&mut out, format_content_with_prefix(turn.moonshot_answer(), "> ").as_str());
    push_line(&mut out, "");
    push_line(&mut out, "---");
    push_line(&mut out, "");
    push_line(&mut out, enclosed("> 🔍 **DeepSeek** (", deepseek_model, ")").as_str());
    push_line(&mut out, "> ");
    push_line(&mut out, format_content_with_prefix(turn.deepseek_review(), "> ").as_str());
    push_line(&mut out, "");
    push_line(&mut out, "---");
    push_line(&mut out, "");
    out
}

/// Renders a session as a markdown document.
pub fn render_session(
    session: &ConversationSession,
    moonshot_model: &str,
    deepseek_model: &str,
) -> (document: String)
    ensures
        document@ == document_text(session@, moonshot_model@, deepseek_model@),
{
    let count = session.len();
    let mut document = header_block(session.start_time(), count, moonshot_model, deepseek_model);
    let ghost header = document@;
    let mut i: usize = 0;
    while i < count
        invariant
            i <= count == session@.turns.len(),
            document@ == header + turns_text(
                session@.turns.take(i as int),
                moonshot_model@,
                deepseek_model@,
            ),
        decreases count - i,
    {
        match session.turn(i) {
            Some(turn) => {
                let block = turn_block(turn, moonshot_model, deepseek_model);
                document.append(block.as_str());
                assert(session@.turns.take(i + 1).drop_last() == session@.turns.take(i as int));
            },
            None => {},
        }
        i += 1;
    }
    assert(session@.turns.take(count as int) == session@.turns);
    document
}

pub struct HeaderView {
    pub session_start: Seq<char>,
    pub total_rounds: nat,
    pub moonshot_model: Seq<char>,
    pub deepseek_model: Seq<char>,
}

/// What the head of a document says of the session in it.
#[derive(Clone, Debug, PartialEq, Eq)]
pub struct ExportHeader {
    pub session_start: String,
    pub total_rounds: usize,
    pub moonshot_model: String,
    pub deepseek_model: String,
}

impl View for ExportHeader {
    type V = HeaderView;

    open spec fn view(&self) -> HeaderView {
        HeaderView {
            session_start: self.session_start@,
            total_rounds: self.total_rounds as nat,
            moonshot_model: self.moonshot_model@,
            deepseek_model: self.deepseek_model@,
        }
    }
}

/// Whether `s` has no line feed.
pub open spec fn is_one_line(s: Seq<char>) -> bool {
    forall|i: int| 0 <= i < s.len() ==> s[i] != '\n'
}

/// Whether `s` begins with a line that a line feed ends.
pub open spec fn has_line(s: Seq<char>) -> bool {
    line_end(s) < s.len()
}

/// The first line of `s`, without its line feed.
pub open spec fn first_line(s: Seq<char>) -> Seq<char> {
    s.take(line_end(s) as int)
}

/// What follows the first line of `s` and its line feed.
pub open spec fn after_first_line(s: Seq<char>) -> Seq<char> {
    s.skip(line_end(s) + 1 as int)
}

/// What follows `key` in `text`, where `text` begins with `key`.
pub open spec fn field_value(text: Seq<char>, key: Seq<char>) -> Option<Seq<char>> {
    if key.len() <= text.len() && text.take(key.len() as int) == key {
        Some(text.skip(key.len() as int))
    } else {
        None
    }
}

/// What the first six lines of `document` say, where they are the head of a
/// saved session: a rule, the four fields in their order, and a rule.
pub open spec fn header_of(document: Seq<char>) -> Option<HeaderView> {
    let r1 = after_first_line(document);
    let r2 = after_first_line(r1);
    let r3 = after_first_line(r2);
    let r4 = after_first_line(r3);
    let r5 = after_first_line(r4);
    let start = field_value(first_line(r1), "session_start: "@);
    let rounds = field_value(first_line(r2), "total_rounds: "@);
    let moonshot = field_value(first_line(r3), "moonshot_model: "@);
    let deepseek = field_value(first_line(r4), "deepseek_model: "@);
    if has_line(document) && has_line(r1) && has_line(r2) && has_line(r3) && has_line(r4)
        && has_line(r5) && first_line(document) == "---"@ && first_line(r5) == "---"@
        && start is Some && rounds is Some && moonshot is Some && deepseek is Some
        && parse_decimal(rounds->0) is Some {
        Some(
            HeaderView {
                session_start: start->0,
                total_rounds: parse_decimal(rounds->0)->0,
                moonshot_model: moonshot->0,
                deepseek_model: deepseek->0,
            },
        )
    } else {
        None
    }
}

/// The position of the line feed that ends the line beginning at `from`.
fn find_line_end(v: &Vec<char>, from: usize) -> (end: Option<usize>)
    requires
        from <= v.len(),
    ensures
        end is Some <==> has_line(v@.skip(from as int)),
        end matches Some(e) ==> from <= e < v.len() && e - from == line_end(v@.skip(from as int)),
{
    let n = v.len();
    let mut j: usize = from;
    while j < n && v[j] != '\n'
        invariant
            from <= j <= n,
            n == v.len(),
            line_end(v@.skip(from as int)) == (j - from) + line_end(v@.skip(j as int)),
        decreases n - j,
    {
        assert(v@.skip(j as int).drop_first() == v@.skip(j + 1));
        j += 1;
    }
    if j < n {
        Some(j)
    } else {
        None
    }
}

/// Whether the line `v[from..to]` is `text`.
fn line_is(v: &Vec<char>, from: usize, to: usize, text: &str) -> (b: bool)
    requires
        from <= to <= v.len(),
    ensures
        b == (v@.subrange(from as int, to as int) == text@),
{
    let t = to_chars(text);
    if t.len() != to - from {
        return false;
    }
    let mut i: usize = 0;
    while i < t.len()
        invariant
            i <= t.len() == to - from,
            from <= to <= v.len(),
            t@ == text@,
            forall|j: int| 0 <= j < i ==> v@[from + j] == t@[j],
        decreases t.len() - i,
    {
        if v[from + i] != t[i] {
            assert(v@.subrange(from as int, to as int)[i as int] != t@[i as int]);
            return false;
        }
        i += 1;
    }
    assert(v@.subrange(from as int, to as int) =~= t@);
    true
}

/// Where the value begins in the line `v[from..to]`, if the line begins with `key`.
fn find_value(v: &Vec<char>, from: usize, to: usize, key: &str) -> (at: Option<usize>)
    requires
        from <= to <= v.len(),
    ensures
        at is Some <==> field_value(v@.subrange(from as int, to as int), key@) is Some,
        at matches Some(p) ==> from <= p <= to && v@.subrange(p as int, to as int) == field_value(
            v@.subrange(from as int, to as int),
            key@,
        )->0,
{
    let k = to_chars(key);
    let ghost text = v@.subrange(from as int, to as int);
    if k.len() > to - from {
        return None;
    }
    let mut i: usize = 0;
    while i < k.len()
        invariant
            i <= k.len() <= to - from,
            from <= to <= v.len(),
            k@ == key@,
            text == v@.subrange(from as int, to as int),
            forall|j: int| 0 <= j < i ==> text[j] == k@[j],
        decreases k.len() - i,
    {
        if v[from + i] != k[i] {
            assert(text.take(k.len() as int)[i as int] != k@[i as int]);
            return None;
        }
        i += 1;
    }
    assert(text.take(k.len() as int) == k@);
    assert(text.skip(k.len() as int) == v@.subrange(from + k.len(), to as int));
    Some(from + k.len())
}

/// Reads the head of a saved session back from its document. `None` for a
/// text that does not begin with such a head, and for a number of rounds
/// that does not fit in `usize`.
pub fn parse_header(document: &str) -> (header: Option<ExportHeader>)
    ensures
        match header_of(document@) {
            Some(h) => if h.total_rounds <= usize::MAX {
                header matches Some(x) && x@ == h
            } else {
                header is None
            },
            None => header is None,
        },
{
    let v = to_chars(document);
    assert(v@.skip(0) == v@);
    let e0 = match find_line_end(&v, 0) {
        Some(e) => e,
        None => { return None; },
    };
    proof {
        lemma_line_in_place(v@, 0, e0 as int);
    }
    let e1 = match find_line_end(&v, e0 + 1) {
        Some(e) => e,
        None => { return None; },
    };
    proof {
        lemma_line_in_place(v@, e0 + 1, e1 as int);
    }
    let e2 = match find_line_end(&v, e1 + 1) {
        Some(e) => e,
        None => { return None; },
    };
    proof {
        lemma_line_in_place(v@, e1 + 1, e2 as int);
    }
    let e3 = match find_line_end(&v, e2 + 1) {
        Some(e) => e,
        None => { return None; },
    };
    proof {
        lemma_line_in_place(v@, e2 + 1, e3 as int);
    }
    let e4 = match find_line_end(&v, e3 + 1) {
        Some(e) => e,
        None => { return None; },
    };
    proof {
        lemma_line_in_place(v@, e3 + 1, e4 as int);
    }
    let e5 = match find_line_end(&v, e4 + 1) {
        Some(e) => e,
        None => { return None; },
    };
    proof {
        lemma_line_in_place(v@, e4 + 1, e5 as int);
    }
    if !line_is(&v, 0, e0, "---") || !line_is(&v, e4 + 1, e5, "---") {
        return None;
    }
    let p1 = match find_value(&v, e0 + 1, e1, "session_start: ") {
        Some(p) => p,
        None => { return None; },
    };
    let p2 = match find_value(&v, e1 + 1, e2, "total_rounds: ") {
        Some(p) => p,
        None => { return None; },
    };
    let p3 = match find_value(&v, e2 + 1, e3, "moonshot_model: ") {
        Some(p) => p,
        None => { return None; },
    };
    let p4 = match find_value(&v, e3 + 1, e4, "deepseek_model: ") {
        Some(p) => p,
        None => { return None; },
    };
    let total_rounds = match parse_decimal_chars(&v, p2, e2) {
        Some(n) => n,
        None => { return None; },
    };
    Some(
        ExportHeader {
            session_start: from_chars(&v, p1, e1),
            total_rounds,
            moonshot_model: from_chars(&v, p3, e3),
            deepseek_model: from_chars(&v, p4, e4),
        },
    )
}

/// A line that begins at `from` in `s` and ends with the line feed at `end`
/// is the first line of what follows `from`, and what follows that line
/// begins after `end`.
proof fn lemma_line_in_place(s: Seq<char>, from: int, end: int)
    requires
        0 <= from <= end < s.len(),
        end - from == line_end(s.skip(from)),
    ensures
        first_line(s.skip(from)) == s.subrange(from, end),
        after_first_line(s.skip(from)) == s.skip(end + 1),
{
}

/// A text without a line feed, written as a line before any other text, is
/// the first line of the whole, and the other text is what follows it.
pub proof fn lemma_first_line(text: Seq<char>, rest: Seq<char>)
    requires
        is_one_line(text),
    ensures
        has_line(line(text) + rest),
        first_line(line(text) + rest) == text,
        after_first_line(line(text) + rest) == rest,
{
    lemma_line_end_after(text, rest);
}

proof fn lemma_line_end_after(text: Seq<char>, rest: Seq<char>)
    requires
        is_one_line(text),
    ensures
        line_end(line(text) + rest) == text.len(),
    decreases text.len(),
{
    let whole = line(text) + rest;
    if text.len() > 0 {
        assert(whole[0] == text[0]);
        assert(whole.drop_first() == line(text.drop_first()) + rest);
        lemma_line_end_after(text.drop_first(), rest);
    } else {
        assert(whole[0] == '\n');
    }
}

/// A key followed by a value is a field with that value.
proof fn lemma_field_value(key: Seq<char>, value: Seq<char>)
    ensures
        field_value(key + value, key) == Some(value),
{
    assert((key + value).take(key.len() as int) == key);
    assert((key + value).skip(key.len() as int) == value);
}

/// The fixed texts of the head of a document hold no line feed.
proof fn lemma_keys_are_one_line()
    ensures
        is_one_line("---"@),
        is_one_line("session_start: "@),
        is_one_line("total_rounds: "@),
        is_one_line("moonshot_model: "@),
        is_one_line("deepseek_model: "@),
{
    reveal_strlit("---");
    reveal_strlit("session_start: ");
    reveal_strlit("total_rounds: ");
    reveal_strlit("moonshot_model: ");
    reveal_strlit("deepseek_model: ");
}

/// A key and a value without line feeds make a text without line feeds.
proof fn lemma_field_is_one_line(key: Seq<char>, value: Seq<char>)
    requires
        is_one_line(key),
        is_one_line(value),
    ensures
        is_one_line(key + value),
{
}

/// The text of a document after its first six lines.
spec fn body_text(turns: Seq<TurnView>, moonshot_model: Seq<char>, deepseek_model: Seq<char>) -> Seq<
    char,
> {
    line(""@) + line("# AIvsAI 对话记录"@) + line(""@) + turns_text(
        turns,
        moonshot_model,
        deepseek_model,
    )
}

/// A document is its first six lines, one after the other, and then the rest.
proof fn lemma_document_lines(
    session: SessionView,
    moonshot_model: Seq<char>,
    deepseek_model: Seq<char>,
)
    ensures
        document_text(session, moonshot_model, deepseek_model) == line("---"@) + (line(
            "session_start: "@ + display_text(session.start_time),
        ) + (line("total_rounds: "@ + decimal(session.turns.len())) + (line(
            "moonshot_model: "@ + moonshot_model,
        ) + (line("deepseek_model: "@ + deepseek_model) + (line("---"@) + body_text(
            session.turns,
            moonshot_model,
            deepseek_model,
        )))))),
{
    let l0 = line("---"@);
    let l1 = line("session_start: "@ + display_text(session.start_time));
    let l2 = line("total_rounds: "@ + decimal(session.turns.len()));
    let l3 = line("moonshot_model: "@ + moonshot_model);
    let l4 = line("deepseek_model: "@ + deepseek_model);
    let l6 = line(""@);
    let l7 = line("# AIvsAI 对话记录"@);
    let t = turns_text(session.turns, moonshot_model, deepseek_model);
    let body = body_text(session.turns, moonshot_model, deepseek_model);
    assert(l0 + l1 + l2 + l3 + l4 + l0 + l6 + l7 + l6 + t == (l0 + l1 + l2 + l3 + l4 + l0) + body);
    assert(l0 + l1 + l2 + l3 + l4 + l0 == l0 + (l1 + (l2 + (l3 + (l4 + l0)))));
    assert((l0 + (l1 + (l2 + (l3 + (l4 + l0))))) + body == l0 + (l1 + (l2 + (l3 + (l4 + (l0 + body))))));
}

/// Reading the head of the document of a session gives back when the session
/// began, the number of its rounds and the names of the two models, whatever
/// the rounds hold, as long as neither name has a line feed in it.
pub proof fn lemma_header_round_trip(
    session: SessionView,
    moonshot_model: Seq<char>,
    deepseek_model: Seq<char>,
)
    requires
        session.well_formed(),
        is_one_line(moonshot_model),
        is_one_line(deepseek_model),
    ensures
        header_of(document_text(session, moonshot_model, deepseek_model)) == Some(
            HeaderView {
                session_start: display_text(session.start_time),
                total_rounds: session.turns.len(),
                moonshot_model,
                deepseek_model,
            },
        ),
{
    let rounds = session.turns.len();
    let rule = "---"@;
    let start = "session_start: "@ + display_text(session.start_time);
    let count = "total_rounds: "@ + decimal(rounds);
    let moonshot = "moonshot_model: "@ + moonshot_model;
    let deepseek = "deepseek_model: "@ + deepseek_model;
    let r6 = body_text(session.turns, moonshot_model, deepseek_model);
    let r5 = line(rule) + r6;
    let r4 = line(deepseek) + r5;
    let r3 = line(moonshot) + r4;
    let r2 = line(count) + r3;
    let r1 = line(start) + r2;
    let document = document_text(session, moonshot_model, deepseek_model);
    lemma_document_lines(session, moonshot_model, deepseek_model);
    assert(document == line(rule) + r1);
    lemma_keys_are_one_line();
    lemma_display_text_is_one_line(session.start_time);
    lemma_decimal_is_digits(rounds);
    lemma_field_is_one_line("session_start: "@, display_text(session.start_time));
    lemma_field_is_one_line("total_rounds: "@, decimal(rounds));
    lemma_field_is_one_line("moonshot_model: "@, moonshot_model);
    lemma_field_is_one_line("deepseek_model: "@, deepseek_model);
    lemma_first_line(rule, r1);
    lemma_first_line(start, r2);
    lemma_first_line(count, r3);
    lemma_first_line(moonshot, r4);
    lemma_first_line(deepseek, r5);
    lemma_first_line(rule, r6);
    assert(after_first_line(document) == r1);
    assert(after_first_line(r1) == r2);
    assert(after_first_line(r2) == r3);
    assert(after_first_line(r3) == r4);
    assert(after_first_line(r4) == r5);
    lemma_field_value("session_start: "@, display_text(session.start_time));
    lemma_field_value("total_rounds: "@, decimal(rounds));
    lemma_field_value("moonshot_model: "@, moonshot_model);
    lemma_field_value("deepseek_model: "@, deepseek_model);
    lemma_decimal_round_trip(rounds);
}

/// The name of the file whose presence marks the root of a project.
pub fn manifest_file_name() -> (name: &'static str)
    ensures
        name@ == "Cargo.toml"@,
{
    "Cargo.toml"
}

/// The name of the directory, under the root of the project, that holds the
/// saved sessions.
pub fn export_dir_name() -> (name: &'static str)
    ensures
        name@ == "conversations"@,
{
    "conversations"
}

/// Picks the root of the project. `has_manifest` says, for the working
/// directory (at 0) and then for each directory above it, nearest first,
/// whether it holds a manifest. The root is the nearest directory that holds
/// one, and the working directory where none does.
pub fn find_project_dir(has_manifest: &Vec<bool>) -> (index: usize)
    ensures
        has_manifest@.contains(true) ==> index < has_manifest.len() && has_manifest[index as int],
        forall|i: int| 0 <= i < index ==> !has_manifest[i],
        !has_manifest@.contains(true) ==> index == 0,
{
    let n = has_manifest.len();
    let mut i: usize = 0;
    while i < n && !has_manifest[i]
        invariant
            i <= n == has_manifest.len(),
            forall|j: int| 0 <= j < i ==> !has_manifest[j],
        decreases n - i,
    {
        i += 1;
    }
    if i < n {
        i
    } else {
        0
    }
}

pub struct ExportFileView {
    pub directory: Seq<char>,
    pub filename: Seq<char>,
    pub content: Seq<char>,
}

/// A file to write: the directory under the root of the project, the name
/// of the file in it, and all that the file holds.
#[derive(Clone, Debug, PartialEq, Eq)]
pub struct ExportFile {
    pub directory: String,
    pub filename: String,
    pub content: String,
}

impl View for ExportFile {
    type V = ExportFileView;

    open spec fn view(&self) -> ExportFileView {
        ExportFileView {
            directory: self.directory@,
            filename: self.filename@,
            content: self.content@,
        }
    }
}

/// The question that names the file of a session: its first one, and the
/// word `conversation` for a session without rounds.
pub open spec fn naming_question(session: SessionView) -> Seq<char> {
    if session.turns.len() > 0 {
        session.turns[0].user_question
    } else {
        "conversation"@
    }
}

/// The file that saving `session` at `now` writes.
pub open spec fn export_of(
    session: SessionView,
    moonshot_model: Seq<char>,
    deepseek_model: Seq<char>,
    now: CalendarTime,
) -> ExportFileView {
    ExportFileView {
        directory: "conversations"@,
        filename: filename_text(now, naming_question(session)),
        content: document_text(session, moonshot_model, deepseek_model),
    }
}

/// The file that saving `session` at `now` writes.
pub fn export_at(
    session: &ConversationSession,
    moonshot_model: &str,
    deepseek_model: &str,
    now: Timestamp,
) -> (file: ExportFile)
    ensures
        file@ == export_of(session@, moonshot_model@, deepseek_model@, now@),
{
    let filename = match session.first_question() {
        Some(question) => filename_at(now, question),
        None => filename_at(now, "conversation"),
    };
    ExportFile {
        directory: export_dir_name().to_owned(),
        filename,
        content: render_session(session, moonshot_model, deepseek_model),
    }
}

/// The file that saving `session` now writes: `export_at` with the time of
/// the system clock.
pub fn save_conversation_session(
    session: &ConversationSession,
    moonshot_model: &str,
    deepseek_model: &str,
) -> (file: ExportFile)
    ensures
        exists|now: CalendarTime|
            is_calendar_time(now) && file@ == export_of(
                session@,
                moonshot_model@,
                deepseek_model@,
                now,
            ),
{
    let now = Timestamp::now();
    let file = export_at(session, moonshot_model, deepseek_model, now);
    assert(is_calendar_time(now@) && file@ == export_of(
        session@,
        moonshot_model@,
        deepseek_model@,
        now@,
    ));
    file
}

} // verus!
