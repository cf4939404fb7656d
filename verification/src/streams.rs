//! The JSON lines the chat server and the benchmark runner write, and what
//! each does to the conversation, the results table and the log.

use vstd::prelude::*;

use crate::app::{effect_views, log_views, result_views, App, AppView, Effect, EffectView};
use crate::json::{json_parses, json_text_at, pair_views, parses, text_at};
use crate::menu::LogLevel;
use crate::parser::{EventView, ParsedEvent};
use crate::progress::{MessageView, SubprocessMessage};
use crate::screens::{effects0, effects1};
use crate::text::trim;

verus! {

/// The text of a JSON line's member `key`, when it is a string.
pub open spec fn member(line: Seq<char>, key: Seq<char>) -> Option<Seq<char>> {
    json_text_at(line, seq![key])
}

/// `o`, or `d` when there is none.
pub open spec fn or_else(o: Option<Seq<char>>, d: Seq<char>) -> Seq<char> {
    match o {
        Some(v) => v,
        None => d,
    }
}

// ─── Chat ──────────────────────────────────────────────────────

/// The conversation after a streamed token: added to the assistant's
/// message being written, or starting one.
pub open spec fn with_token(ms: Seq<(Seq<char>, Seq<char>)>, t: Seq<char>) -> Seq<(Seq<char>, Seq<char>)> {
    if ms.len() > 0 && ms.last().0 == "assistant"@ {
        ms.update(ms.len() - 1, (ms.last().0, ms.last().1 + t))
    } else {
        ms.push(("assistant"@, t))
    }
}

/// The chat server is ready.
#[verifier::opaque]
pub open spec fn chat_ready_state(s: AppView) -> AppView {
    AppView {
        chat_loading: false,
        status_message: "Chat ready."@,
        chat_messages: s.chat_messages.push(("system"@, "Model loaded! Type a message and press Enter."@)),
        ..s
    }
}

/// A status note of the chat server.
#[verifier::opaque]
pub open spec fn chat_status_state(s: AppView, c: Seq<char>) -> AppView {
    AppView { status_message: c, chat_messages: s.chat_messages.push(("system"@, c)), ..s }
}

/// A streamed token of the reply.
#[verifier::opaque]
pub open spec fn chat_token_state(s: AppView, c: Seq<char>) -> AppView {
    AppView { chat_messages: with_token(s.chat_messages, c), chat_streaming: true, ..s }
}

/// The reply is complete.
#[verifier::opaque]
pub open spec fn chat_done_state(s: AppView) -> AppView {
    AppView { chat_streaming: false, ..s }
}

/// The chat server reported an error, with its text when it gave one.
#[verifier::opaque]
pub open spec fn chat_error_state(s: AppView, content: Option<Seq<char>>) -> AppView {
    let t = match content {
        Some(c) => AppView {
            chat_messages: s.chat_messages.push(("system"@, "Error: "@ + c)),
            status_message: "Chat error."@,
            ..s
        },
        None => s,
    };
    AppView { chat_loading: false, chat_streaming: false, ..t }
}

/// A line of the chat server: `ready`, `status`, `token`, `done` or `error`
/// by its `type`; other lines change nothing.
#[verifier::opaque]
pub open spec fn chat_line(s: AppView, line: Seq<char>) -> AppView {
    let kind = member(line, "type"@);
    let content = member(line, "content"@);
    if kind == Some("ready"@) {
        chat_ready_state(s)
    } else if kind == Some("status"@) {
        match content {
            Some(c) => chat_status_state(s, c),
            None => s,
        }
    } else if kind == Some("token"@) {
        match content {
            Some(c) => chat_token_state(s, c),
            None => s,
        }
    } else if kind == Some("done"@) {
        chat_done_state(s)
    } else if kind == Some("error"@) {
        chat_error_state(s, content)
    } else {
        s
    }
}

/// A message of the chat server.
#[verifier::opaque]
pub open spec fn chat_message(s: AppView, m: MessageView) -> (AppView, Seq<EffectView>) {
    match m {
        MessageView::Event(EventView::Raw(line)) => (chat_line(s, line), seq![]),
        MessageView::Event(_) => (s, seq![]),
        MessageView::Exited(_) => (
            AppView {
                has_chat_process: false,
                chat_loading: false,
                chat_streaming: false,
                status_message: "Chat server disconnected."@,
                chat_messages: s.chat_messages.push(("system"@, "Chat server disconnected."@)),
                ..s
            },
            seq![EffectView::DropChat],
        ),
        MessageView::SpawnError(err) => (
            AppView {
                chat_loading: false,
                chat_streaming: false,
                status_message: "Failed to start chat: "@ + err,
                chat_messages: s.chat_messages.push(("system"@, "Failed to start chat: "@ + err)),
                ..s
            },
            seq![],
        ),
    }
}

fn str_of(s: &str) -> (r: String)
    ensures
        r@ == s@,
{
    String::from_str(s)
}

fn cat(a: &str, b: &str) -> (r: String)
    ensures
        r@ == a@ + b@,
{
    let mut v = crate::text::to_chars(a);
    crate::text::append_str(&mut v, b);
    crate::text::from_chars(&v)
}

fn member_of(line: &str, key: &str) -> (r: Option<String>)
    ensures
        crate::app::opt_view(r) == member(line@, key@),
{
    let path = [key];
    assert(crate::json::str_views(path@) =~= seq![key@]);
    text_at(line, &path)
}

fn is_kind(kind: &Option<String>, lit: &str) -> (r: bool)
    ensures
        r == (crate::app::opt_view(*kind) == Some(lit@)),
{
    match kind {
        Some(k) => crate::text::chars_equal(&crate::text::to_chars(k.as_str()), &crate::text::to_chars(lit)),
        None => false,
    }
}

fn push_pair(v: &mut Vec<(String, String)>, role: &str, content: String)
    ensures
        pair_views(final(v)@) == pair_views(old(v)@).push((role@, content@)),
{
    v.push((str_of(role), content));
    assert(pair_views(v@) =~= pair_views(old(v)@).push((role@, content@)));
}

fn add_token(v: &mut Vec<(String, String)>, t: String)
    ensures
        pair_views(final(v)@) == with_token(pair_views(old(v)@), t@),
{
    let n = v.len();
    if n > 0 && crate::text::chars_equal(&crate::text::to_chars(v[n - 1].0.as_str()), &crate::text::to_chars("assistant")) {
        let mut body = crate::text::to_chars(v[n - 1].1.as_str());
        crate::text::append_str(&mut body, t.as_str());
        let entry = (v[n - 1].0.clone(), crate::text::from_chars(&body));
        let ghost before = pair_views(v@);
        v.set(n - 1, entry);
        assert(pair_views(v@) =~= before.update(n - 1, (before.last().0, before.last().1 + t@)));
    } else {
        push_pair(v, "assistant", t);
    }
}

impl App {
    fn chat_ready(self) -> (r: App)
        ensures
            r@ == chat_ready_state(self@),
    {
        proof {
            reveal(chat_ready_state);
        }
        let mut a = self;
        a.chat_loading = false;
        a.status_message = str_of("Chat ready.");
        push_pair(&mut a.chat_messages, "system", str_of("Model loaded! Type a message and press Enter."));
        a
    }

    fn chat_status(self, c: String) -> (r: App)
        ensures
            r@ == chat_status_state(self@, c@),
    {
        proof {
            reveal(chat_status_state);
        }
        let mut a = self;
        a.status_message = c.clone();
        push_pair(&mut a.chat_messages, "system", c);
        a
    }

    fn chat_token(self, c: String) -> (r: App)
        ensures
            r@ == chat_token_state(self@, c@),
    {
        proof {
            reveal(chat_token_state);
        }
        let mut a = self;
        add_token(&mut a.chat_messages, c);
        a.chat_streaming = true;
        a
    }

    fn chat_done(self) -> (r: App)
        ensures
            r@ == chat_done_state(self@),
    {
        proof {
            reveal(chat_done_state);
        }
        let mut a = self;
        a.chat_streaming = false;
        a
    }

    fn chat_error(self, content: Option<String>) -> (r: App)
        ensures
            r@ == chat_error_state(self@, crate::app::opt_view(content)),
    {
        proof {
            reveal(chat_error_state);
        }
        let mut a = self;
        if let Some(c) = content {
            push_pair(&mut a.chat_messages, "system", cat("Error: ", c.as_str()));
            a.status_message = str_of("Chat error.");
        }
        a.chat_loading = false;
        a.chat_streaming = false;
        a
    }

    fn chat_line_step(self, line: &String) -> (r: App)
        ensures
            r@ == chat_line(self@, line@),
    {
        proof {
            reveal(chat_line);
        }
        let kind = member_of(line.as_str(), "type");
        let content = member_of(line.as_str(), "content");
        if is_kind(&kind, "ready") {
            self.chat_ready()
        } else if is_kind(&kind, "status") {
            match content {
                Some(c) => self.chat_status(c),
                None => self,
            }
        } else if is_kind(&kind, "token") {
            match content {
                Some(c) => self.chat_token(c),
                None => self,
            }
        } else if is_kind(&kind, "done") {
            self.chat_done()
        } else if is_kind(&kind, "error") {
            self.chat_error(content)
        } else {
            self
        }
    }

    fn chat_disconnected(self) -> (r: App)
        ensures
            r@ == (AppView {
                has_chat_process: false,
                chat_loading: false,
                chat_streaming: false,
                status_message: "Chat server disconnected."@,
                chat_messages: self@.chat_messages.push(("system"@, "Chat server disconnected."@)),
                ..self@
            }),
    {
        let mut a = self;
        a.has_chat_process = false;
        a.chat_loading = false;
        a.chat_streaming = false;
        a.status_message = str_of("Chat server disconnected.");
        push_pair(&mut a.chat_messages, "system", str_of("Chat server disconnected."));
        a
    }

    fn chat_start_failed(self, err: String) -> (r: App)
        ensures
            r@ == (AppView {
                chat_loading: false,
                chat_streaming: false,
                status_message: "Failed to start chat: "@ + err@,
                chat_messages: self@.chat_messages.push(("system"@, "Failed to start chat: "@ + err@)),
                ..self@
            }),
    {
        let mut a = self;
        a.chat_loading = false;
        a.chat_streaming = false;
        let msg = cat("Failed to start chat: ", err.as_str());
        a.status_message = msg.clone();
        push_pair(&mut a.chat_messages, "system", msg);
        a
    }

    fn chat_step(self, message: SubprocessMessage) -> (r: (App, Vec<Effect>))
        ensures
            (r.0@, effect_views(r.1@)) == chat_message(self@, message@),
    {
        proof {
            reveal(chat_message);
        }
        match message {
            SubprocessMessage::Event(ParsedEvent::Raw(line)) => (self.chat_line_step(&line), effects0()),
            SubprocessMessage::Event(_) => (self, effects0()),
            SubprocessMessage::Exited(_) => (self.chat_disconnected(), effects1(Effect::DropChat)),
            SubprocessMessage::SpawnError(err) => (self.chat_start_failed(err), effects0()),
        }
    }

    /// A message of the chat server; the work to perform next.
    pub fn on_chat_message(&mut self, message: SubprocessMessage) -> (r: Vec<Effect>)
        ensures
            (final(self)@, effect_views(r@)) == chat_message(old(self)@, message@),
    {
        let mut current = App::new(String::new(), String::new());
        core::mem::swap(self, &mut current);
        let (next, effects) = current.chat_step(message);
        *self = next;
        effects
    }
}

// ─── Benchmarks ────────────────────────────────────────────────

/// A benchmark result line: its benchmark (`unknown` when unnamed), metric
/// and value join the results table.
#[verifier::opaque]
pub open spec fn bench_result_state(s: AppView, line: Seq<char>) -> AppView {
    AppView {
        benchmark_results: s.benchmark_results.push(
            (
                or_else(member(line, "benchmark"@), "unknown"@),
                or_else(member(line, "metric"@), ""@),
                or_else(member(line, "value"@), ""@),
            ),
        ),
        ..s
    }
}

/// A status note of the benchmark runner.
#[verifier::opaque]
pub open spec fn bench_status_state(s: AppView, c: Seq<char>) -> AppView {
    AppView { status_message: c, log_lines: s.log_lines.push((c, LogLevel::Info)), ..s }
}

/// The benchmarks are complete, with a closing note when one was given.
#[verifier::opaque]
pub open spec fn bench_done_state(s: AppView, content: Option<Seq<char>>) -> AppView {
    let t = AppView { benchmark_running: false, status_message: "Benchmarks completed."@, ..s };
    match content {
        Some(c) => AppView { log_lines: t.log_lines.push((c, LogLevel::Success)), ..t },
        None => t,
    }
}

/// The benchmark runner reported an error, with its text when it gave one.
#[verifier::opaque]
pub open spec fn bench_error_state(s: AppView, content: Option<Seq<char>>) -> AppView {
    let t = match content {
        Some(c) => AppView {
            log_lines: s.log_lines.push(("Benchmark error: "@ + c, LogLevel::Error)),
            status_message: "Benchmark failed."@,
            ..s
        },
        None => s,
    };
    AppView { benchmark_running: false, ..t }
}

/// A JSON line of the benchmark runner, by its `type`.
#[verifier::opaque]
pub open spec fn bench_json(s: AppView, line: Seq<char>) -> AppView {
    let kind = member(line, "type"@);
    let content = member(line, "content"@);
    if kind == Some("result"@) {
        bench_result_state(s, line)
    } else if kind == Some("status"@) {
        match content {
            Some(c) => bench_status_state(s, c),
            None => s,
        }
    } else if kind == Some("done"@) {
        bench_done_state(s, content)
    } else if kind == Some("error"@) {
        bench_error_state(s, content)
    } else {
        s
    }
}

/// A line of the benchmark runner: a JSON `result`, `status`, `done` or
/// `error` by its `type`; any other non-blank line is logged dimmed.
#[verifier::opaque]
pub open spec fn bench_line(s: AppView, line: Seq<char>) -> AppView {
    if json_parses(line) {
        bench_json(s, line)
    } else if trim(line).len() > 0 {
        AppView { log_lines: s.log_lines.push((line, LogLevel::Dim)), ..s }
    } else {
        s
    }
}

/// A message of the benchmark runner.
#[verifier::opaque]
pub open spec fn bench_message(s: AppView, m: MessageView) -> (AppView, Seq<EffectView>) {
    match m {
        MessageView::Event(EventView::Raw(line)) => (bench_line(s, line), seq![]),
        MessageView::Event(_) => (s, seq![]),
        MessageView::Exited(_) => (
            AppView { has_benchmark_process: false, benchmark_running: false, ..s },
            seq![EffectView::DropBenchmark],
        ),
        MessageView::SpawnError(err) => (
            AppView {
                benchmark_running: false,
                log_lines: s.log_lines.push(("Benchmark error: "@ + err, LogLevel::Error)),
                ..s
            },
            seq![],
        ),
    }
}

fn or_str(o: Option<String>, d: &str) -> (r: String)
    ensures
        r@ == or_else(crate::app::opt_view(o), d@),
{
    match o {
        Some(v) => v,
        None => str_of(d),
    }
}

fn push_log_line(v: &mut Vec<(String, LogLevel)>, msg: String, level: LogLevel)
    ensures
        log_views(final(v)@) == log_views(old(v)@).push((msg@, level)),
{
    v.push((msg, level));
    assert(log_views(v@) =~= log_views(old(v)@).push((msg@, level)));
}

impl App {
    fn bench_result(self, line: &String) -> (r: App)
        ensures
            r@ == bench_result_state(self@, line@),
    {
        proof {
            reveal(bench_result_state);
        }
        let mut a = self;
        let bench = or_str(member_of(line.as_str(), "benchmark"), "unknown");
        let metric = or_str(member_of(line.as_str(), "metric"), "");
        let value = or_str(member_of(line.as_str(), "value"), "");
        let ghost before = result_views(a.benchmark_results@);
        let ghost entry = (bench@, metric@, value@);
        a.benchmark_results.push((bench, metric, value));
        assert(result_views(a.benchmark_results@) =~= before.push(entry));
        a
    }

    fn bench_status(self, c: String) -> (r: App)
        ensures
            r@ == bench_status_state(self@, c@),
    {
        proof {
            reveal(bench_status_state);
        }
        let mut a = self;
        a.status_message = c.clone();
        push_log_line(&mut a.log_lines, c, LogLevel::Info);
        a
    }

    #[verifier::rlimit(40)]
    fn bench_done(self, content: Option<String>) -> (r: App)
        ensures
            r@ == bench_done_state(self@, crate::app::opt_view(content)),
    {
        proof {
            reveal(bench_done_state);
        }
        let mut a = self;
        let ghost t = AppView {
            benchmark_running: false,
            status_message: "Benchmarks completed."@,
            ..self@
        };
        a.benchmark_running = false;
        a.status_message = str_of("Benchmarks completed.");
        assert(a@ == t);
        match content {
            Some(c) => {
                push_log_line(&mut a.log_lines, c, LogLevel::Success);
                a
            },
            None => a,
        }
    }

    fn bench_error(self, content: Option<String>) -> (r: App)
        ensures
            r@ == bench_error_state(self@, crate::app::opt_view(content)),
    {
        proof {
            reveal(bench_error_state);
        }
        let mut a = self;
        if let Some(c) = content {
            push_log_line(&mut a.log_lines, cat("Benchmark error: ", c.as_str()), LogLevel::Error);
            a.status_message = str_of("Benchmark failed.");
        }
        a.benchmark_running = false;
        a
    }

    fn bench_json_line(self, line: &String) -> (r: App)
        ensures
            r@ == bench_json(self@, line@),
    {
        proof {
            reveal(bench_json);
        }
        let kind = member_of(line.as_str(), "type");
        let content = member_of(line.as_str(), "content");
        if is_kind(&kind, "result") {
            self.bench_result(line)
        } else if is_kind(&kind, "status") {
            match content {
                Some(c) => self.bench_status(c),
                None => self,
            }
        } else if is_kind(&kind, "done") {
            self.bench_done(content)
        } else if is_kind(&kind, "error") {
            self.bench_error(content)
        } else {
            self
        }
    }

    fn bench_line_step(self, line: String) -> (r: App)
        ensures
            r@ == bench_line(self@, line@),
    {
        proof {
            reveal(bench_line);
        }
        if parses(line.as_str()) {
            return self.bench_json_line(&line);
        }
        let mut a = self;
        let t = crate::text::trim_chars(&crate::text::to_chars(line.as_str()));
        if t.len() > 0 {
            push_log_line(&mut a.log_lines, line, LogLevel::Dim);
        }
        a
    }

    fn bench_exited(self) -> (r: App)
        ensures
            r@ == (AppView { has_benchmark_process: false, benchmark_running: false, ..self@ }),
    {
        let mut a = self;
        a.has_benchmark_process = false;
        a.benchmark_running = false;
        a
    }

    fn bench_start_failed(self, err: String) -> (r: App)
        ensures
            r@ == (AppView {
                benchmark_running: false,
                log_lines: self@.log_lines.push(("Benchmark error: "@ + err@, LogLevel::Error)),
                ..self@
            }),
    {
        let mut a = self;
        a.benchmark_running = false;
        push_log_line(&mut a.log_lines, cat("Benchmark error: ", err.as_str()), LogLevel::Error);
        a
    }

    fn bench_step(self, message: SubprocessMessage) -> (r: (App, Vec<Effect>))
        ensures
            (r.0@, effect_views(r.1@)) == bench_message(self@, message@),
    {
        proof {
            reveal(bench_message);
        }
        match message {
            SubprocessMessage::Event(ParsedEvent::Raw(line)) => (self.bench_line_step(line), effects0()),
            SubprocessMessage::Event(_) => (self, effects0()),
            SubprocessMessage::Exited(_) => (self.bench_exited(), effects1(Effect::DropBenchmark)),
            SubprocessMessage::SpawnError(err) => (self.bench_start_failed(err), effects0()),
        }
    }

    /// A message of the benchmark runner; the work to perform next.
    pub fn on_bench_message(&mut self, message: SubprocessMessage) -> (r: Vec<Effect>)
        ensures
            (final(self)@, effect_views(r@)) == bench_message(old(self)@, message@),
    {
        let mut current = App::new(String::new(), String::new());
        core::mem::swap(self, &mut current);
        let (next, effects) = current.bench_step(message);
        *self = next;
        effects
    }
}

} // verus!
