use webhook_shell::commands::{command_from_lower, commands, lookup_command, Command, WEBHOOK_PREFIX};
use webhook_shell::completion::{complete, Candidate, Completions, Suffix};
use webhook_shell::dispatch::{
    finish, finish_connect, plan, plan_command, Action, Outcome, Rejection, Reply, Request,
};
use webhook_shell::history::History;
use webhook_shell::json::{frame_object, object_with};
use webhook_shell::session::SessionState;
use webhook_shell::tokenizer::{is_whitespace, split_first_word};

const URL: &str = "https://discord.com/api/webhooks/1003/abc";

fn texts(c: &Completions) -> Vec<String> {
    match c {
        Completions::NoOpinion => panic!("expected candidates"),
        Completions::Candidates(v) => v.iter().map(|c| c.text.clone()).collect(),
    }
}

fn selected() -> SessionState {
    let mut s = SessionState::new();
    s.set(URL.to_string());
    s
}

/// A stand-in for the webhook API that answers with fixed replies and counts calls.
struct FakeBackend {
    calls: usize,
    status: u16,
    body: String,
}

impl FakeBackend {
    fn call(&mut self, _req: &Request) -> Reply {
        self.calls += 1;
        Reply::Status { code: self.status, body: self.body.clone() }
    }
}

/// Runs lines through the shell until one ends it; returns how many lines were read.
fn drive(state: &mut SessionState, backend: &mut FakeBackend, lines: &[&str]) -> usize {
    let mut read = 0;
    for line in lines {
        read += 1;
        match plan(state, line) {
            Action::Quit => break,
            Action::Call(req) => {
                let reply = backend.call(&req);
                if finish(state, req, reply).ends_session() {
                    break;
                }
            }
            _ => {}
        }
    }
    read
}

#[test]
fn split_trims_line_and_argument_start() {
    assert_eq!(split_first_word("  select  foo bar  "), ("select", "foo bar"));
    assert_eq!(split_first_word("send   hello  world"), ("send", "hello  world"));
    assert_eq!(split_first_word("help"), ("help", ""));
    assert_eq!(split_first_word("quit\t\n"), ("quit", ""));
    assert_eq!(split_first_word("a\u{3000}b"), ("a", "b"));
}

#[test]
fn split_blank_lines() {
    assert_eq!(split_first_word(""), ("", ""));
    assert_eq!(split_first_word("   \t  "), ("", ""));
    assert_eq!(split_first_word("\u{a0}\u{2028}"), ("", ""));
}

#[test]
fn whitespace_classification() {
    for c in [' ', '\t', '\n', '\r', '\u{b}', '\u{c}', '\u{85}', '\u{a0}', '\u{2000}', '\u{3000}'] {
        assert!(is_whitespace(c));
        assert_eq!(is_whitespace(c), c.is_whitespace());
    }
    for c in ['a', '0', '_', '\u{200b}', 'é'] {
        assert!(!is_whitespace(c));
        assert_eq!(is_whitespace(c), c.is_whitespace());
    }
}

#[test]
fn lookup_ignores_case() {
    assert_eq!(lookup_command("SELECT"), Some(Command::Select));
    assert_eq!(lookup_command("Select"), Some(Command::Select));
    assert_eq!(lookup_command("select"), Some(Command::Select));
    assert_eq!(lookup_command("SetName"), Some(Command::SetName));
    assert_eq!(lookup_command("selec"), None);
    assert_eq!(lookup_command(""), None);
}

#[test]
fn lookup_of_lower_case_names() {
    for c in commands() {
        assert_eq!(command_from_lower(c.name()), Some(c));
        assert_eq!(lookup_command(c.name()), Some(c));
    }
    assert_eq!(command_from_lower("SELECT"), None);
    assert_eq!(command_from_lower("help "), None);
}

#[test]
fn command_table_order() {
    let names: Vec<&str> = commands().iter().map(|c| c.name()).collect();
    assert_eq!(names, vec!["select", "delete", "send", "setname", "help", "quit"]);
    assert_eq!(Command::Help.help(), "You're looking at it");
}

#[test]
fn complete_command_prefix() {
    let r = complete("", "se");
    assert_eq!(texts(&r), vec!["select", "send", "setname"]);
    if let Completions::Candidates(v) = r {
        assert!(v.iter().all(|c| c.display.is_none() && c.suffix == Suffix::Default));
    }
    assert_eq!(texts(&complete("  ", "sel")), vec!["select"]);
    assert_eq!(texts(&complete("", "")), vec!["select", "delete", "send", "setname", "help", "quit"]);
}

#[test]
fn complete_no_matching_name_is_empty() {
    assert_eq!(complete("", "x"), Completions::Candidates(vec![]));
    assert_eq!(complete("", "SE"), Completions::Candidates(vec![]));
}

#[test]
fn complete_after_delete() {
    assert_eq!(texts(&complete("delete ", "")), vec!["confirm"]);
    assert_eq!(texts(&complete("delete ", "co")), vec!["confirm"]);
}

#[test]
fn complete_after_select() {
    assert_eq!(
        complete("select ", ""),
        Completions::Candidates(vec![Candidate {
            text: WEBHOOK_PREFIX.to_string(),
            display: None,
            suffix: Suffix::NoSuffix,
        }])
    );
}

#[test]
fn complete_after_send() {
    assert_eq!(texts(&complete("send ", "")), vec!["Hello chat"]);
}

#[test]
fn complete_second_argument_defers() {
    assert_eq!(complete("select foo ", ""), Completions::NoOpinion);
    assert_eq!(complete("help ", ""), Completions::NoOpinion);
    assert_eq!(complete("Delete ", ""), Completions::NoOpinion);
}

#[test]
fn send_before_select_is_refused() {
    let state = SessionState::new();
    assert_eq!(plan(&state, "send hello"), Action::Reject(Rejection::NotSelected));
    assert_eq!(plan(&state, "setname bot"), Action::Reject(Rejection::NotSelected));
    assert_eq!(plan(&state, "delete confirm"), Action::Reject(Rejection::NotSelected));
    let mut state = SessionState::new();
    let mut backend = FakeBackend { calls: 0, status: 204, body: String::new() };
    drive(&mut state, &mut backend, &["send hello"]);
    assert_eq!(backend.calls, 0);
    assert_eq!(state.get(), None);
}

#[test]
fn select_validates_argument() {
    let state = SessionState::new();
    assert_eq!(plan(&state, "select"), Action::Reject(Rejection::NoUrl));
    assert_eq!(plan(&state, "select http://example.com"), Action::Reject(Rejection::BadPrefix));
    assert_eq!(
        plan(&state, &format!("SELECT  {}", URL)),
        Action::Call(Request::Connect { url: URL.to_string() })
    );
}

#[test]
fn select_not_found_keeps_state() {
    let mut state = SessionState::new();
    let req = Request::Connect { url: URL.to_string() };
    let out = finish(&mut state, req, Reply::Status { code: 404, body: String::new() });
    assert_eq!(out, Outcome::UnknownWebhook);
    assert_eq!(state.get(), None);
}

#[test]
fn select_other_failures_keep_state() {
    let mut state = SessionState::new();
    let r = finish(&mut state, Request::Connect { url: URL.to_string() }, Reply::Status { code: 401, body: String::new() });
    assert_eq!(r, Outcome::InvalidToken);
    let r = finish(&mut state, Request::Connect { url: URL.to_string() }, Reply::Status { code: 500, body: "oops".to_string() });
    assert_eq!(r, Outcome::Failed { code: 500, body: "oops".to_string() });
    let r = finish(&mut state, Request::Connect { url: URL.to_string() }, Reply::Status { code: 200, body: "{}".to_string() });
    assert_eq!(r, Outcome::MalformedInfo);
    let r = finish(&mut state, Request::Connect { url: URL.to_string() }, Reply::Unreachable);
    assert_eq!(r, Outcome::Unreachable);
    assert_eq!(state.get(), None);
}

#[test]
fn select_success_stores_handle() {
    let mut state = SessionState::new();
    let body = "{\"channel_id\":\"42\",\"name\":\"bot\",\"id\":\"1\"}".to_string();
    let out = finish(&mut state, Request::Connect { url: URL.to_string() }, Reply::Status { code: 200, body });
    assert_eq!(out, Outcome::Connected { channel: "42".to_string(), name: "bot".to_string() });
    assert_eq!(state.get(), Some(URL));
}

#[test]
fn connect_needs_both_fields() {
    let mut state = SessionState::new();
    let out = finish_connect(&mut state, URL.to_string(), Some("42".to_string()), None);
    assert_eq!(out, Outcome::MalformedInfo);
    assert_eq!(state.get(), None);
    let out = finish_connect(&mut state, URL.to_string(), Some("42".to_string()), Some("n".to_string()));
    assert_eq!(out, Outcome::Connected { channel: "42".to_string(), name: "n".to_string() });
    assert_eq!(state.get(), Some(URL));
}

#[test]
fn delete_confirmed_clears_and_ends() {
    let mut state = selected();
    let mut backend = FakeBackend { calls: 0, status: 204, body: String::new() };
    let read = drive(&mut state, &mut backend, &["delete confirm", "help"]);
    assert_eq!(read, 1);
    assert_eq!(backend.calls, 1);
    assert_eq!(state.get(), None);
}

#[test]
fn delete_failure_keeps_selection() {
    let mut state = selected();
    let out = finish(&mut state, Request::Delete { url: URL.to_string() }, Reply::Status { code: 403, body: "no".to_string() });
    assert_eq!(out, Outcome::Failed { code: 403, body: "no".to_string() });
    assert!(!out.ends_session());
    assert_eq!(state.get(), Some(URL));
}

#[test]
fn delete_unconfirmed_is_refused() {
    let mut state = selected();
    assert_eq!(plan(&state, "delete no"), Action::Reject(Rejection::NotConfirmed));
    assert_eq!(plan(&state, "delete"), Action::Reject(Rejection::NotConfirmed));
    assert_eq!(plan(&state, "delete CONFIRM"), Action::Reject(Rejection::NotConfirmed));
    let mut backend = FakeBackend { calls: 0, status: 204, body: String::new() };
    let read = drive(&mut state, &mut backend, &["delete no", "help"]);
    assert_eq!(read, 2);
    assert_eq!(backend.calls, 0);
    assert_eq!(state.get(), Some(URL));
}

#[test]
fn send_and_rename_bodies() {
    let state = selected();
    assert_eq!(
        plan(&state, "send Hello \"chat\""),
        Action::Call(Request::Send {
            url: URL.to_string(),
            body: "{\"content\":\"Hello \\\"chat\\\"\"}".to_string()
        })
    );
    assert_eq!(
        plan(&state, "setname  My Bot"),
        Action::Call(Request::Rename { url: URL.to_string(), body: "{\"name\":\"My Bot\"}".to_string() })
    );
    assert_eq!(plan(&state, "send"), Action::Reject(Rejection::EmptyMessage));
    assert_eq!(plan(&state, "setname   "), Action::Reject(Rejection::EmptyName));
}

#[test]
fn send_and_rename_replies() {
    let mut state = selected();
    let send = Request::Send { url: URL.to_string(), body: String::new() };
    assert_eq!(finish(&mut state, send, Reply::Status { code: 204, body: String::new() }), Outcome::Sent);
    let send = Request::Send { url: URL.to_string(), body: String::new() };
    assert_eq!(
        finish(&mut state, send, Reply::Status { code: 200, body: "x".to_string() }),
        Outcome::Failed { code: 200, body: "x".to_string() }
    );
    let rename = Request::Rename { url: URL.to_string(), body: String::new() };
    assert_eq!(finish(&mut state, rename, Reply::Status { code: 200, body: String::new() }), Outcome::Renamed);
    assert_eq!(state.get(), Some(URL));
}

#[test]
fn help_quit_and_unknown() {
    let state = SessionState::new();
    assert_eq!(plan(&state, "HeLp"), Action::Help);
    assert_eq!(plan(&state, "quit now"), Action::Quit);
    assert_eq!(plan(&state, "frobnicate x"), Action::Reject(Rejection::UnknownCommand));
    assert_eq!(plan(&state, ""), Action::Reject(Rejection::UnknownCommand));
    assert_eq!(plan_command(&state, None, "x"), Action::Reject(Rejection::UnknownCommand));
}

#[test]
fn history_records_each_value_once() {
    let mut h = History::new();
    assert!(h.record("send hi"));
    assert!(!h.record("send hi"));
    assert_eq!(h.len(), 1);
    assert!(!h.record(""));
    assert!(h.record("help"));
    assert!(!h.record("send hi"));
    assert_eq!(h.len(), 2);
    assert_eq!(h.get(0), "send hi");
    assert_eq!(h.get(1), "help");
    assert!(h.record(" help"));
}

#[test]
fn json_objects() {
    assert_eq!(object_with("content", "hi"), "{\"content\":\"hi\"}");
    assert_eq!(object_with("name", "a\nb\\"), "{\"name\":\"a\\nb\\\\\"}");
    assert_eq!(frame_object("k", "7"), "{\"k\":7}");
}
