//! The command state machine. A line becomes an `Action`; where the action is
//! a call to the webhook API, the caller performs it and hands the reply to
//! `finish`, which updates the session and says what came of it.

use vstd::prelude::*;
use vstd::string::*;

use crate::commands::{lookup, lookup_command, lower_of, Command, CONFIRM_WORD, WEBHOOK_PREFIX};
use crate::json::{json_field_of, json_str_field, object_of, object_with};
use crate::session::SessionState;
use crate::text::{is_prefix, starts_with, str_eq};
use crate::tokenizer::{split_first_word, split_spec};

verus! {

/// Why a command was refused before any call was made.
#[derive(Clone, Copy, Debug, PartialEq, Eq, Structural)]
pub enum Rejection {
    /// `select` without a URL.
    NoUrl,
    /// `select` with a URL that lacks the webhook prefix.
    BadPrefix,
    /// A command that needs a selected webhook, with none selected.
    NotSelected,
    /// `send` without a message.
    EmptyMessage,
    /// `setname` without a name.
    EmptyName,
    /// `delete` without the confirming word.
    NotConfirmed,
    /// A word that names no command.
    UnknownCommand,
}

/// A call to the webhook API.
#[derive(Debug, PartialEq, Eq)]
pub enum Request {
    /// Fetch the webhook at `url`.
    Connect { url: String },
    /// Post `body` to the webhook at `url`.
    Send { url: String, body: String },
    /// Patch the webhook at `url` with `body`.
    Rename { url: String, body: String },
    /// Delete the webhook at `url`.
    Delete { url: String },
}

/// The abstract form of a `Request`, with strings as character sequences.
pub enum RequestView {
    Connect { url: Seq<char> },
    Send { url: Seq<char>, body: Seq<char> },
    Rename { url: Seq<char>, body: Seq<char> },
    Delete { url: Seq<char> },
}

impl View for Request {
    type V = RequestView;

    open spec fn view(&self) -> RequestView {
        match self {
            Request::Connect { url } => RequestView::Connect { url: url@ },
            Request::Send { url, body } => RequestView::Send { url: url@, body: body@ },
            Request::Rename { url, body } => RequestView::Rename { url: url@, body: body@ },
            Request::Delete { url } => RequestView::Delete { url: url@ },
        }
    }
}

/// What to do with an entered line.
#[derive(Debug, PartialEq, Eq)]
pub enum Action {
    /// Report the refusal and read the next line.
    Reject(Rejection),
    /// List the commands.
    Help,
    /// End the session.
    Quit,
    /// Make the call, then hand its reply to `finish`.
    Call(Request),
}

/// The abstract form of a `Action`, with strings as character sequences.
pub enum ActionView {
    Reject(Rejection),
    Help,
    Quit,
    Call(RequestView),
}

impl View for Action {
    type V = ActionView;

    open spec fn view(&self) -> ActionView {
        match self {
            Action::Reject(j) => ActionView::Reject(*j),
            Action::Help => ActionView::Help,
            Action::Quit => ActionView::Quit,
            Action::Call(q) => ActionView::Call(q@),
        }
    }
}

/// What the webhook API answered.
#[derive(Debug, PartialEq, Eq)]
pub enum Reply {
    /// An HTTP response.
    Status { code: u16, body: String },
    /// No response came.
    Unreachable,
}

/// The abstract form of a `Reply`, with strings as character sequences.
pub enum ReplyView {
    Status { code: u16, body: Seq<char> },
    Unreachable,
}

impl View for Reply {
    type V = ReplyView;

    open spec fn view(&self) -> ReplyView {
        match self {
            Reply::Status { code, body } => ReplyView::Status { code: *code, body: body@ },
            Reply::Unreachable => ReplyView::Unreachable,
        }
    }
}

/// What came of a call.
#[derive(Debug, PartialEq, Eq)]
pub enum Outcome {
    /// The webhook exists; it posts as `name` in channel `channel`.
    Connected { channel: String, name: String },
    /// No webhook at that URL.
    UnknownWebhook,
    /// The webhook exists but its token is invalid.
    InvalidToken,
    /// The webhook answered without its channel and name.
    MalformedInfo,
    /// The message was posted.
    Sent,
    /// The webhook was renamed.
    Renamed,
    /// The webhook was deleted; the session is over.
    Deleted,
    /// Any other status.
    Failed { code: u16, body: String },
    /// No response came.
    Unreachable,
}

/// The abstract form of a `Outcome`, with strings as character sequences.
pub enum OutcomeView {
    Connected { channel: Seq<char>, name: Seq<char> },
    UnknownWebhook,
    InvalidToken,
    MalformedInfo,
    Sent,
    Renamed,
    Deleted,
    Failed { code: u16, body: Seq<char> },
    Unreachable,
}

impl View for Outcome {
    type V = OutcomeView;

    open spec fn view(&self) -> OutcomeView {
        match self {
            Outcome::Connected { channel, name } => OutcomeView::Connected {
                channel: channel@,
                name: name@,
            },
            Outcome::UnknownWebhook => OutcomeView::UnknownWebhook,
            Outcome::InvalidToken => OutcomeView::InvalidToken,
            Outcome::MalformedInfo => OutcomeView::MalformedInfo,
            Outcome::Sent => OutcomeView::Sent,
            Outcome::Renamed => OutcomeView::Renamed,
            Outcome::Deleted => OutcomeView::Deleted,
            Outcome::Failed { code, body } => OutcomeView::Failed { code: *code, body: body@ },
            Outcome::Unreachable => OutcomeView::Unreachable,
        }
    }
}

/// The action for command `cmd` (`None`: an unknown word) with argument `arg`,
/// in a session whose selected webhook is `state`.
pub open spec fn plan_spec(state: Option<Seq<char>>, cmd: Option<Command>, arg: Seq<char>) -> ActionView {
    match cmd {
        None => ActionView::Reject(Rejection::UnknownCommand),
        Some(Command::Select) => if arg.len() == 0 {
            ActionView::Reject(Rejection::NoUrl)
        } else if !is_prefix(WEBHOOK_PREFIX@, arg) {
            ActionView::Reject(Rejection::BadPrefix)
        } else {
            ActionView::Call(RequestView::Connect { url: arg })
        },
        Some(Command::Send) => match state {
            None => ActionView::Reject(Rejection::NotSelected),
            Some(url) => if arg.len() == 0 {
                ActionView::Reject(Rejection::EmptyMessage)
            } else {
                ActionView::Call(RequestView::Send { url, body: object_of("content"@, arg) })
            },
        },
        Some(Command::Delete) => match state {
            None => ActionView::Reject(Rejection::NotSelected),
            Some(url) => if arg != CONFIRM_WORD@ {
                ActionView::Reject(Rejection::NotConfirmed)
            } else {
                ActionView::Call(RequestView::Delete { url })
            },
        },
        Some(Command::SetName) => match state {
            None => ActionView::Reject(Rejection::NotSelected),
            Some(url) => if arg.len() == 0 {
                ActionView::Reject(Rejection::EmptyName)
            } else {
                ActionView::Call(RequestView::Rename { url, body: object_of("name"@, arg) })
            },
        },
        Some(Command::Help) => ActionView::Help,
        Some(Command::Quit) => ActionView::Quit,
    }
}

/// The action for an entered line.
pub open spec fn plan_line_spec(state: Option<Seq<char>>, line: Seq<char>) -> ActionView {
    let (word, arg) = split_spec(line);
    plan_spec(state, lookup(lower_of(word)), arg)
}

/// The session and the outcome after `req` got `reply`, from session `state`.
pub open spec fn finish_spec(state: Option<Seq<char>>, req: RequestView, reply: ReplyView) -> (
    Option<Seq<char>>,
    OutcomeView,
) {
    match reply {
        ReplyView::Unreachable => (state, OutcomeView::Unreachable),
        ReplyView::Status { code, body } => match req {
            RequestView::Connect { url } => if code == 404 {
                (state, OutcomeView::UnknownWebhook)
            } else if code == 401 {
                (state, OutcomeView::InvalidToken)
            } else if code != 200 {
                (state, OutcomeView::Failed { code, body })
            } else {
                connect_spec(state, url, json_field_of(body, "channel_id"@), json_field_of(body, "name"@))
            },
            RequestView::Send { .. } => if code == 204 {
                (state, OutcomeView::Sent)
            } else {
                (state, OutcomeView::Failed { code, body })
            },
            RequestView::Rename { .. } => if code == 200 {
                (state, OutcomeView::Renamed)
            } else {
                (state, OutcomeView::Failed { code, body })
            },
            RequestView::Delete { .. } => if code == 204 {
                (None, OutcomeView::Deleted)
            } else {
                (state, OutcomeView::Failed { code, body })
            },
        },
    }
}

/// Decides what command `cmd` (`None`: an unknown word) with argument `arg`
/// does in the current session.
pub fn plan_command(state: &SessionState, cmd: Option<Command>, arg: &str) -> (r: Action)
    ensures
        r@ == plan_spec(state@, cmd, arg@),
{
    match cmd {
        None => Action::Reject(Rejection::UnknownCommand),
        Some(Command::Select) => {
            if arg.unicode_len() == 0 {
                Action::Reject(Rejection::NoUrl)
            } else if !starts_with(arg, WEBHOOK_PREFIX) {
                Action::Reject(Rejection::BadPrefix)
            } else {
                Action::Call(Request::Connect { url: String::from_str(arg) })
            }
        },
        Some(Command::Send) => match state.get() {
            None => Action::Reject(Rejection::NotSelected),
            Some(url) => {
                if arg.unicode_len() == 0 {
                    Action::Reject(Rejection::EmptyMessage)
                } else {
                    let body = object_with("content", arg);
                    Action::Call(Request::Send { url: String::from_str(url), body })
                }
            },
        },
        Some(Command::Delete) => match state.get() {
            None => Action::Reject(Rejection::NotSelected),
            Some(url) => {
                if !str_eq(arg, CONFIRM_WORD) {
                    Action::Reject(Rejection::NotConfirmed)
                } else {
                    Action::Call(Request::Delete { url: String::from_str(url) })
                }
            },
        },
        Some(Command::SetName) => match state.get() {
            None => Action::Reject(Rejection::NotSelected),
            Some(url) => {
                if arg.unicode_len() == 0 {
                    Action::Reject(Rejection::EmptyName)
                } else {
                    let body = object_with("name", arg);
                    Action::Call(Request::Rename { url: String::from_str(url), body })
                }
            },
        },
        Some(Command::Help) => Action::Help,
        Some(Command::Quit) => Action::Quit,
    }
}

/// Decides what an entered line does in the current session: its first word,
/// in any case, names the command, and the rest is the argument.
pub fn plan(state: &SessionState, line: &str) -> (r: Action)
    ensures
        r@ == plan_line_spec(state@, line@),
{
    let (word, arg) = split_first_word(line);
    let cmd = lookup_command(word);
    plan_command(state, cmd, arg)
}

/// The session and the outcome after a webhook at `url` answered with its
/// channel and name fields, each absent where the answer lacked it.
pub open spec fn connect_spec(
    state: Option<Seq<char>>,
    url: Seq<char>,
    channel: Option<Seq<char>>,
    name: Option<Seq<char>>,
) -> (Option<Seq<char>>, OutcomeView) {
    match (channel, name) {
        (Some(channel), Some(name)) => (Some(url), OutcomeView::Connected { channel, name }),
        _ => (state, OutcomeView::MalformedInfo),
    }
}

/// The character sequence of an optional string.
pub open spec fn opt_view(o: Option<String>) -> Option<Seq<char>> {
    match o {
        Some(s) => Some(s@),
        None => None,
    }
}

/// Completes a successful `select`, given the channel and name fields read
/// from the webhook's answer: with both present the webhook becomes the
/// selected one.
pub fn finish_connect(
    state: &mut SessionState,
    url: String,
    channel: Option<String>,
    name: Option<String>,
) -> (r: Outcome)
    ensures
        (final(state)@, r@) == connect_spec(old(state)@, url@, opt_view(channel), opt_view(name)),
{
    match (channel, name) {
        (Some(channel), Some(name)) => {
            state.set(url);
            Outcome::Connected { channel, name }
        },
        _ => Outcome::MalformedInfo,
    }
}

/// Takes the reply to a call: a webhook that was found becomes the selected
/// one, and a deleted webhook leaves none selected.
pub fn finish(state: &mut SessionState, req: Request, reply: Reply) -> (r: Outcome)
    ensures
        (final(state)@, r@) == finish_spec(old(state)@, req@, reply@),
{
    match reply {
        Reply::Unreachable => Outcome::Unreachable,
        Reply::Status { code, body } => match req {
            Request::Connect { url } => {
                if code == 404 {
                    Outcome::UnknownWebhook
                } else if code == 401 {
                    Outcome::InvalidToken
                } else if code != 200 {
                    Outcome::Failed { code, body }
                } else {
                    let channel = json_str_field(body.as_str(), "channel_id");
                    let name = json_str_field(body.as_str(), "name");
                    finish_connect(state, url, channel, name)
                }
            },
            Request::Send { .. } => {
                if code == 204 {
                    Outcome::Sent
                } else {
                    Outcome::Failed { code, body }
                }
            },
            Request::Rename { .. } => {
                if code == 200 {
                    Outcome::Renamed
                } else {
                    Outcome::Failed { code, body }
                }
            },
            Request::Delete { .. } => {
                if code == 204 {
                    state.clear();
                    Outcome::Deleted
                } else {
                    Outcome::Failed { code, body }
                }
            },
        },
    }
}

impl Outcome {
    /// Whether the session ends after this outcome.
    pub fn ends_session(&self) -> (r: bool)
        ensures
            r == (self@ is Deleted),
    {
        match self {
            Outcome::Deleted => true,
            _ => false,
        }
    }
}

/// A command that needs a selected webhook is refused while none is selected,
/// and no call is made.
pub proof fn lemma_needs_selection(cmd: Command, arg: Seq<char>)
    requires
        cmd == Command::Send || cmd == Command::SetName || cmd == Command::Delete,
    ensures
        plan_spec(None, Some(cmd), arg) == ActionView::Reject(Rejection::NotSelected),
{
}

/// A `select` that finds no webhook leaves the session as it was; one that
/// finds it, with its channel and name, selects that URL.
pub proof fn lemma_select_reply(state: Option<Seq<char>>, url: Seq<char>, body: Seq<char>)
    ensures
        finish_spec(
            state,
            RequestView::Connect { url },
            ReplyView::Status { code: 404, body },
        ) == (state, OutcomeView::UnknownWebhook),
        json_field_of(body, "channel_id"@) is Some && json_field_of(body, "name"@) is Some
            ==> finish_spec(state, RequestView::Connect { url }, ReplyView::Status { code: 200, body }).0
            == Some(url),
{
}

/// `delete confirm` on a selected webhook calls for its deletion; a successful
/// reply clears the session and ends it.
pub proof fn lemma_delete_confirmed(url: Seq<char>, body: Seq<char>)
    ensures
        plan_spec(Some(url), Some(Command::Delete), CONFIRM_WORD@) == ActionView::Call(
            RequestView::Delete { url },
        ),
        finish_spec(Some(url), RequestView::Delete { url }, ReplyView::Status { code: 204, body })
            == (None::<Seq<char>>, OutcomeView::Deleted),
{
}

/// `delete` with any argument other than the confirming word is refused and
/// makes no call.
pub proof fn lemma_delete_unconfirmed(state: Option<Seq<char>>, arg: Seq<char>)
    requires
        arg != CONFIRM_WORD@,
    ensures
        plan_spec(state, Some(Command::Delete), arg) is Reject,
        state is Some ==> plan_spec(state, Some(Command::Delete), arg) == ActionView::Reject(
            Rejection::NotConfirmed,
        ),
{
}

/// Two words with the same lower-case form lead to the same action.
pub proof fn lemma_plan_ignores_case(state: Option<Seq<char>>, a: Seq<char>, b: Seq<char>, arg: Seq<char>)
    requires
        lower_of(a) == lower_of(b),
    ensures
        plan_spec(state, lookup(lower_of(a)), arg) == plan_spec(state, lookup(lower_of(b)), arg),
{
}

} // verus!
