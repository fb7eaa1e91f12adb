//! The command table and case-insensitive command lookup.

use vstd::prelude::*;

use crate::text::str_eq;

verus! {

/// The prefix that every webhook URL must start with.
pub const WEBHOOK_PREFIX: &'static str = "https://discord.com/api/webhooks/";

/// The argument that confirms the deletion of a webhook.
pub const CONFIRM_WORD: &'static str = "confirm";

/// The example message offered as the argument of `send`.
pub const SAMPLE_MESSAGE: &'static str = "Hello chat";

/// A command of the shell, in the order of the command table.
#[derive(Clone, Copy, Debug, PartialEq, Eq, Structural)]
pub enum Command {
    Select,
    Delete,
    Send,
    SetName,
    Help,
    Quit,
}

/// The command table, in the order in which `help` lists it.
pub open spec fn command_table() -> Seq<Command> {
    seq![
        Command::Select,
        Command::Delete,
        Command::Send,
        Command::SetName,
        Command::Help,
        Command::Quit,
    ]
}

/// The lower-case name under which a command is typed.
pub open spec fn name_of(c: Command) -> Seq<char> {
    match c {
        Command::Select => "select"@,
        Command::Delete => "delete"@,
        Command::Send => "send"@,
        Command::SetName => "setname"@,
        Command::Help => "help"@,
        Command::Quit => "quit"@,
    }
}

/// The line of help shown for a command.
pub open spec fn help_of(c: Command) -> Seq<char> {
    match c {
        Command::Select => "Connects to a webhook"@,
        Command::Delete => "Deletes the selected webhook"@,
        Command::Send => "Sends a message to the selected webhook"@,
        Command::SetName => "Sets the name of the selected webhook"@,
        Command::Help => "You're looking at it"@,
        Command::Quit => "Quit the program"@,
    }
}

/// The command whose name is exactly `s`, if any.
pub open spec fn lookup(s: Seq<char>) -> Option<Command> {
    if s == name_of(Command::Select) {
        Some(Command::Select)
    } else if s == name_of(Command::Delete) {
        Some(Command::Delete)
    } else if s == name_of(Command::Send) {
        Some(Command::Send)
    } else if s == name_of(Command::SetName) {
        Some(Command::SetName)
    } else if s == name_of(Command::Help) {
        Some(Command::Help)
    } else if s == name_of(Command::Quit) {
        Some(Command::Quit)
    } else {
        None
    }
}

/// What `str::to_lowercase` makes of a string.
pub uninterp spec fn lower_of(s: Seq<char>) -> Seq<char>;

/// Relies on `str::to_lowercase`: Unicode lower-casing, which depends on the
/// characters alone.
#[verifier::external_body]
fn lowercase(s: &str) -> (r: String)
    ensures
        r@ == lower_of(s@),
{
    s.to_lowercase()
}

impl Command {
    /// The command's name.
    pub fn name(&self) -> (r: &'static str)
        ensures
            r@ == name_of(*self),
    {
        match self {
            Command::Select => "select",
            Command::Delete => "delete",
            Command::Send => "send",
            Command::SetName => "setname",
            Command::Help => "help",
            Command::Quit => "quit",
        }
    }

    /// The command's help text.
    pub fn help(&self) -> (r: &'static str)
        ensures
            r@ == help_of(*self),
    {
        match self {
            Command::Select => "Connects to a webhook",
            Command::Delete => "Deletes the selected webhook",
            Command::Send => "Sends a message to the selected webhook",
            Command::SetName => "Sets the name of the selected webhook",
            Command::Help => "You're looking at it",
            Command::Quit => "Quit the program",
        }
    }
}

/// The command table.
pub fn commands() -> (r: Vec<Command>)
    ensures
        r@ == command_table(),
{
    let r = vec![
        Command::Select,
        Command::Delete,
        Command::Send,
        Command::SetName,
        Command::Help,
        Command::Quit,
    ];
    assert(r@ =~= command_table());
    r
}

/// Looks up a command by its exact, already lower-cased name.
pub fn command_from_lower(l: &str) -> (r: Option<Command>)
    ensures
        r == lookup(l@),
{
    if str_eq(l, "select") {
        Some(Command::Select)
    } else if str_eq(l, "delete") {
        Some(Command::Delete)
    } else if str_eq(l, "send") {
        Some(Command::Send)
    } else if str_eq(l, "setname") {
        Some(Command::SetName)
    } else if str_eq(l, "help") {
        Some(Command::Help)
    } else if str_eq(l, "quit") {
        Some(Command::Quit)
    } else {
        None
    }
}

/// Looks up the command that a typed word names, ignoring case.
pub fn lookup_command(word: &str) -> (r: Option<Command>)
    ensures
        r == lookup(lower_of(word@)),
{
    let l = lowercase(word);
    command_from_lower(l.as_str())
}

/// The names of the table are pairwise distinct.
pub proof fn lemma_names_distinct(a: Command, b: Command)
    ensures
        name_of(a) == name_of(b) ==> a == b,
{
    reveal_strlit("select");
    reveal_strlit("delete");
    reveal_strlit("send");
    reveal_strlit("setname");
    reveal_strlit("help");
    reveal_strlit("quit");
    if name_of(a) == name_of(b) && a != b {
        assert(name_of(a)[0] != name_of(b)[0] || name_of(a).len() != name_of(b).len()
            || name_of(a)[1] != name_of(b)[1] || name_of(a)[2] != name_of(b)[2]);
    }
}

/// Lookup is idempotent: the name of a command that lookup found looks up
/// that same command again, and every command is found by its own name.
pub proof fn lemma_lookup_idempotent(s: Seq<char>, c: Command)
    ensures
        lookup(name_of(c)) == Some(c),
        lookup(s) == Some(c) ==> lookup(name_of(c)) == lookup(s),
{
    lemma_names_distinct(c, Command::Select);
    lemma_names_distinct(c, Command::Delete);
    lemma_names_distinct(c, Command::Send);
    lemma_names_distinct(c, Command::SetName);
    lemma_names_distinct(c, Command::Help);
    lemma_names_distinct(c, Command::Quit);
}

/// Lookup ignores case: two words with the same lower-case form name the same
/// command, and a word whose lower-case form is a command's name finds it.
pub proof fn lemma_lookup_case_insensitive(a: Seq<char>, b: Seq<char>, c: Command)
    requires
        lower_of(a) == lower_of(b),
    ensures
        lookup(lower_of(a)) == lookup(lower_of(b)),
        lower_of(a) == name_of(c) ==> lookup(lower_of(b)) == Some(c),
{
    lemma_lookup_idempotent(lower_of(a), c);
}

} // verus!
