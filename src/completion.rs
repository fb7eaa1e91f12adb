//! Context-sensitive completion of a partly typed line.

use vstd::prelude::*;
use vstd::string::*;

use crate::commands::{
    command_table, commands, name_of, Command, CONFIRM_WORD, SAMPLE_MESSAGE, WEBHOOK_PREFIX,
};
use crate::text::{is_prefix, starts_with, str_eq};
use crate::tokenizer::{split_first_word, split_spec};

verus! {

/// What is appended after a candidate is inserted.
#[derive(Clone, Copy, Debug, PartialEq, Eq, Structural)]
pub enum Suffix {
    /// The front end's usual separator.
    Default,
    /// Nothing: the user goes on typing right after the candidate.
    NoSuffix,
}

/// A proposed completion.
#[derive(Debug, PartialEq, Eq)]
pub struct Candidate {
    /// The text inserted.
    pub text: String,
    /// The text listed, where it differs from `text`.
    pub display: Option<String>,
    pub suffix: Suffix,
}

/// Abstract candidate: inserted text, listed text and suffix.
pub type CandidateView = (Seq<char>, Option<Seq<char>>, Suffix);

impl View for Candidate {
    type V = CandidateView;

    open spec fn view(&self) -> CandidateView {
        (
            self.text@,
            match self.display {
                Some(d) => Some(d@),
                None => None,
            },
            self.suffix,
        )
    }
}

/// The answer to a completion request.
#[derive(Debug, PartialEq, Eq)]
pub enum Completions {
    /// No opinion: the front end falls back to its own behaviour.
    NoOpinion,
    /// These candidates, possibly none.
    Candidates(Vec<Candidate>),
}

impl View for Completions {
    type V = Option<Seq<CandidateView>>;

    open spec fn view(&self) -> Option<Seq<CandidateView>> {
        match self {
            Completions::NoOpinion => None,
            Completions::Candidates(v) => Some(v@.map_values(|c: Candidate| c@)),
        }
    }
}

/// A candidate inserted as it is, followed by the usual separator.
pub open spec fn simple(t: Seq<char>) -> CandidateView {
    (t, None, Suffix::Default)
}

/// The command names, in table order, that start with `word`.
pub open spec fn name_candidates(word: Seq<char>) -> Seq<CandidateView> {
    command_table().filter_map(name_match(word))
}

/// The candidate for a command's name, where the name starts with `word`.
pub open spec fn name_match(word: Seq<char>) -> spec_fn(Command) -> Option<CandidateView> {
    |c: Command|
        if is_prefix(word, name_of(c)) {
            Some(simple(name_of(c)))
        } else {
            None
        }
}

/// What completing `word` yields, where `before` is the text of the line
/// ahead of it.
pub open spec fn completions_for(before: Seq<char>, word: Seq<char>) -> Option<
    Seq<CandidateView>,
> {
    let (first, rest) = split_spec(before);
    if first.len() == 0 {
        Some(name_candidates(word))
    } else if rest.len() != 0 {
        None
    } else if first == name_of(Command::Delete) {
        Some(seq![simple(CONFIRM_WORD@)])
    } else if first == name_of(Command::Select) {
        Some(seq![(WEBHOOK_PREFIX@, None, Suffix::NoSuffix)])
    } else if first == name_of(Command::Send) {
        Some(seq![simple(SAMPLE_MESSAGE@)])
    } else {
        None
    }
}

fn simple_candidate(t: &str) -> (r: Candidate)
    ensures
        r@ == simple(t@),
{
    Candidate { text: String::from_str(t), display: None, suffix: Suffix::Default }
}

fn one(c: Candidate) -> (r: Completions)
    ensures
        r@ == Some(seq![c@]),
{
    let mut v: Vec<Candidate> = Vec::new();
    v.push(c);
    let r = Completions::Candidates(v);
    assert(v@.map_values(|c: Candidate| c@) =~= seq![c@]);
    r
}

/// The command names that start with `word`.
fn complete_name(word: &str) -> (r: Vec<Candidate>)
    ensures
        r@.map_values(|c: Candidate| c@) == name_candidates(word@),
{
    let table = commands();
    let ghost f = name_match(word@);
    let mut r: Vec<Candidate> = Vec::new();
    let mut i: usize = 0;
    assert(table@.take(0).filter_map(f) =~= Seq::<CandidateView>::empty());
    while i < table.len()
        invariant
            table@ == command_table(),
            i <= table@.len(),
            f == name_match(word@),
            r@.map_values(|c: Candidate| c@) == table@.take(i as int).filter_map(f),
        decreases table@.len() - i,
    {
        let name = table[i].name();
        proof {
            table@.lemma_filter_map_take_succ(f, i as int);
        }
        if starts_with(name, word) {
            assert(f(table@[i as int]) == Some(simple(name_of(table@[i as int]))));
            let ghost before = r@;
            r.push(simple_candidate(name));
            assert(r@.map_values(|c: Candidate| c@) =~= before.map_values(|c: Candidate| c@)
                + seq![simple(name_of(table@[i as int]))]);
        } else {
            assert(f(table@[i as int]) == None::<CandidateView>);
        }
        i = i + 1;
    }
    assert(table@.take(table@.len() as int) =~= table@);
    r
}

/// Proposes completions for `word`, the token being typed, given the text of
/// the line before it. The first token completes to command names; the token
/// after `delete`, `select` or `send` to a fixed suggestion for that command.
pub fn complete(before: &str, word: &str) -> (r: Completions)
    ensures
        r@ == completions_for(before@, word@),
{
    let (first, rest) = split_first_word(before);
    if first.unicode_len() == 0 {
        let v = complete_name(word);
        Completions::Candidates(v)
    } else if rest.unicode_len() != 0 {
        Completions::NoOpinion
    } else if str_eq(first, Command::Delete.name()) {
        one(simple_candidate(CONFIRM_WORD))
    } else if str_eq(first, Command::Select.name()) {
        one(Candidate { text: String::from_str(WEBHOOK_PREFIX), display: None, suffix: Suffix::NoSuffix })
    } else if str_eq(first, Command::Send.name()) {
        one(simple_candidate(SAMPLE_MESSAGE))
    } else {
        Completions::NoOpinion
    }
}

/// In the first token, completion offers exactly the command names that start
/// with the typed word, each inserted as it is.
pub proof fn lemma_first_token(before: Seq<char>, word: Seq<char>, t: CandidateView)
    requires
        split_spec(before).0.len() == 0,
    ensures
        completions_for(before, word) == Some(name_candidates(word)),
        name_candidates(word).contains(t) <==> exists|c: Command|
            #[trigger] command_table().contains(c) && t == simple(name_of(c)) && is_prefix(
                word,
                name_of(c),
            ),
{
    let f = name_match(word);
    if name_candidates(word).contains(t) {
        command_table().lemma_filter_map_contains(f, t);
    }
    if exists|c: Command|
        #[trigger] command_table().contains(c) && t == simple(name_of(c)) && is_prefix(
            word,
            name_of(c),
        ) {
        let c = choose|c: Command|
            #[trigger] command_table().contains(c) && t == simple(name_of(c)) && is_prefix(
                word,
                name_of(c),
            );
        let i = command_table().index_of(c);
        lemma_filter_map_keeps(command_table(), f, i, t);
    }
}

proof fn lemma_filter_map_keeps<A, B>(s: Seq<A>, f: spec_fn(A) -> Option<B>, i: int, b: B)
    requires
        0 <= i < s.len(),
        f(s[i]) == Some(b),
    ensures
        s.filter_map(f).contains(b),
    decreases s.len(),
{
    let rest = s.drop_last();
    if i == s.len() - 1 {
        assert(s.filter_map(f) == rest.filter_map(f) + seq![b]);
        assert(s.filter_map(f)[rest.filter_map(f).len() as int] == b);
    } else {
        assert(rest[i] == s[i]);
        lemma_filter_map_keeps(rest, f, i, b);
        let k = choose|k: int| 0 <= k < rest.filter_map(f).len() && rest.filter_map(f)[k] == b;
        match f(s.last()) {
            Some(x) => {
                assert(s.filter_map(f) == rest.filter_map(f) + seq![x]);
                assert(s.filter_map(f)[k] == b);
            },
            None => {},
        }
    }
}

} // verus!
