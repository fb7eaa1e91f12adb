//! The session's one piece of state: the selected webhook, if any.

use vstd::prelude::*;
use vstd::string::*;

verus! {

/// The selected webhook URL; absent until a `select` succeeds.
#[derive(Debug)]
pub struct SessionState {
    handle: Option<String>,
}

impl View for SessionState {
    type V = Option<Seq<char>>;

    closed spec fn view(&self) -> Option<Seq<char>> {
        match self.handle {
            Some(h) => Some(h@),
            None => None,
        }
    }
}

impl SessionState {
    /// A session with no webhook selected.
    pub fn new() -> (r: SessionState)
        ensures
            r@ == None::<Seq<char>>,
    {
        SessionState { handle: None }
    }

    /// The selected webhook URL.
    pub fn get(&self) -> (r: Option<&str>)
        ensures
            match r {
                Some(h) => self@ == Some(h@),
                None => self@ == None::<Seq<char>>,
            },
    {
        match &self.handle {
            Some(h) => Some(h.as_str()),
            None => None,
        }
    }

    /// Selects a webhook.
    pub fn set(&mut self, handle: String)
        ensures
            final(self)@ == Some(handle@),
    {
        self.handle = Some(handle);
    }

    /// Forgets the selected webhook.
    pub fn clear(&mut self)
        ensures
            final(self)@ == None::<Seq<char>>,
    {
        self.handle = None;
    }
}

} // verus!
