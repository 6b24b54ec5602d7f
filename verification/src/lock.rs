//! The launch lock: an advisory marker that names whoever runs the server.

use vstd::prelude::*;
use vstd::string::*;
use crate::text::{trim, trimmed};

verus! {

/// The marker as it is found: absent, or present with its contents.
#[derive(Clone, Debug, PartialEq, Eq)]
pub struct LockMarker {
    pub contents: Option<String>,
}

/// The outcome of an attempt to take the lock.
#[derive(Clone, Debug, PartialEq, Eq)]
pub enum Acquisition {
    /// The marker was absent and now names the operator.
    Acquired,
    /// The marker was there already; its contents are handed back untouched.
    AlreadyLocked(String),
}

impl View for LockMarker {
    type V = Option<Seq<char>>;

    open spec fn view(&self) -> Option<Seq<char>> {
        match self.contents {
            Some(text) => Some(text@),
            None => None,
        }
    }
}

impl LockMarker {
    /// A marker that is not there.
    pub fn absent() -> (r: LockMarker)
        ensures
            r@ == None::<Seq<char>>,
    {
        LockMarker { contents: None }
    }

    /// A marker found with the given contents.
    pub fn holding(contents: &str) -> (r: LockMarker)
        ensures
            r@ == Some(contents@),
    {
        LockMarker { contents: Some(String::from_str(contents)) }
    }

    pub fn is_held(&self) -> (r: bool)
        ensures
            r == self@.is_some(),
    {
        self.contents.is_some()
    }

    /// The marker after an attempt for `identity`, and whether the attempt succeeded.
    pub open spec fn attempt_spec(marker: Option<Seq<char>>, identity: Seq<char>) -> (
        Option<Seq<char>>,
        bool,
    ) {
        match marker {
            Some(_) => (marker, false),
            None => (Some(identity), true),
        }
    }

    /// Takes the lock for `identity` if nobody holds it. A marker that is
    /// there is never overwritten or removed, whatever it holds: the
    /// attempt fails and hands its contents back.
    pub fn try_acquire(&mut self, identity: &str) -> (r: Acquisition)
        ensures
            final(self)@ == Self::attempt_spec(old(self)@, identity@).0,
            (r is Acquired) == Self::attempt_spec(old(self)@, identity@).1,
            r matches Acquisition::AlreadyLocked(found) ==> old(self)@ == Some(found@),
    {
        match &self.contents {
            Some(existing) => Acquisition::AlreadyLocked(existing.clone()),
            None => {
                self.contents = Some(String::from_str(identity));
                Acquisition::Acquired
            },
        }
    }

    /// Gives the lock up: the marker is gone afterwards, whoever held it.
    pub fn release(&mut self)
        ensures
            final(self)@ == None::<Seq<char>>,
    {
        self.contents = None;
    }

    /// Whatever the marker was, after one attempt a second one fails and
    /// leaves the marker exactly as the first attempt left it.
    pub proof fn lemma_second_attempt_fails(
        marker: Option<Seq<char>>,
        first: Seq<char>,
        second: Seq<char>,
    )
        ensures
            Self::attempt_spec(Self::attempt_spec(marker, first).0, second) == (
                Self::attempt_spec(marker, first).0,
                false,
            ),
            marker.is_some() ==> Self::attempt_spec(marker, first) == (marker, false),
    {
    }
}

/// The operator's name as the marker records it: the host's answer without
/// the whitespace around it.
pub fn operator_identity(answer: &str) -> (r: String)
    ensures
        r@ == trimmed(answer@),
{
    String::from_str(trim(answer))
}

} // verus!
