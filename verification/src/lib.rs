//! Installs an executable as a service that the init system starts on boot or
//! on a daily schedule, and finds and removes such an installation again.
//!
//! The crate decides and describes; it performs no input or output itself.
//! Every change to the machine is a step value that the caller carries out,
//! and every fact about the machine (the crontab, the unit files, the process
//! table) is handed in as a plain value.

use vstd::prelude::*;

pub mod container;
pub mod install;
pub mod paths;
pub mod schedule;
pub mod text;

pub use install::builder::{install_system, install_user, Spec};
pub use schedule::Schedule;

verus! {

/// The tense in which a step describes itself.
///
/// A description is selected by tense; `punct` gives the final punctuation
/// mark that belongs to it.
#[derive(Clone, Copy, Debug, PartialEq, Eq, Structural)]
pub enum Tense {
    Past,
    Questioning,
    Future,
    Active,
}

impl Tense {
    /// The one of four texts that belongs to this tense.
    pub open spec fn pick_text(
        self,
        past: Seq<char>,
        questioning: Seq<char>,
        future: Seq<char>,
        active: Seq<char>,
    ) -> Seq<char> {
        match self {
            Tense::Past => past,
            Tense::Questioning => questioning,
            Tense::Future => future,
            Tense::Active => active,
        }
    }

    /// The one of four words that belongs to this tense.
    pub fn pick(
        &self,
        past: &'static str,
        questioning: &'static str,
        future: &'static str,
        active: &'static str,
    ) -> (word: &'static str)
        ensures
            word@ == self.pick_text(past@, questioning@, future@, active@),
    {
        match self {
            Tense::Past => past,
            Tense::Questioning => questioning,
            Tense::Future => future,
            Tense::Active => active,
        }
    }

    /// The mark that closes a sentence in this tense.
    pub open spec fn punct_text(self) -> Seq<char> {
        match self {
            Tense::Questioning => "?"@,
            _ => "."@,
        }
    }

    /// A question mark for `Questioning`, a full stop for every other tense.
    pub fn punct(&self) -> (mark: &'static str)
        ensures
            mark@ == self.punct_text(),
            mark@ == (if *self == Tense::Questioning { seq!['?'] } else { seq!['.'] }),
    {
        proof {
            reveal_strlit("?");
            reveal_strlit(".");
            assert("?"@ =~= seq!['?']);
            assert("."@ =~= seq!['.']);
        }
        match self {
            Tense::Questioning => "?",
            Tense::Past | Tense::Future | Tense::Active => ".",
        }
    }
}

} // verus!
