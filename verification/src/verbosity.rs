//! How much a run tells the user.

use crate::text::{lowercase, same_text, to_lowercase};
use core::cmp::Ordering;
use vstd::prelude::*;
use vstd::std_specs::cmp::PartialOrdSpec;
use vstd::string::StringExecFns;

verus! {

/// The verbosity level of a run.
///
/// The levels are totally ordered: `Silent < Monosyllabic < Chatty`.
///
/// * `Silent`: important error messages only
/// * `Monosyllabic`: important error messages and the call line
/// * `Chatty`: the call line and the entire output of the called process
#[derive(Clone, Copy, Debug, PartialEq, Eq, Structural, Ord, Hash)]
pub enum Verbosity {
    /// Do not communicate at all.
    Silent,
    /// Communicate only the most important information.
    Monosyllabic,
    /// Be at most verbose and communicate everything.
    Chatty,
}

/// The verbosity level cannot be deduced from a text.
#[derive(Clone, Copy, Debug, PartialEq, Eq, Structural)]
pub struct ParseError;

impl Verbosity {
    /// The position of a level in the order, which is also its number.
    pub open spec fn rank(self) -> nat {
        match self {
            Verbosity::Silent => 0,
            Verbosity::Monosyllabic => 1,
            Verbosity::Chatty => 2,
        }
    }

    /// The level one above, where there is one.
    pub open spec fn upgraded(self) -> Verbosity {
        match self {
            Verbosity::Silent => Verbosity::Monosyllabic,
            _ => Verbosity::Chatty,
        }
    }

    /// The level one below, where there is one.
    pub open spec fn downgraded(self) -> Verbosity {
        match self {
            Verbosity::Chatty => Verbosity::Monosyllabic,
            _ => Verbosity::Silent,
        }
    }

    /// The name of a level, in lower case.
    pub open spec fn name_text(self) -> Seq<char> {
        match self {
            Verbosity::Silent => "silent"@,
            Verbosity::Monosyllabic => "monosyllabic"@,
            Verbosity::Chatty => "chatty"@,
        }
    }

    /// The digit that stands for a level.
    pub open spec fn digit_text(self) -> Seq<char> {
        match self {
            Verbosity::Silent => "0"@,
            Verbosity::Monosyllabic => "1"@,
            Verbosity::Chatty => "2"@,
        }
    }

    /// How a level is shown to the user: its number, then its name.
    pub open spec fn shown(self) -> Seq<char> {
        "verbosity level "@ + self.digit_text() + " ('"@ + self.name_text() + "')"@
    }

    /// The level that a text in lower case stands for: its number or its name.
    pub open spec fn parsed(lowered: Seq<char>) -> Result<Verbosity, ParseError> {
        if lowered == "2"@ || lowered == "chatty"@ {
            Ok(Verbosity::Chatty)
        } else if lowered == "1"@ || lowered == "monosyllabic"@ {
            Ok(Verbosity::Monosyllabic)
        } else if lowered == "0"@ || lowered == "silent"@ {
            Ok(Verbosity::Silent)
        } else {
            Err(ParseError)
        }
    }

    /// Set the verbosity immediately to `Chatty`.
    pub fn chatty(&mut self)
        ensures
            *final(self) == Verbosity::Chatty,
    {
        *self = Verbosity::Chatty;
    }

    /// Downgrade the verbosity by one level.
    ///
    /// `Silent` cannot be decreased any further.  This is no error: the level
    /// is left as it is.
    pub fn downgrade(&mut self)
        ensures
            *final(self) == old(self).downgraded(),
            old(self).rank() > 0 ==> final(self).rank() == old(self).rank() - 1,
            old(self).rank() == 0 ==> *final(self) == *old(self),
    {
        *self = match *self {
            Verbosity::Chatty => Verbosity::Monosyllabic,
            _ => Verbosity::Silent,
        }
    }

    /// Set the verbosity immediately to `Monosyllabic`.
    pub fn monosyllabic(&mut self)
        ensures
            *final(self) == Verbosity::Monosyllabic,
    {
        *self = Verbosity::Monosyllabic;
    }

    /// Set the verbosity immediately to `Silent`.
    pub fn silent(&mut self)
        ensures
            *final(self) == Verbosity::Silent,
    {
        *self = Verbosity::Silent;
    }

    /// Upgrade the verbosity by one level.
    ///
    /// `Chatty` cannot be increased any further.  This is no error: the level
    /// is left as it is.
    pub fn upgrade(&mut self)
        ensures
            *final(self) == old(self).upgraded(),
            old(self).rank() < 2 ==> final(self).rank() == old(self).rank() + 1,
            old(self).rank() == 2 ==> *final(self) == *old(self),
    {
        *self = match *self {
            Verbosity::Silent => Verbosity::Monosyllabic,
            _ => Verbosity::Chatty,
        }
    }

    /// The number of a level: 0 for `Silent`, 1 for `Monosyllabic`, 2 for
    /// `Chatty`.
    pub fn level(&self) -> (number: u8)
        ensures
            number == self.rank(),
    {
        match self {
            Verbosity::Silent => 0,
            Verbosity::Monosyllabic => 1,
            Verbosity::Chatty => 2,
        }
    }

    /// The name of a level, in lower case.
    pub fn name(&self) -> (name: String)
        ensures
            name@ == self.name_text(),
    {
        match self {
            Verbosity::Silent => String::from_str("silent"),
            Verbosity::Monosyllabic => String::from_str("monosyllabic"),
            Verbosity::Chatty => String::from_str("chatty"),
        }
    }

    /// How a level is shown to the user, as in `verbosity level 1
    /// ('monosyllabic')`.
    pub fn to_string(&self) -> (shown: String)
        ensures
            shown@ == self.shown(),
    {
        let digit = match self {
            Verbosity::Silent => "0",
            Verbosity::Monosyllabic => "1",
            Verbosity::Chatty => "2",
        };
        let name = self.name();
        let mut shown = String::from_str("verbosity level ");
        shown.append(digit);
        shown.append(" ('");
        shown.append(name.as_str());
        shown.append("')");
        shown
    }

    /// Reads a level from a text in lower case: `"0"`, `"1"`, `"2"` or the
    /// name of a level.  Every other text is refused.
    pub fn from_lowercase(lowered: &str) -> (result: Result<Verbosity, ParseError>)
        ensures
            result == Verbosity::parsed(lowered@),
    {
        if same_text(lowered, "2") || same_text(lowered, "chatty") {
            Ok(Verbosity::Chatty)
        } else if same_text(lowered, "1") || same_text(lowered, "monosyllabic") {
            Ok(Verbosity::Monosyllabic)
        } else if same_text(lowered, "0") || same_text(lowered, "silent") {
            Ok(Verbosity::Silent)
        } else {
            Err(ParseError)
        }
    }

    /// Reads a level from a text, whatever its case: the text is brought to
    /// lower case and then read as [`Verbosity::from_lowercase`] reads it.
    pub fn from_str(s: &str) -> (result: Result<Verbosity, ParseError>)
        ensures
            result == Verbosity::parsed(lowercase(s@)),
    {
        let lowered = to_lowercase(s);
        Verbosity::from_lowercase(lowered.as_str())
    }
}

impl ParseError {
    /// What the user is told when a level cannot be read.
    pub open spec fn shown() -> Seq<char> {
        "the verbosity level cannot be deduced!"@
    }

    /// What the user is told when a level cannot be read.
    pub fn to_string(&self) -> (shown: String)
        ensures
            shown@ == ParseError::shown(),
    {
        String::from_str("the verbosity level cannot be deduced!")
    }
}

impl PartialOrd for Verbosity {
    fn partial_cmp(&self, other: &Self) -> (result: Option<Ordering>) {
        let left = self.level();
        let right = other.level();
        if left < right {
            Some(Ordering::Less)
        } else if left == right {
            Some(Ordering::Equal)
        } else {
            Some(Ordering::Greater)
        }
    }
}

impl vstd::std_specs::cmp::PartialOrdSpecImpl for Verbosity {
    open spec fn obeys_partial_cmp_spec() -> bool {
        true
    }

    open spec fn partial_cmp_spec(&self, other: &Self) -> Option<Ordering> {
        if self.rank() < other.rank() {
            Some(Ordering::Less)
        } else if self.rank() == other.rank() {
            Some(Ordering::Equal)
        } else {
            Some(Ordering::Greater)
        }
    }
}

/// The order of the levels is the order of their numbers, so that
/// `Silent < Monosyllabic < Chatty` and no other pair is in ascending order.
pub proof fn lemma_order_follows_rank(left: Verbosity, right: Verbosity)
    ensures
        left.partial_cmp_spec(&right) == Some(Ordering::Less) <==> left.rank() < right.rank(),
        left.partial_cmp_spec(&right) == Some(Ordering::Equal) <==> left == right,
        left.partial_cmp_spec(&right) == Some(Ordering::Greater) <==> left.rank() > right.rank(),
        left.rank() < right.rank() <==> (left == Verbosity::Silent && right
            == Verbosity::Monosyllabic) || (left == Verbosity::Silent && right
            == Verbosity::Chatty) || (left == Verbosity::Monosyllabic && right
            == Verbosity::Chatty),
{
}

/// Upgrading and downgrading move one level and stop at the ends:
/// upgrading `Chatty` and downgrading `Silent` change nothing.
pub proof fn lemma_levels_saturate(level: Verbosity)
    ensures
        level.upgraded().rank() == if level.rank() < 2 {
            level.rank() + 1
        } else {
            2
        },
        level.downgraded().rank() == if level.rank() > 0 {
            level.rank() - 1
        } else {
            0
        },
        Verbosity::Chatty.upgraded() == Verbosity::Chatty,
        Verbosity::Silent.downgraded() == Verbosity::Silent,
{
}

} // verus!
