//! The exit codes that a run can end with.

use vstd::prelude::*;
use vstd::string::StringExecFns;

verus! {

/// The system exit codes of `<sysexits.h>`.
///
/// A run ends with one of them, and the number of that code is the exit
/// status of the whole program.
#[derive(Clone, Copy, Debug, PartialEq, Eq, Structural, Hash)]
pub enum ExitCode {
    /// Everything went well.
    Success,
    /// The command was used incorrectly.
    Usage,
    /// Some data was incorrect.
    DataErr,
    /// An input file did not exist or was not readable.
    NoInput,
    /// A user did not exist.
    NoUser,
    /// A host did not exist.
    NoHost,
    /// A service or a command is unavailable.
    Unavailable,
    /// An internal software error was detected.
    Software,
    /// An operating system error was detected.
    OsErr,
    /// A system file could not be used.
    OsFile,
    /// An output file could not be created.
    CantCreat,
    /// An error occurred while doing I/O.
    IoErr,
    /// A temporary failure: trying again later may succeed.
    TempFail,
    /// The remote system did something impossible.
    Protocol,
    /// The permissions were insufficient.
    NoPerm,
    /// Something was found in an unconfigured or misconfigured state.
    Config,
}

/// One decimal digit as a text.
pub open spec fn digit(value: nat) -> Seq<char>
    recommends
        value < 10,
{
    if value == 0 {
        "0"@
    } else if value == 1 {
        "1"@
    } else if value == 2 {
        "2"@
    } else if value == 3 {
        "3"@
    } else if value == 4 {
        "4"@
    } else if value == 5 {
        "5"@
    } else if value == 6 {
        "6"@
    } else if value == 7 {
        "7"@
    } else if value == 8 {
        "8"@
    } else {
        "9"@
    }
}

/// A number in decimal notation, without leading zeros.
pub open spec fn decimal(value: nat) -> Seq<char>
    decreases value,
{
    if value < 10 {
        digit(value)
    } else {
        decimal(value / 10) + digit(value % 10)
    }
}

fn digit_text(value: u8) -> (text: &'static str)
    requires
        value < 10,
    ensures
        text@ == digit(value as nat),
{
    if value == 0 {
        "0"
    } else if value == 1 {
        "1"
    } else if value == 2 {
        "2"
    } else if value == 3 {
        "3"
    } else if value == 4 {
        "4"
    } else if value == 5 {
        "5"
    } else if value == 6 {
        "6"
    } else if value == 7 {
        "7"
    } else if value == 8 {
        "8"
    } else {
        "9"
    }
}

impl ExitCode {
    /// The number of a code: 0 for `Success`, 64 to 78 for the others.
    pub open spec fn number(self) -> nat {
        match self {
            ExitCode::Success => 0,
            ExitCode::Usage => 64,
            ExitCode::DataErr => 65,
            ExitCode::NoInput => 66,
            ExitCode::NoUser => 67,
            ExitCode::NoHost => 68,
            ExitCode::Unavailable => 69,
            ExitCode::Software => 70,
            ExitCode::OsErr => 71,
            ExitCode::OsFile => 72,
            ExitCode::CantCreat => 73,
            ExitCode::IoErr => 74,
            ExitCode::TempFail => 75,
            ExitCode::Protocol => 76,
            ExitCode::NoPerm => 77,
            ExitCode::Config => 78,
        }
    }

    /// The number of a code, which is the exit status that the program
    /// reports when it ends with it.
    pub fn code(&self) -> (number: u8)
        ensures
            number == self.number(),
    {
        match self {
            ExitCode::Success => 0,
            ExitCode::Usage => 64,
            ExitCode::DataErr => 65,
            ExitCode::NoInput => 66,
            ExitCode::NoUser => 67,
            ExitCode::NoHost => 68,
            ExitCode::Unavailable => 69,
            ExitCode::Software => 70,
            ExitCode::OsErr => 71,
            ExitCode::OsFile => 72,
            ExitCode::CantCreat => 73,
            ExitCode::IoErr => 74,
            ExitCode::TempFail => 75,
            ExitCode::Protocol => 76,
            ExitCode::NoPerm => 77,
            ExitCode::Config => 78,
        }
    }

    /// The number of the code in decimal notation, as it is shown to the
    /// user.
    pub fn to_string(&self) -> (shown: String)
        ensures
            shown@ == decimal(self.number()),
    {
        let number = self.code();
        let mut shown = String::new();
        if number >= 10 {
            shown.append(digit_text(number / 10));
        }
        shown.append(digit_text(number % 10));
        proof {
            reveal_with_fuel(decimal, 2);
            assert(shown@ =~= decimal(number as nat));
        }
        shown
    }
}

} // verus!
