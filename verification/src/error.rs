//! Error taxonomy of the build layer, with verified rendering of each
//! error into its diagnostic message.

use vstd::prelude::*;
use vstd::string::*;

verus! {

/// Why a build request failed.
///
/// Every failure aborts the whole operation and surfaces as one value
/// of this enum; there is no partial success and no automatic retry.
#[derive(Debug, Clone)]
pub enum Error {
    /// The required source tree is missing its build-entry marker
    /// (the `Makefile`): the checkout was never initialized. Fatal,
    /// surfaced before any copy is attempted.
    Configuration { path: String },
    /// A filesystem removal or copy failed while staging the source
    /// tree into the output directory.
    Staging { path: String, reason: String },
    /// The external build executable could not be started at all
    /// (missing tool, permission problem).
    Launch { command: String, reason: String },
    /// The external build ran and exited non-zero (or was killed
    /// without an exit code). The two log files remain on disk for
    /// postmortem inspection.
    BuildFailure { command: String, exit_code: Option<i32> },
}

/// The decimal digit character for `d`, which must be below ten.
pub open spec fn spec_digit(d: nat) -> char {
    if d == 0 {
        '0'
    } else if d == 1 {
        '1'
    } else if d == 2 {
        '2'
    } else if d == 3 {
        '3'
    } else if d == 4 {
        '4'
    } else if d == 5 {
        '5'
    } else if d == 6 {
        '6'
    } else if d == 7 {
        '7'
    } else if d == 8 {
        '8'
    } else {
        '9'
    }
}

/// The decimal rendering of a natural number, most significant digit
/// first, without leading zeros (zero itself renders as `"0"`).
pub open spec fn spec_udecimal(n: nat) -> Seq<char>
    decreases n,
{
    if n < 10 {
        seq![spec_digit(n)]
    } else {
        spec_udecimal(n / 10) + seq![spec_digit(n % 10)]
    }
}

/// The decimal rendering of an integer: a minus sign before the
/// magnitude for negative values.
pub open spec fn spec_decimal(v: int) -> Seq<char> {
    if v < 0 {
        seq!['-'] + spec_udecimal((-v) as nat)
    } else {
        spec_udecimal(v as nat)
    }
}

/// The rendering of an exit status: the code in decimal when the
/// process exited with one, a fixed phrase when it was killed.
pub open spec fn spec_exit_rendering(exit_code: Option<i32>) -> Seq<char> {
    match exit_code {
        Some(c) => "exit status: "@ + spec_decimal(c as int),
        None => "terminated by a signal"@,
    }
}

impl Error {
    /// The diagnostic message of this error.
    pub open spec fn spec_message(self) -> Seq<char> {
        match self {
            Error::Configuration { path } => "OpenBLAS repository has not been cloned. Run `git submodule update --init` (expected Makefile under "@
                + path@ + ")"@,
            Error::Staging { path, reason } => "Failed to stage OpenBLAS source into `"@ + path@
                + "`: "@ + reason@,
            Error::Launch { command, reason } => "Subprocess execution failed: `"@ + command@
                + "` ("@ + reason@ + ")"@,
            Error::BuildFailure { command, exit_code } => "Subprocess returns with non-zero status: `"@
                + command@ + "` ("@ + spec_exit_rendering(exit_code) + ")"@,
        }
    }

    /// Renders this error's diagnostic message.
    pub fn message(&self) -> (r: String)
        ensures
            r@ == self.spec_message(),
    {
        match self {
            Error::Configuration { path } => {
                let mut s = String::from_str(
                    "OpenBLAS repository has not been cloned. Run `git submodule update --init` (expected Makefile under ",
                );
                s.append(path.as_str());
                s.append(")");
                s
            },
            Error::Staging { path, reason } => {
                let mut s = String::from_str("Failed to stage OpenBLAS source into `");
                s.append(path.as_str());
                s.append("`: ");
                s.append(reason.as_str());
                s
            },
            Error::Launch { command, reason } => {
                let mut s = String::from_str("Subprocess execution failed: `");
                s.append(command.as_str());
                s.append("` (");
                s.append(reason.as_str());
                s.append(")");
                s
            },
            Error::BuildFailure { command, exit_code } => {
                let mut s = String::from_str("Subprocess returns with non-zero status: `");
                s.append(command.as_str());
                s.append("` (");
                match exit_code {
                    Some(c) => {
                        s.append("exit status: ");
                        let rendered = i32_decimal(*c);
                        s.append(rendered.as_str());
                    },
                    None => {
                        s.append("terminated by a signal");
                    },
                }
                s.append(")");
                s
            },
        }
    }
}

/// Renders a natural number in decimal, exactly as
/// [`spec_udecimal`] describes.
fn u64_decimal(n: u64) -> (r: String)
    ensures
        r@ == spec_udecimal(n as nat),
    decreases n,
{
    if n < 10 {
        String::from_str(digit_str(n))
    } else {
        let mut s = u64_decimal(n / 10);
        let last = digit_str(n % 10);
        s.append(last);
        s
    }
}

/// Renders an integer in decimal, exactly as [`spec_decimal`]
/// describes.
fn i32_decimal(v: i32) -> (r: String)
    ensures
        r@ == spec_decimal(v as int),
{
    if v < 0 {
        let wide: i64 = v as i64;
        let magnitude: u64 = (-wide) as u64;
        let mut s = String::from_str("-");
        let digits = u64_decimal(magnitude);
        s.append(digits.as_str());
        proof {
            reveal_strlit("-");
            assert(s@ =~= spec_decimal(v as int));
        }
        s
    } else {
        u64_decimal(v as u64)
    }
}

/// The one-character string of a decimal digit below ten.
fn digit_str(d: u64) -> (r: &'static str)
    requires
        d < 10,
    ensures
        r@ == seq![spec_digit(d as nat)],
{
    let r: &'static str = match d {
        0 => "0",
        1 => "1",
        2 => "2",
        3 => "3",
        4 => "4",
        5 => "5",
        6 => "6",
        7 => "7",
        8 => "8",
        _ => "9",
    };
    proof {
        reveal_strlit("0");
        reveal_strlit("1");
        reveal_strlit("2");
        reveal_strlit("3");
        reveal_strlit("4");
        reveal_strlit("5");
        reveal_strlit("6");
        reveal_strlit("7");
        reveal_strlit("8");
        reveal_strlit("9");
        assert(r@ =~= seq![spec_digit(d as nat)]);
    }
    r
}

} // verus!
