//! The error taxonomy of the engine, and the rendering of each error
//! as a human-readable message.

use vstd::prelude::*;
use vstd::string::StringExecFns;

verus! {

/// Everything that can abort a registration or a parse pass. A
/// conversion callback's failure message is carried through unchanged;
/// every other variant records the flag string or the counts involved.
#[derive(Debug)]
pub enum CliError {
    /// The flag string was registered twice, or matched twice in one
    /// parse pass.
    DuplicatePattern(String),
    /// A token matched no registered flag string.
    UnknownPattern(String),
    /// An argument-taking flag stood last, with no token following it.
    MissingArgument(String),
    /// The conversion callback rejected its argument; its message is
    /// kept verbatim.
    CallbackFailure(String),
    /// The tokens ran out before every compulsory pattern was matched.
    IncompleteCompulsory { expected: usize, actual: usize },
}

/// The decimal digit character for `d`.
pub open spec fn dec_digit(d: nat) -> char {
    if d == 0 {
        '0'
    } else if d == 1 {
        '1'
    } else if d == 2 {
        '2'
    } else if d == 3 {
        '3'
    } else if d == 4 {
        '4'
    } else if d == 5 {
        '5'
    } else if d == 6 {
        '6'
    } else if d == 7 {
        '7'
    } else if d == 8 {
        '8'
    } else {
        '9'
    }
}

/// The decimal rendering of `n`, most significant digit first.
pub open spec fn spec_dec(n: nat) -> Seq<char>
    decreases n,
{
    if n < 10 {
        seq![dec_digit(n)]
    } else {
        spec_dec(n / 10) + seq![dec_digit(n % 10)]
    }
}

/// The message rendered for each error.
pub open spec fn spec_message(e: CliError) -> Seq<char> {
    match e {
        CliError::DuplicatePattern(s) => "[CliParser Error]: argument pattern \""@ + s@
            + "\" is duplicated."@,
        CliError::UnknownPattern(s) => "[CliParser Error]: invalid argument pattern \""@ + s@
            + "\""@,
        CliError::MissingArgument(s) => "[CliParser Error]: no argument for pattern \""@ + s@
            + "\"."@,
        CliError::CallbackFailure(m) => m@,
        CliError::IncompleteCompulsory { expected, actual } => {
            "[CliParser Error]: the number of compulsory argument patterns is "@
                + spec_dec(expected as nat) + ", but only find "@ + spec_dec(actual as nat)
                + " in the argument list."@
        },
    }
}

/// The one-character string for a decimal digit.
fn digit_str(d: usize) -> (r: &'static str)
    requires
        d < 10,
    ensures
        r@ == seq![dec_digit(d as nat)],
{
    let r: &'static str = match d {
        0 => "0",
        1 => "1",
        2 => "2",
        3 => "3",
        4 => "4",
        5 => "5",
        6 => "6",
        7 => "7",
        8 => "8",
        _ => "9",
    };
    proof {
        reveal_strlit("0");
        reveal_strlit("1");
        reveal_strlit("2");
        reveal_strlit("3");
        reveal_strlit("4");
        reveal_strlit("5");
        reveal_strlit("6");
        reveal_strlit("7");
        reveal_strlit("8");
        reveal_strlit("9");
        assert(r@ =~= seq![dec_digit(d as nat)]);
    }
    r
}

/// Appends the decimal rendering of `n` to `s`.
fn append_dec(s: &mut String, n: usize)
    ensures
        final(s)@ == old(s)@ + spec_dec(n as nat),
    decreases n,
{
    if n >= 10 {
        append_dec(s, n / 10);
    }
    s.append(digit_str(n % 10));
    proof {
        if n >= 10 {
            assert(final(s)@ =~= old(s)@ + spec_dec(n as nat));
        } else {
            assert(final(s)@ =~= old(s)@ + spec_dec(n as nat));
        }
    }
}

impl CliError {
    /// Renders the error as the message shown to the user.
    pub fn message(&self) -> (r: String)
        ensures
            r@ == spec_message(*self),
    {
        match self {
            CliError::DuplicatePattern(s) => {
                let mut r = String::from_str("[CliParser Error]: argument pattern \"");
                r.append(s.as_str());
                r.append("\" is duplicated.");
                r
            },
            CliError::UnknownPattern(s) => {
                let mut r = String::from_str("[CliParser Error]: invalid argument pattern \"");
                r.append(s.as_str());
                r.append("\"");
                r
            },
            CliError::MissingArgument(s) => {
                let mut r = String::from_str("[CliParser Error]: no argument for pattern \"");
                r.append(s.as_str());
                r.append("\".");
                r
            },
            CliError::CallbackFailure(m) => m.clone(),
            CliError::IncompleteCompulsory { expected, actual } => {
                let mut r = String::from_str(
                    "[CliParser Error]: the number of compulsory argument patterns is ",
                );
                append_dec(&mut r, *expected);
                r.append(", but only find ");
                append_dec(&mut r, *actual);
                r.append(" in the argument list.");
                r
            },
        }
    }
}

} // verus!
