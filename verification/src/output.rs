//! Where a recording is written: the path that was asked for, or a name made
//! from the time at which the recording starts.

use vstd::prelude::*;
use vstd::string::StringExecFns;

verus! {

/// The character of a decimal digit.
pub open spec fn digit_char(d: nat) -> char {
    if d == 0 {
        '0'
    } else if d == 1 {
        '1'
    } else if d == 2 {
        '2'
    } else if d == 3 {
        '3'
    } else if d == 4 {
        '4'
    } else if d == 5 {
        '5'
    } else if d == 6 {
        '6'
    } else if d == 7 {
        '7'
    } else if d == 8 {
        '8'
    } else {
        '9'
    }
}

/// The decimal digits of a number, most significant first, without leading
/// zeros; zero is the single digit `0`.
pub open spec fn decimal_digits(n: nat) -> Seq<char>
    decreases n,
{
    if n < 10 {
        seq![digit_char(n)]
    } else {
        decimal_digits(n / 10).push(digit_char(n % 10))
    }
}

/// The file name of a recording that starts `epoch_secs` seconds after the
/// epoch and was given no path.
pub open spec fn default_name(epoch_secs: u64) -> Seq<char> {
    decimal_digits(epoch_secs as nat) + seq!['.', 'm', 'p', '4']
}

/// Writes a number in decimal with std's `ToString::to_string` for `u64`,
/// whose output is the number's decimal digits and nothing else. The contract
/// claims exactly those digits.
#[verifier::external_body]
fn decimal(n: u64) -> (s: String)
    ensures
        s@ == decimal_digits(n as nat),
{
    n.to_string()
}

/// The path that a recording is written to: the one that was asked for, or,
/// where none was, the start time in seconds followed by `.mp4`.
pub fn output_name(path: Option<String>, epoch_secs: u64) -> (name: String)
    ensures
        name@ == match path {
            Some(p) => p@,
            None => default_name(epoch_secs),
        },
{
    match path {
        Some(p) => p,
        None => {
            proof {
                reveal_strlit(".mp4");
            }
            let name: String = decimal(epoch_secs).concat(".mp4");
            assert(name@ =~= default_name(epoch_secs));
            name
        },
    }
}

} // verus!
