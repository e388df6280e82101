//! Configuration of the dual log sinks: the verbosity filter the sinks are
//! installed with, and the name of the daily-rotating log file. Installing
//! the sinks themselves is process-global state and stays with the host.

use vstd::prelude::*;

verus! {

/// The hard-coded default verbosity filter: informational level globally,
/// debug level for the update-related components only.
pub open spec fn spec_default_filter() -> Seq<char> {
    "info,tauri=debug,tauri_plugin_updater=debug"@
}

/// The default verbosity filter expression.
pub fn default_filter() -> (r: &'static str)
    ensures
        r@ == spec_default_filter(),
{
    "info,tauri=debug,tauri_plugin_updater=debug"
}

/// The verbosity filter the sinks are installed with: the environment
/// override when one is present, else the hard-coded default.
pub fn choose_filter(env_override: Option<String>) -> (r: String)
    ensures
        env_override matches Some(s) ==> r@ == s@,
        env_override is None ==> r@ == spec_default_filter(),
{
    match env_override {
        Some(s) => s,
        None => String::from_str(default_filter()),
    }
}

/// The decimal digit character for `d`.
pub open spec fn spec_digit(d: int) -> char {
    if d == 0 {
        '0'
    } else if d == 1 {
        '1'
    } else if d == 2 {
        '2'
    } else if d == 3 {
        '3'
    } else if d == 4 {
        '4'
    } else if d == 5 {
        '5'
    } else if d == 6 {
        '6'
    } else if d == 7 {
        '7'
    } else if d == 8 {
        '8'
    } else {
        '9'
    }
}

/// `n` as two zero-padded decimal digits.
pub open spec fn spec_two_digits(n: int) -> Seq<char> {
    seq![spec_digit(n / 10 % 10), spec_digit(n % 10)]
}

/// `n` as four zero-padded decimal digits.
pub open spec fn spec_four_digits(n: int) -> Seq<char> {
    seq![
        spec_digit(n / 1000 % 10),
        spec_digit(n / 100 % 10),
        spec_digit(n / 10 % 10),
        spec_digit(n % 10),
    ]
}

/// The name of the log file for the calendar day (year, month, day): the
/// fixed base name and the date-derived rotation suffix. One physical file
/// exists per calendar day.
pub open spec fn spec_rotation_file_name(year: int, month: int, day: int) -> Seq<char> {
    "app.log."@ + spec_four_digits(year) + "-"@ + spec_two_digits(month) + "-"@ + spec_two_digits(
        day,
    )
}

fn digit_str(d: u32) -> (r: &'static str)
    requires
        d < 10,
    ensures
        r@ == seq![spec_digit(d as int)],
{
    proof {
        reveal_strlit("0");
        reveal_strlit("1");
        reveal_strlit("2");
        reveal_strlit("3");
        reveal_strlit("4");
        reveal_strlit("5");
        reveal_strlit("6");
        reveal_strlit("7");
        reveal_strlit("8");
        reveal_strlit("9");
    }
    let r: &'static str = if d == 0 {
        "0"
    } else if d == 1 {
        "1"
    } else if d == 2 {
        "2"
    } else if d == 3 {
        "3"
    } else if d == 4 {
        "4"
    } else if d == 5 {
        "5"
    } else if d == 6 {
        "6"
    } else if d == 7 {
        "7"
    } else if d == 8 {
        "8"
    } else {
        "9"
    };
    proof {
        assert(r@ =~= seq![spec_digit(d as int)]);
    }
    r
}

/// Builds the rotating log file's name for the given calendar day,
/// zero-padded as the rotation suffix is.
pub fn rotation_file_name(year: u32, month: u32, day: u32) -> (r: String)
    requires
        year < 10000,
        1 <= month <= 12,
        1 <= day <= 31,
    ensures
        r@ == spec_rotation_file_name(year as int, month as int, day as int),
{
    let mut r = String::from_str("app.log.");
    r.append(digit_str(year / 1000));
    r.append(digit_str(year / 100 % 10));
    r.append(digit_str(year / 10 % 10));
    r.append(digit_str(year % 10));
    r.append("-");
    r.append(digit_str(month / 10));
    r.append(digit_str(month % 10));
    r.append("-");
    r.append(digit_str(day / 10));
    r.append(digit_str(day % 10));
    proof {
        reveal_strlit("app.log.");
        reveal_strlit("-");
        assert(year / 1000 % 10 == year as int / 1000 % 10) by (nonlinear_arith)
            requires
                year < 10000,
        ;
        assert(r@ =~= spec_rotation_file_name(year as int, month as int, day as int));
    }
    r
}

} // verus!
