//! Reading what the user typed: the rules of the console dialogue. Printing
//! the questions and reading the lines is the caller's.

use vstd::prelude::*;
use vstd::string::StringExecFns;

use crate::text::{
    chars_of, lowercase, number, parse_number, starts_with, str_starts_with, to_lowercase, trim,
    trim_bounds, trimmed,
};

verus! {

/// The option that a line picks from a menu of `count` options, counted from
/// zero. The line holds the number of the option, counted from one; any other
/// line picks `fallback`.
pub open spec fn picked(line: Seq<char>, count: nat, fallback: nat) -> nat {
    match number(trim(line)) {
        Some(n) => if 1 <= n <= count {
            (n - 1) as nat
        } else {
            fallback
        },
        None => fallback,
    }
}

/// The option that a line picks from a menu of `count` options.
pub fn menu_select(line: &str, count: usize, default_selection: usize) -> (choice: usize)
    ensures
        choice == picked(line@, count as nat, default_selection as nat),
{
    let chars = chars_of(line);
    let (start, end) = trim_bounds(&chars, 0, chars.len());
    assert(chars@.subrange(0, chars@.len() as int) =~= chars@);
    match parse_number(&chars, start, end) {
        Some(n) => {
            if 1 <= n && n <= count as u64 {
                (n - 1) as usize
            } else {
                default_selection
            }
        },
        None => default_selection,
    }
}

/// What a line says to the choice of a disk.
#[derive(Debug, Clone, Copy, PartialEq, Eq, Structural)]
pub enum DiskChoice {
    /// The line holds a zero: no disk.
    Cancelled,
    /// The line holds the number of a disk; here is its position, counted
    /// from zero.
    Chosen(usize),
    /// The line holds something else.
    Invalid,
}

/// What a line says to the choice among `count` disks.
pub open spec fn disk_picked(line: Seq<char>, count: nat) -> DiskChoice {
    match number(trim(line)) {
        Some(n) => if n == 0 {
            DiskChoice::Cancelled
        } else if n <= count {
            DiskChoice::Chosen((n - 1) as usize)
        } else {
            DiskChoice::Invalid
        },
        None => DiskChoice::Invalid,
    }
}

/// What a line says to the choice among `count` disks.
pub fn select_disk(line: &str, count: usize) -> (choice: DiskChoice)
    ensures
        choice == disk_picked(line@, count as nat),
{
    let chars = chars_of(line);
    let (start, end) = trim_bounds(&chars, 0, chars.len());
    assert(chars@.subrange(0, chars@.len() as int) =~= chars@);
    match parse_number(&chars, start, end) {
        Some(n) => {
            if n == 0 {
                DiskChoice::Cancelled
            } else if n <= count as u64 {
                DiskChoice::Chosen((n - 1) as usize)
            } else {
                DiskChoice::Invalid
            }
        },
        None => DiskChoice::Invalid,
    }
}

/// Whether an answer in lower case says yes: it begins with a `y`.
pub open spec fn affirms(lowered: Seq<char>) -> bool {
    starts_with(lowered, "y"@)
}

/// Whether an answer in lower case says yes.
pub fn is_affirmative(lowered: &str) -> (yes: bool)
    ensures
        yes == affirms(lowered@),
{
    str_starts_with(lowered, "y")
}

/// Whether a line says yes to a question whose answer is `default_yes`
/// where the line is empty.
pub open spec fn confirmed(line: Seq<char>, default_yes: bool) -> bool {
    if trim(line).len() == 0 {
        default_yes
    } else {
        affirms(lowercase(trim(line)))
    }
}

/// Whether a line says yes to a question.
pub fn confirm(line: &str, default_yes: bool) -> (yes: bool)
    ensures
        yes == confirmed(line@, default_yes),
{
    let answer = trimmed(line);
    if answer.as_str().is_empty() {
        default_yes
    } else {
        let lowered = to_lowercase(answer.as_str());
        is_affirmative(lowered.as_str())
    }
}

/// The text that a line enters: what is left of the line when it is
/// trimmed, or `default_value` where nothing is left.
pub open spec fn entered(line: Seq<char>, default_value: Seq<char>) -> Seq<char> {
    if trim(line).len() == 0 {
        default_value
    } else {
        trim(line)
    }
}

/// The text that a line enters.
pub fn input_prompt(line: &str, default_value: &str) -> (text: String)
    ensures
        text@ == entered(line@, default_value@),
{
    let answer = trimmed(line);
    if answer.as_str().is_empty() {
        String::from_str(default_value)
    } else {
        answer
    }
}

/// The password that a line enters: the line, trimmed.
pub fn password_input(line: &str) -> (password: String)
    ensures
        password@ == trim(line@),
{
    trimmed(line)
}

} // verus!
