//! The summary of an installation that is about to begin.

use vstd::prelude::*;
use vstd::string::StringExecFns;

use crate::command::texts;
use crate::text::glue;

verus! {

/// The lines that sum up an installation before it begins: what is
/// installed where, for whom, and how.
pub open spec fn summary_lines(
    disk: Seq<char>,
    hostname: Seq<char>,
    username: Seq<char>,
    timezone: Seq<char>,
    keyboard: Seq<char>,
    kernel: Seq<char>,
    encryption: bool,
    swap_mode: Seq<char>,
) -> Seq<Seq<char>> {
    seq![
        Seq::empty(),
        "  Target disk:    "@ + disk,
        "  Hostname:       "@ + hostname,
        "  Username:       "@ + username,
        "  Timezone:       "@ + timezone,
        "  Keyboard:       "@ + keyboard,
        "  Kernel:         "@ + kernel,
        "  Encryption:     "@ + (if encryption {
            "Yes"@
        } else {
            "No"@
        }),
        "  Swap:           "@ + swap_mode,
        "  Desktop:        KDE Plasma"@,
        Seq::empty(),
    ]
}

/// The lines that sum up an installation before it begins. Showing them is
/// the caller's.
pub fn show_summary(
    disk: &str,
    hostname: &str,
    username: &str,
    timezone: &str,
    keyboard: &str,
    kernel: &str,
    encryption: bool,
    swap_mode: &str,
) -> (lines: Vec<String>)
    ensures
        texts(lines@) == summary_lines(
            disk@,
            hostname@,
            username@,
            timezone@,
            keyboard@,
            kernel@,
            encryption,
            swap_mode@,
        ),
{
    let enc_str = if encryption {
        "Yes"
    } else {
        "No"
    };
    let mut lines: Vec<String> = Vec::new();
    lines.push(String::new());
    lines.push(glue("  Target disk:    ", disk));
    lines.push(glue("  Hostname:       ", hostname));
    lines.push(glue("  Username:       ", username));
    lines.push(glue("  Timezone:       ", timezone));
    lines.push(glue("  Keyboard:       ", keyboard));
    lines.push(glue("  Kernel:         ", kernel));
    lines.push(glue("  Encryption:     ", enc_str));
    lines.push(glue("  Swap:           ", swap_mode));
    lines.push(String::from_str("  Desktop:        KDE Plasma"));
    lines.push(String::new());
    lines
}

} // verus!
