//! The boot sequence that greets the player line by line.

use crate::text::append_str;
use crate::text::contains;
use crate::text::from_chars;
use crate::text::includes;
use crate::text::joined;
use crate::text::to_chars;
use vstd::prelude::*;

verus! {

/// The word that marks the end of the boot sequence.
pub const BOOT_DONE_MARK: &'static str = "ARCHITECT";

/// The lines of the boot sequence, in order.
pub open spec fn boot_lines() -> Seq<Seq<char>> {
    seq![
        "> INITIALIZING KERNEL..."@,
        "> LOAD_BRAIN... [OK]"@,
        "> ATTUNING EARS... [OK]"@,
        "> CONNECTING TO THE NOOSPHERE..."@,
        "> WELCOME, ARCHITECT."@,
    ]
}

/// How many lines of the boot sequence show after `elapsed_secs` whole
/// seconds: one more every two seconds, up to all five.
pub open spec fn lines_shown(elapsed_secs: nat) -> nat {
    if elapsed_secs < 2 {
        1
    } else if elapsed_secs < 4 {
        2
    } else if elapsed_secs < 6 {
        3
    } else if elapsed_secs < 8 {
        4
    } else {
        5
    }
}

/// The boot screen after `elapsed_secs` whole seconds: the lines shown so
/// far, one below the other.
pub open spec fn boot_screen(elapsed_secs: nat) -> Seq<char> {
    joined(boot_lines().take(lines_shown(elapsed_secs) as int), "\n"@)
}

fn boot_line(k: usize) -> (line: &'static str)
    requires
        k < 5,
    ensures
        line@ == boot_lines()[k as int],
{
    if k == 0 {
        "> INITIALIZING KERNEL..."
    } else if k == 1 {
        "> LOAD_BRAIN... [OK]"
    } else if k == 2 {
        "> ATTUNING EARS... [OK]"
    } else if k == 3 {
        "> CONNECTING TO THE NOOSPHERE..."
    } else {
        "> WELCOME, ARCHITECT."
    }
}

/// The next boot screen, for a screen that shows `current` after
/// `elapsed_secs` whole seconds. A screen that has reached the welcome
/// stays as it is.
pub fn animate_boot_text(current: &str, elapsed_secs: u64) -> (next: Option<String>)
    ensures
        match next {
            Some(text) => !contains(current@, BOOT_DONE_MARK@) && text@ == boot_screen(
                elapsed_secs as nat,
            ),
            None => contains(current@, BOOT_DONE_MARK@),
        },
{
    let shown = to_chars(current);
    if includes(shown.as_slice(), BOOT_DONE_MARK) {
        return None;
    }
    let n: usize = if elapsed_secs < 2 {
        1
    } else if elapsed_secs < 4 {
        2
    } else if elapsed_secs < 6 {
        3
    } else if elapsed_secs < 8 {
        4
    } else {
        5
    };
    let mut out: Vec<char> = Vec::new();
    let mut k: usize = 0;
    assert(boot_lines().take(0) =~= Seq::<Seq<char>>::empty());
    while k < n
        invariant
            k <= n <= 5,
            out@ == joined(boot_lines().take(k as int), "\n"@),
        decreases n - k,
    {
        let ghost before = boot_lines().take(k as int);
        let ghost after = boot_lines().take(k + 1);
        assert(after.drop_last() =~= before);
        assert(after.last() == boot_lines()[k as int]);
        if k > 0 {
            append_str(&mut out, "\n");
        }
        append_str(&mut out, boot_line(k));
        assert(out@ =~= joined(after, "\n"@));
        k += 1;
    }
    Some(from_chars(out.as_slice()))
}

} // verus!
