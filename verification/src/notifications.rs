//! The texts of the notifications that tell the user how a download goes.

use vstd::prelude::*;

verus! {

/// The numeral of one decimal digit.
pub open spec fn digit_text(d: nat) -> Seq<char> {
    if d == 0 {
        "0"@
    } else if d == 1 {
        "1"@
    } else if d == 2 {
        "2"@
    } else if d == 3 {
        "3"@
    } else if d == 4 {
        "4"@
    } else if d == 5 {
        "5"@
    } else if d == 6 {
        "6"@
    } else if d == 7 {
        "7"@
    } else if d == 8 {
        "8"@
    } else {
        "9"@
    }
}

/// The decimal numeral of `n`, without leading zeros.
pub open spec fn decimal(n: nat) -> Seq<char>
    decreases n,
{
    if n < 10 {
        digit_text(n)
    } else {
        decimal(n / 10) + digit_text(n % 10)
    }
}

/// `n` times the character `c`.
pub open spec fn repeated(c: char, n: nat) -> Seq<char> {
    Seq::new(n, |i: int| c)
}

/// The part of a progress in percent that is shown: at most 100.
pub open spec fn clamped(progress: nat) -> nat {
    if progress > 100 {
        100
    } else {
        progress
    }
}

/// A bar of ten places, one filled for every full ten percent, and the percentage
/// behind it.
pub open spec fn progress_bar(progress: nat) -> Seq<char> {
    let shown = clamped(progress);
    let filled = shown / 10;
    "["@ + repeated('=', filled) + repeated(' ', (10 - filled) as nat) + "] "@ + decimal(shown)
        + "%"@
}

/// The body of the notification that shows a download's progress.
pub open spec fn progress_body(message: Seq<char>, progress: nat) -> Seq<char> {
    message + "\n"@ + progress_bar(progress)
}

/// The body of the notification that tells of a finished download.
pub open spec fn complete_body(
    file_count: nat,
    size_transferred: Seq<char>,
    duration_secs: nat,
) -> Seq<char> {
    "Downloaded "@ + decimal(file_count) + " files ("@ + size_transferred + ")\nTime: "@
        + decimal(duration_secs) + " seconds"@
}

/// The numeral of one decimal digit.
pub fn digit_str(d: u64) -> (text: &'static str)
    requires
        d < 10,
    ensures
        text@ == digit_text(d as nat),
{
    if d == 0 {
        "0"
    } else if d == 1 {
        "1"
    } else if d == 2 {
        "2"
    } else if d == 3 {
        "3"
    } else if d == 4 {
        "4"
    } else if d == 5 {
        "5"
    } else if d == 6 {
        "6"
    } else if d == 7 {
        "7"
    } else if d == 8 {
        "8"
    } else {
        "9"
    }
}

/// The decimal numeral of `n`.
pub fn decimal_string(n: u64) -> (text: String)
    ensures
        text@ == decimal(n as nat),
    decreases n,
{
    if n < 10 {
        String::from_str(digit_str(n))
    } else {
        decimal_string(n / 10).concat(digit_str(n % 10))
    }
}

/// Puts `n` times the one character of `unit` behind `text`.
pub fn append_repeated(text: &mut String, unit: &str, n: usize)
    requires
        unit@.len() == 1,
    ensures
        final(text)@ == old(text)@ + repeated(unit@[0], n as nat),
{
    let ghost before = text@;
    let mut i: usize = 0;
    assert(before + repeated(unit@[0], 0) =~= before);
    while i < n
        invariant
            i <= n,
            unit@.len() == 1,
            text@ == before + repeated(unit@[0], i as nat),
        decreases n - i,
    {
        text.append(unit);
        i = i + 1;
        assert(before + repeated(unit@[0], (i - 1) as nat) + unit@ =~= before + repeated(
            unit@[0],
            i as nat,
        ));
    }
}

/// A progress bar for a progress in percent; what lies above 100 counts as 100.
pub fn create_progress_bar(progress: u32) -> (bar: String)
    ensures
        bar@ == progress_bar(progress as nat),
{
    let shown: u32 = if progress > 100 {
        100
    } else {
        progress
    };
    let filled: usize = (shown / 10) as usize;
    let empty: usize = 10 - filled;
    let mut bar = String::from_str("[");
    proof {
        reveal_strlit("=");
        reveal_strlit(" ");
    }
    append_repeated(&mut bar, "=", filled);
    append_repeated(&mut bar, " ", empty);
    bar.append("] ");
    let percent = decimal_string(shown as u64);
    bar.append(percent.as_str());
    bar.append("%");
    bar
}

/// The body of the notification that shows a download's progress: the message, and
/// the progress bar on a line of its own.
pub fn download_progress_body(message: &str, progress: u32) -> (body: String)
    ensures
        body@ == progress_body(message@, progress as nat),
{
    let bar = create_progress_bar(progress);
    String::from_str(message).concat("\n").concat(bar.as_str())
}

/// The body of the notification that tells of a finished download: how many files
/// came, how much that was, and how long it took.
pub fn download_complete_body(file_count: u64, size_transferred: &str, duration_secs: u64) -> (body:
    String)
    ensures
        body@ == complete_body(file_count as nat, size_transferred@, duration_secs as nat),
{
    let count = decimal_string(file_count);
    let duration = decimal_string(duration_secs);
    String::from_str("Downloaded ").concat(count.as_str()).concat(" files (").concat(
        size_transferred,
    ).concat(")\nTime: ").concat(duration.as_str()).concat(" seconds")
}

} // verus!
