use vstd::prelude::*;
use vstd::string::StringExecFns;
use crate::schedule::Status;

verus! {

/// The character of a decimal digit.
pub open spec fn digit_char(d: nat) -> char {
    if d == 0 {
        '0'
    } else if d == 1 {
        '1'
    } else if d == 2 {
        '2'
    } else if d == 3 {
        '3'
    } else if d == 4 {
        '4'
    } else if d == 5 {
        '5'
    } else if d == 6 {
        '6'
    } else if d == 7 {
        '7'
    } else if d == 8 {
        '8'
    } else {
        '9'
    }
}

/// `n` written in decimal, without leading zeros.
pub open spec fn decimal(n: nat) -> Seq<char>
    decreases n,
{
    if n < 10 {
        seq![digit_char(n)]
    } else {
        decimal(n / 10) + seq![digit_char(n % 10)]
    }
}

/// The text shown while a refresh runs.
pub open spec fn updating_text() -> Seq<char> {
    "Updating data..."@
}

/// The text shown while counting down to the next refresh.
pub open spec fn countdown_text(secs: nat) -> Seq<char> {
    "Data refresh in "@ + decimal(secs) + " seconds..."@
}

/// The status line of a frame.
pub open spec fn status_text_spec(status: Status) -> Seq<char> {
    match status {
        Status::Countdown(secs) => countdown_text(secs as nat),
        Status::Updating => updating_text(),
    }
}

fn digit_str(d: u64) -> (r: &'static str)
    requires
        d < 10,
    ensures
        r@ == seq![digit_char(d as nat)],
{
    proof {
        reveal_strlit("0");
        reveal_strlit("1");
        reveal_strlit("2");
        reveal_strlit("3");
        reveal_strlit("4");
        reveal_strlit("5");
        reveal_strlit("6");
        reveal_strlit("7");
        reveal_strlit("8");
        reveal_strlit("9");
    }
    if d == 0 {
        "0"
    } else if d == 1 {
        "1"
    } else if d == 2 {
        "2"
    } else if d == 3 {
        "3"
    } else if d == 4 {
        "4"
    } else if d == 5 {
        "5"
    } else if d == 6 {
        "6"
    } else if d == 7 {
        "7"
    } else if d == 8 {
        "8"
    } else {
        "9"
    }
}

/// Appends `n` in decimal to `out`.
pub fn push_decimal(out: &mut String, n: u64)
    ensures
        final(out)@ == old(out)@ + decimal(n as nat),
    decreases n,
{
    if n >= 10 {
        push_decimal(out, n / 10);
    }
    out.append(digit_str(n % 10));
    assert(out@ =~= old(out)@ + decimal(n as nat));
}

/// The status line of a frame: the countdown in seconds, or the updating text.
pub fn status_text(status: Status) -> (r: String)
    ensures
        r@ == status_text_spec(status),
{
    match status {
        Status::Countdown(secs) => {
            let mut text = String::from_str("Data refresh in ");
            push_decimal(&mut text, secs);
            text.append(" seconds...");
            assert(text@ =~= countdown_text(secs as nat));
            text
        },
        Status::Updating => String::from_str("Updating data..."),
    }
}

} // verus!
