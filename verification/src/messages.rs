//! The text of a refusal, for logs and for the player.

use vstd::prelude::*;
use vstd::string::*;
use crate::narrative::{TimelineError, TimelineErrorView};
use crate::timecode::{all_digits, decimal, digit_value, is_digit};

verus! {

/// The character that writes the digit `d`.
pub open spec fn digit_char(d: nat) -> char {
    if d == 0 {
        '0'
    } else if d == 1 {
        '1'
    } else if d == 2 {
        '2'
    } else if d == 3 {
        '3'
    } else if d == 4 {
        '4'
    } else if d == 5 {
        '5'
    } else if d == 6 {
        '6'
    } else if d == 7 {
        '7'
    } else if d == 8 {
        '8'
    } else {
        '9'
    }
}

/// `n` written in base ten, without leading zeros.
pub open spec fn decimal_digits(n: nat) -> Seq<char>
    decreases n,
{
    if n < 10 {
        seq![digit_char(n)]
    } else {
        decimal_digits(n / 10).push(digit_char(n % 10))
    }
}

/// The text of a refusal. Positions and indices are written as they are
/// held: counted from one.
pub open spec fn message_spec(error: TimelineErrorView) -> Seq<char> {
    match error {
        TimelineErrorView::Source { cause } => "Reading timeline file: "@ + cause,
        TimelineErrorView::Decode { cause } => "Parsing YAML timeline: "@ + cause,
        TimelineErrorView::EmptyTitle => "Timeline has no title"@,
        TimelineErrorView::NoFrames => "Timeline has no frames"@,
        TimelineErrorView::IndexMismatch { position, index } => {
            "Frame index mismatch at position "@ + decimal_digits(position) + ": got "@
                + decimal_digits(index)
        },
        TimelineErrorView::NonPositiveDuration { index, time } => {
            "Non-positive duration at frame "@ + decimal_digits(index) + " time '"@ + time + "'"@
        },
    }
}

/// What `decimal_digits` writes is a run of digits that reads back as the
/// number it was written from.
pub proof fn lemma_decimal_digits_read_back(n: nat)
    ensures
        decimal_digits(n).len() > 0,
        all_digits(decimal_digits(n)),
        decimal(decimal_digits(n)) == n,
    decreases n,
{
    if n < 10 {
        let s = decimal_digits(n);
        assert(s.len() == 1 && s[0] == digit_char(n));
        assert(s.drop_last() =~= Seq::<char>::empty());
        assert(decimal(s.drop_last()) == 0);
        assert(digit_value(s.last()) == n);
    } else {
        lemma_decimal_digits_read_back(n / 10);
        let front = decimal_digits(n / 10);
        let s = decimal_digits(n);
        assert(s.drop_last() =~= front);
        assert(s.last() == digit_char(n % 10));
        assert(digit_value(s.last()) == n % 10);
        assert forall|i: int| 0 <= i < s.len() implies is_digit(#[trigger] s[i]) by {
            if i < front.len() {
                assert(s[i] == front[i]);
            }
        }
    }
}

/// The digit `d` as text.
fn digit_text(d: usize) -> (text: &'static str)
    requires
        d < 10,
    ensures
        text@ == seq![digit_char(d as nat)],
{
    proof {
        reveal_strlit("0");
        reveal_strlit("1");
        reveal_strlit("2");
        reveal_strlit("3");
        reveal_strlit("4");
        reveal_strlit("5");
        reveal_strlit("6");
        reveal_strlit("7");
        reveal_strlit("8");
        reveal_strlit("9");
    }
    let text = match d {
        0 => "0",
        1 => "1",
        2 => "2",
        3 => "3",
        4 => "4",
        5 => "5",
        6 => "6",
        7 => "7",
        8 => "8",
        _ => "9",
    };
    assert(text@ =~= seq![digit_char(d as nat)]);
    text
}

/// `n` written in base ten.
pub fn decimal_text(n: usize) -> (text: String)
    ensures
        text@ == decimal_digits(n as nat),
    decreases n,
{
    if n < 10 {
        String::from_str(digit_text(n))
    } else {
        let mut text = decimal_text(n / 10);
        text.append(digit_text(n % 10));
        assert(text@ =~= decimal_digits(n as nat));
        text
    }
}

impl TimelineError {
    /// The text of the refusal: what was wrong, and where.
    pub fn message(&self) -> (text: String)
        ensures
            text@ == message_spec(self@),
    {
        match self {
            TimelineError::Source { cause } => {
                String::from_str("Reading timeline file: ").concat(cause.as_str())
            },
            TimelineError::Decode { cause } => {
                String::from_str("Parsing YAML timeline: ").concat(cause.as_str())
            },
            TimelineError::EmptyTitle => String::from_str("Timeline has no title"),
            TimelineError::NoFrames => String::from_str("Timeline has no frames"),
            TimelineError::IndexMismatch { position, index } => {
                let mut text = String::from_str("Frame index mismatch at position ");
                text.append(decimal_text(*position).as_str());
                text.append(": got ");
                text.append(decimal_text(*index).as_str());
                text
            },
            TimelineError::NonPositiveDuration { index, time } => {
                let mut text = String::from_str("Non-positive duration at frame ");
                text.append(decimal_text(*index).as_str());
                text.append(" time '");
                text.append(time.as_str());
                text.append("'");
                text
            },
        }
    }
}

} // verus!
