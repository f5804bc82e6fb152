//! What a batch run is told before it starts: the direction, and which input
//! files belong to it.

use vstd::prelude::*;
use vstd::string::{StrSliceExecFns, StringExecFns};
use crate::params::DEFAULT_EFFORT;

verus! {

/// The direction of a batch run.
#[derive(Clone, Copy, Debug, PartialEq, Eq, Structural)]
pub enum Mode {
    /// Ordinary images are compressed to JPEG XL.
    Compress,
    /// JPEG XL files are decoded to PNG.
    Decode,
}

/// Whether two strings hold the same characters.
fn same(a: &str, b: &str) -> (r: bool)
    ensures
        r == (a@ == b@),
{
    String::from_str(a) == String::from_str(b)
}

impl Mode {
    /// The mode that an answer selects: `d`, `decode` and `2` ask for
    /// decoding, anything else for compression.
    pub open spec fn selected_by(answer: Seq<char>) -> Mode {
        if answer == "d"@ || answer == "decode"@ || answer == "2"@ {
            Mode::Decode
        } else {
            Mode::Compress
        }
    }

    /// The extensions of the input files of a run: `png`, `jpg`, `jpeg` and
    /// `webp` to compress, `jxl` to decode.
    pub open spec fn input_extensions(self) -> Seq<Seq<char>> {
        match self {
            Mode::Compress => seq!["png"@, "jpg"@, "jpeg"@, "webp"@],
            Mode::Decode => seq!["jxl"@],
        }
    }

    /// Reads the mode off the user's answer, which is taken as it is:
    /// surrounding blanks and upper case are the caller's to remove.
    pub fn from_answer(answer: &str) -> (mode: Mode)
        ensures
            mode == Mode::selected_by(answer@),
    {
        if same(answer, "d") || same(answer, "decode") || same(answer, "2") {
            Mode::Decode
        } else {
            Mode::Compress
        }
    }

    /// The extensions to look for in the input directory, in the order in
    /// which they are searched.
    pub fn extensions(self) -> (list: Vec<&'static str>)
        ensures
            list@.len() == self.input_extensions().len(),
            forall|i: int| 0 <= i < list@.len() ==> (#[trigger] list@[i])@ == self.input_extensions()[i],
    {
        let mut list: Vec<&'static str> = Vec::new();
        match self {
            Mode::Compress => {
                list.push("png");
                list.push("jpg");
                list.push("jpeg");
                list.push("webp");
            },
            Mode::Decode => {
                list.push("jxl");
            },
        }
        list
    }
}

/// Whether an answer asks for lossy compression: an empty one does, being the
/// default, and so does `y`.
pub open spec fn asks_lossy(answer: Seq<char>) -> bool {
    answer.len() == 0 || answer == "y"@
}

/// Reads the choice between lossy and lossless off the user's answer, which
/// is taken as it is.
pub fn lossy_from_answer(answer: &str) -> (lossy: bool)
    ensures
        lossy == asks_lossy(answer@),
{
    proof {
        reveal_strlit("");
        assert(answer@.len() == 0 <==> answer@ =~= ""@);
    }
    same(answer, "") || same(answer, "y")
}


/// Whether a character is one of the ten decimal digits.
pub open spec fn is_digit(c: char) -> bool {
    48 <= c as u32 <= 57
}

/// The number that a decimal digit stands for.
pub open spec fn digit_value(c: char) -> nat {
    (c as u32 - 48) as nat
}

/// The number that a sequence of decimal digits writes; leading zeros do not
/// count.
pub open spec fn decimal_value(digits: Seq<char>) -> nat
    decreases digits.len(),
{
    if digits.len() == 0 {
        0
    } else {
        10 * decimal_value(digits.drop_last()) + digit_value(digits.last())
    }
}

/// Whether a text is one decimal digit or more and nothing else.
pub open spec fn is_decimal(digits: Seq<char>) -> bool {
    digits.len() > 0 && forall|i: int| 0 <= i < digits.len() ==> is_digit(#[trigger] digits[i])
}

/// A text without the plus sign that it may begin with.
pub open spec fn unsigned_part(answer: Seq<char>) -> Seq<char> {
    if answer.len() > 0 && answer[0] == '+' {
        answer.subrange(1, answer.len() as int)
    } else {
        answer
    }
}

/// The effort that an answer gives: none for an empty answer, the number for
/// one that writes a number from 1 to 10 in decimal digits, with or without a
/// plus sign before it, and the default for every other answer, be it a
/// number outside that range, a negative one or no number at all.
pub open spec fn answered_effort(answer: Seq<char>) -> Option<u8> {
    if answer.len() == 0 {
        None
    } else if is_decimal(unsigned_part(answer)) && 1 <= decimal_value(unsigned_part(answer)) <= 10 {
        Some(decimal_value(unsigned_part(answer)) as u8)
    } else {
        Some(DEFAULT_EFFORT)
    }
}

/// Reads the effort off the user's answer, which is taken as it is. Every
/// answer has an effort or none; no answer is an error.
pub fn effort_from_answer(answer: &str) -> (effort: Option<u8>)
    ensures
        effort == answered_effort(answer@),
        effort matches Some(e) ==> 1 <= e <= 10,
{
    let n: usize = answer.unicode_len();
    if n == 0 {
        return None;
    }
    let start: usize = if answer.get_char(0) == '+' {
        1
    } else {
        0
    };
    let ghost digits = unsigned_part(answer@);
    assert(digits == answer@.subrange(start as int, n as int));
    if start == n {
        return Some(DEFAULT_EFFORT);
    }
    // The number read so far, kept at 11 once it is beyond 10.
    let mut value: u8 = 0;
    let mut i: usize = start;
    assert(answer@.subrange(start as int, start as int) =~= Seq::<char>::empty());
    while i < n
        invariant
            start <= i <= n,
            n == answer@.len(),
            digits == answer@.subrange(start as int, n as int),
            digits == unsigned_part(answer@),
            forall|j: int| start <= j < i ==> is_digit(#[trigger] answer@[j]),
            value <= 11,
            value < 11 ==> value == decimal_value(answer@.subrange(start as int, i as int)),
            value == 11 ==> decimal_value(answer@.subrange(start as int, i as int)) >= 11,
        decreases n - i,
    {
        let c: char = answer.get_char(i);
        let code: u32 = c as u32;
        if code < 48 || code > 57 {
            assert(!is_digit(digits[i - start]));
            return Some(DEFAULT_EFFORT);
        }
        let digit: u8 = (code - 48) as u8;
        proof {
            let read = answer@.subrange(start as int, i as int + 1);
            assert(read.drop_last() =~= answer@.subrange(start as int, i as int));
            assert(read.last() == c);
        }
        value = if value >= 11 {
            11
        } else if value * 10 + digit > 11 {
            11
        } else {
            value * 10 + digit
        };
        i += 1;
    }
    assert(answer@.subrange(start as int, i as int) == digits);
    assert(is_decimal(digits)) by {
        assert forall|k: int| 0 <= k < digits.len() implies is_digit(#[trigger] digits[k]) by {
            assert(digits[k] == answer@[k + start]);
        }
    }
    if 1 <= value && value <= 10 {
        Some(value)
    } else {
        Some(DEFAULT_EFFORT)
    }
}

/// An answer that writes a number outside 1 to 10, however large, gives the
/// default effort, and so does one that writes no number.
pub proof fn lemma_other_answers_give_default(answer: Seq<char>)
    requires
        answer.len() > 0,
        !(is_decimal(unsigned_part(answer)) && 1 <= decimal_value(unsigned_part(answer)) <= 10),
    ensures
        answered_effort(answer) == Some(DEFAULT_EFFORT),
{
}

} // verus!
