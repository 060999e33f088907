//! Decimal notation for lengths and byte offsets: reading a number out of
//! the metadata text and writing one into a range request.

use vstd::prelude::*;
use vstd::string::*;

verus! {

/// Every character of `text` is one of the digits `0`..`9`.
pub open spec fn all_digits(text: Seq<char>) -> bool {
    forall|i: int| 0 <= i < text.len() ==> '0' <= #[trigger] text[i] && text[i] <= '9'
}

/// `text` is a non-empty run of the digits `0`..`9`.
pub open spec fn is_decimal(text: Seq<char>) -> bool {
    text.len() > 0 && all_digits(text)
}

/// The number that a run of decimal digits writes.
pub open spec fn decimal_value(text: Seq<char>) -> nat
    decreases text.len(),
{
    if text.len() == 0 {
        0
    } else {
        (decimal_value(text.drop_last()) * 10 + (text.last() as u8 - 48)) as nat
    }
}

/// The decimal digit for a value below ten.
pub open spec fn digit_char(d: nat) -> char {
    ((48 + d) as u8) as char
}

/// The decimal notation of `n`, without leading zeros.
pub open spec fn decimal_text(n: nat) -> Seq<char>
    decreases n,
{
    if n < 10 {
        seq![digit_char(n)]
    } else {
        decimal_text(n / 10).push(digit_char(n % 10))
    }
}

/// A longer run of digits writes no smaller a number than its front part.
pub proof fn decimal_value_grows(text: Seq<char>, k: int)
    requires
        0 <= k <= text.len(),
        all_digits(text),
    ensures
        decimal_value(text.take(k)) <= decimal_value(text),
    decreases text.len() - k,
{
    if k == text.len() {
        assert(text.take(k) =~= text);
    } else {
        let front = text.drop_last();
        assert(all_digits(front)) by {
            assert forall|i: int| 0 <= i < front.len() implies '0' <= #[trigger] front[i] && front[i]
                <= '9' by {
                assert(front[i] == text[i]);
            }
        }
        decimal_value_grows(front, k);
        assert(front.take(k) =~= text.take(k));
        assert('0' <= text[text.len() - 1] && text[text.len() - 1] <= '9');
        assert(decimal_value(text) == decimal_value(front) * 10 + (text.last() as u8 - 48));
    }
}

/// Reads `text` as a decimal number.
///
/// Returns the number exactly when `text` is a non-empty run of digits whose
/// value fits a `usize`.
pub fn parse_decimal(text: &str) -> (value: Option<usize>)
    ensures
        value.is_some() <==> is_decimal(text@) && decimal_value(text@) <= usize::MAX,
        value.is_some() ==> value.unwrap() == decimal_value(text@),
{
    let n: usize = text.unicode_len();
    if n == 0 {
        return None;
    }
    let mut acc: usize = 0;
    let mut i: usize = 0;
    proof {
        assert(text@.take(0) =~= Seq::<char>::empty());
    }
    while i < n
        invariant
            n == text@.len(),
            i <= n,
            forall|j: int| 0 <= j < i ==> '0' <= #[trigger] text@[j] && text@[j] <= '9',
            acc == decimal_value(text@.take(i as int)),
        decreases n - i,
    {
        let c: char = text.get_char(i);
        if !(c >= '0' && c <= '9') {
            return None;
        }
        let d: usize = (c as u8 - 48u8) as usize;
        proof {
            let next = text@.take(i + 1);
            assert(next.drop_last() =~= text@.take(i as int));
            assert(next.last() == c);
            assert(decimal_value(next) == acc * 10 + d);
            if all_digits(text@) {
                decimal_value_grows(text@, i + 1);
            }
        }
        let scaled: usize = match acc.checked_mul(10) {
            Some(v) => v,
            None => { return None; },
        };
        acc = match scaled.checked_add(d) {
            Some(v) => v,
            None => { return None; },
        };
        i = i + 1;
    }
    proof {
        assert(text@.take(n as int) =~= text@);
    }
    Some(acc)
}

/// The one-character text of a decimal digit.
fn digit_text(d: usize) -> (text: &'static str)
    requires
        d < 10,
    ensures
        text@.len() == 1,
        text@[0] == digit_char(d as nat),
{
    proof {
        reveal_strlit("0");
        reveal_strlit("1");
        reveal_strlit("2");
        reveal_strlit("3");
        reveal_strlit("4");
        reveal_strlit("5");
        reveal_strlit("6");
        reveal_strlit("7");
        reveal_strlit("8");
        reveal_strlit("9");
    }
    match d {
        0 => "0",
        1 => "1",
        2 => "2",
        3 => "3",
        4 => "4",
        5 => "5",
        6 => "6",
        7 => "7",
        8 => "8",
        _ => "9",
    }
}

/// Writes `n` in decimal notation, without leading zeros.
pub fn decimal_string(n: usize) -> (text: String)
    ensures
        text@ == decimal_text(n as nat),
    decreases n,
{
    if n < 10 {
        let text = String::from_str(digit_text(n));
        assert(text@ =~= decimal_text(n as nat));
        text
    } else {
        let mut text = decimal_string(n / 10);
        text.append(digit_text(n % 10));
        assert(text@ =~= decimal_text(n as nat));
        text
    }
}

/// What is written for a number reads back as that number.
pub proof fn decimal_round_trip(n: nat)
    ensures
        is_decimal(decimal_text(n)),
        decimal_value(decimal_text(n)) == n,
    decreases n,
{
    let text = decimal_text(n);
    if n < 10 {
        assert(text.drop_last() =~= Seq::<char>::empty());
        assert(decimal_value(text.drop_last()) == 0);
        assert(text.last() == digit_char(n));
    } else {
        decimal_round_trip(n / 10);
        assert(text.drop_last() =~= decimal_text(n / 10));
        assert(text.last() == digit_char(n % 10));
        assert forall|i: int| 0 <= i < text.len() implies '0' <= #[trigger] text[i] && text[i]
            <= '9' by {
            if i < text.len() - 1 {
                assert(text[i] == decimal_text(n / 10)[i]);
            }
        }
        assert(decimal_value(text) == decimal_value(decimal_text(n / 10)) * 10 + n % 10);
    }
}

} // verus!
