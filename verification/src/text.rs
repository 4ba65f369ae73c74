//! Text that the messages are made of: numbers in decimal, and parts of keys
//! and paths.

use vstd::prelude::*;

verus! {

/// The character that stands for the digit `d`.
pub open spec fn digit_char(d: int) -> char
    recommends
        0 <= d < 10,
{
    if d == 0 {
        '0'
    } else if d == 1 {
        '1'
    } else if d == 2 {
        '2'
    } else if d == 3 {
        '3'
    } else if d == 4 {
        '4'
    } else if d == 5 {
        '5'
    } else if d == 6 {
        '6'
    } else if d == 7 {
        '7'
    } else if d == 8 {
        '8'
    } else {
        '9'
    }
}

/// The number `n` in decimal, without leading zeros.
pub open spec fn decimal_text(n: nat) -> Seq<char>
    decreases n,
{
    if n < 10 {
        seq![digit_char(n as int)]
    } else {
        decimal_text(n / 10).push(digit_char((n % 10) as int))
    }
}

/// The number `n` in decimal, with a minus sign before a negative one.
pub open spec fn signed_decimal_text(n: int) -> Seq<char> {
    if n < 0 {
        seq!['-'] + decimal_text((-n) as nat)
    } else {
        decimal_text(n as nat)
    }
}

/// The text of one digit.
fn digit_str(d: u64) -> (text: &'static str)
    requires
        d < 10,
    ensures
        text@ == seq![digit_char(d as int)],
{
    proof {
        reveal_strlit("0");
        reveal_strlit("1");
        reveal_strlit("2");
        reveal_strlit("3");
        reveal_strlit("4");
        reveal_strlit("5");
        reveal_strlit("6");
        reveal_strlit("7");
        reveal_strlit("8");
        reveal_strlit("9");
    }
    let text = if d == 0 {
        "0"
    } else if d == 1 {
        "1"
    } else if d == 2 {
        "2"
    } else if d == 3 {
        "3"
    } else if d == 4 {
        "4"
    } else if d == 5 {
        "5"
    } else if d == 6 {
        "6"
    } else if d == 7 {
        "7"
    } else if d == 8 {
        "8"
    } else {
        "9"
    };
    assert(text@ =~= seq![digit_char(d as int)]);
    text
}

/// Writes `n` in decimal.
pub fn decimal(n: u64) -> (text: String)
    ensures
        text@ == decimal_text(n as nat),
    decreases n,
{
    if n < 10 {
        String::from_str(digit_str(n))
    } else {
        let mut text = decimal(n / 10);
        text.append(digit_str(n % 10));
        assert(text@ =~= decimal_text(n as nat));
        text
    }
}

/// Writes `n` in decimal, with a minus sign before a negative number.
pub fn signed_decimal(n: i64) -> (text: String)
    ensures
        text@ == signed_decimal_text(n as int),
{
    if n < 0 {
        let magnitude: u64 = (-(n + 1)) as u64 + 1;
        let mut text = String::from_str("-");
        proof {
            reveal_strlit("-");
        }
        let digits = decimal(magnitude);
        text.append(digits.as_str());
        assert(text@ =~= signed_decimal_text(n as int));
        text
    } else {
        decimal(n as u64)
    }
}

/// The place of the last `/` in `text`, or `-1` where it has none.
pub open spec fn last_slash(text: Seq<char>) -> int
    decreases text.len(),
{
    if text.len() == 0 {
        -1
    } else if text.last() == '/' {
        text.len() - 1
    } else {
        last_slash(text.drop_last())
    }
}

/// What follows the last `/` of `text`: the whole text where it has none.
pub open spec fn last_segment(text: Seq<char>) -> Seq<char> {
    text.skip(last_slash(text) + 1)
}

/// The last `/` of a text is a `/`, and none follows it.
pub proof fn lemma_last_slash(text: Seq<char>)
    ensures
        -1 <= last_slash(text) < text.len(),
        last_slash(text) >= 0 ==> text[last_slash(text)] == '/',
        forall|i: int| last_slash(text) < i < text.len() ==> #[trigger] text[i] != '/',
    decreases text.len(),
{
    if text.len() > 0 && text.last() != '/' {
        lemma_last_slash(text.drop_last());
        assert forall|i: int| last_slash(text) < i < text.len() implies #[trigger] text[i]
            != '/' by {
            if i < text.len() - 1 {
                assert(text.drop_last()[i] == text[i]);
            }
        }
    }
}

/// No `/` stands in the last segment of a text, and the text is what stands
/// before the segment followed by the segment.
pub proof fn lemma_last_segment(text: Seq<char>)
    ensures
        forall|i: int| 0 <= i < last_segment(text).len() ==> #[trigger] last_segment(text)[i] != '/',
        text == text.take(last_slash(text) + 1) + last_segment(text),
        last_slash(text) == -1 ==> last_segment(text) == text,
{
    lemma_last_slash(text);
    let cut = last_slash(text) + 1;
    assert forall|i: int| 0 <= i < last_segment(text).len() implies #[trigger] last_segment(
        text,
    )[i] != '/' by {
        assert(last_segment(text)[i] == text[cut + i]);
    }
    assert(text =~= text.take(cut) + last_segment(text));
    if cut == 0 {
        assert(text.skip(0) =~= text);
    }
}

/// What follows the last `/` of `text`.
pub fn last_segment_of(text: &str) -> (segment: String)
    ensures
        segment@ == last_segment(text@),
{
    let length = text.unicode_len();
    let mut start: usize = 0;
    let mut i: usize = 0;
    assert(text@.take(0) =~= Seq::<char>::empty());
    while i < length
        invariant
            length == text@.len(),
            i <= length,
            start == last_slash(text@.take(i as int)) + 1,
            start <= i,
        decreases length - i,
    {
        let c = text.get_char(i);
        proof {
            let longer = text@.take(i + 1);
            assert(longer.drop_last() =~= text@.take(i as int));
            assert(longer.last() == c);
        }
        i += 1;
        if c == '/' {
            start = i;
        }
    }
    assert(text@.take(length as int) =~= text@);
    String::from_str(text.substring_char(start, length))
}

/// `text` with every backslash turned into a `/`.
pub open spec fn with_forward_slashes(text: Seq<char>) -> Seq<char> {
    text.map_values(
        |c: char|
            if c == '\\' {
                '/'
            } else {
                c
            },
    )
}

/// Turns every backslash of `text` into a `/`.
pub fn forward_slashes(text: &str) -> (turned: String)
    ensures
        turned@ == with_forward_slashes(text@),
{
    let length = text.unicode_len();
    let mut turned = String::new();
    let mut i: usize = 0;
    proof {
        reveal_strlit("/");
    }
    while i < length
        invariant
            length == text@.len(),
            i <= length,
            turned@ == with_forward_slashes(text@.take(i as int)),
            "/"@ == seq!['/'],
        decreases length - i,
    {
        let c = text.get_char(i);
        if c == '\\' {
            turned.append("/");
        } else {
            turned.append(text.substring_char(i, i + 1));
        }
        assert(turned@ =~= with_forward_slashes(text@.take(i + 1)));
        i += 1;
    }
    assert(text@.take(length as int) =~= text@);
    turned
}

} // verus!
