//! Text helpers: decimal numbers, prefixes, trailing characters.

use vstd::prelude::*;
use vstd::string::*;

verus! {

/// The characters of an optional string.
pub open spec fn opt_text(o: Option<String>) -> Option<Seq<char>> {
    match o {
        Some(s) => Some(s@),
        None => None,
    }
}

/// The characters of each string of a list.
pub open spec fn texts(list: Seq<String>) -> Seq<Seq<char>> {
    list.map_values(|s: String| s@)
}

/// The decimal digit of a number below ten.
pub open spec fn digit(d: int) -> char {
    ('0' as int + d) as char
}

/// A natural number in decimal, without leading zeros.
pub open spec fn decimal(n: nat) -> Seq<char>
    decreases n,
{
    if n < 10 {
        seq![digit(n as int)]
    } else {
        decimal(n / 10).push(digit((n % 10) as int))
    }
}

/// `text` without `prefix` at its front, where it starts with it.
pub open spec fn after_prefix(text: Seq<char>, prefix: Seq<char>) -> Option<Seq<char>> {
    if prefix.is_prefix_of(text) {
        Some(text.skip(prefix.len() as int))
    } else {
        None
    }
}

/// `text` without the run of `c` at its end.
pub open spec fn without_trailing(text: Seq<char>, c: char) -> Seq<char>
    decreases text.len(),
{
    if text.len() > 0 && text.last() == c {
        without_trailing(text.drop_last(), c)
    } else {
        text
    }
}

fn digit_text(d: u64) -> (text: &'static str)
    requires
        d < 10,
    ensures
        text@ == seq![digit(d as int)],
{
    proof {
        reveal_strlit("0");
        reveal_strlit("1");
        reveal_strlit("2");
        reveal_strlit("3");
        reveal_strlit("4");
        reveal_strlit("5");
        reveal_strlit("6");
        reveal_strlit("7");
        reveal_strlit("8");
        reveal_strlit("9");
    }
    if d == 0 {
        "0"
    } else if d == 1 {
        "1"
    } else if d == 2 {
        "2"
    } else if d == 3 {
        "3"
    } else if d == 4 {
        "4"
    } else if d == 5 {
        "5"
    } else if d == 6 {
        "6"
    } else if d == 7 {
        "7"
    } else if d == 8 {
        "8"
    } else {
        "9"
    }
}

/// Writes a number in decimal at the end of `out`.
pub fn append_decimal(out: &mut String, n: u64)
    ensures
        final(out)@ == old(out)@ + decimal(n as nat),
    decreases n,
{
    let ghost before = out@;
    if n >= 10 {
        append_decimal(out, n / 10);
        out.append(digit_text(n % 10));
        assert(out@ =~= before + decimal(n as nat));
    } else {
        out.append(digit_text(n));
    }
}

/// Joins two texts.
pub fn join(first: &str, second: &str) -> (text: String)
    ensures
        text@ == first@ + second@,
{
    let mut text = first.to_owned();
    text.append(second);
    text
}

/// The rest of `text` behind `prefix`, or nothing where `text` starts otherwise.
pub fn strip_prefix(text: &str, prefix: &str) -> (rest: Option<String>)
    ensures
        opt_text(rest) == after_prefix(text@, prefix@),
{
    let total: usize = text.unicode_len();
    let len: usize = prefix.unicode_len();
    if total < len {
        return None;
    }
    let mut i: usize = 0;
    while i < len
        invariant
            i <= len <= total,
            total == text@.len(),
            len == prefix@.len(),
            forall|k: int| 0 <= k < i ==> text@[k] == prefix@[k],
        decreases len - i,
    {
        if text.get_char(i) != prefix.get_char(i) {
            assert(text@.subrange(0, len as int)[i as int] != prefix@[i as int]);
            return None;
        }
        i = i + 1;
    }
    assert(prefix@ =~= text@.subrange(0, len as int));
    Some(text.substring_char(len, total).to_owned())
}

/// `text` without the characters `c` at its end.
pub fn trim_trailing<'a>(text: &'a str, c: char) -> (rest: &'a str)
    ensures
        rest@ == without_trailing(text@, c),
{
    let mut end: usize = text.unicode_len();
    assert(text@.take(end as int) =~= text@);
    while end > 0 && text.get_char(end - 1) == c
        invariant
            end <= text@.len(),
            without_trailing(text@, c) == without_trailing(text@.take(end as int), c),
        decreases end,
    {
        assert(text@.take(end as int).drop_last() =~= text@.take(end - 1));
        end = end - 1;
    }
    assert(text@.take(end as int) =~= text@.subrange(0, end as int));
    text.substring_char(0, end)
}

/// Whether two optional texts are the same.
pub fn same_text(a: &Option<String>, b: &Option<String>) -> (same: bool)
    ensures
        same == (opt_text(*a) == opt_text(*b)),
{
    match (a, b) {
        (Some(x), Some(y)) => *x == *y,
        (None, None) => true,
        _ => false,
    }
}

proof fn decimal_reads_back(n: nat)
    ensures
        decimal(n).len() > 0,
        decimal(n).fold_left(0int, |value: int, c: char| value * 10 + (c as int - 48)) == n,
        forall|i: int| 0 <= i < decimal(n).len() ==> '0' <= #[trigger] decimal(n)[i] <= '9',
        decimal(n)[0] == '0' ==> n == 0 && decimal(n).len() == 1,
    decreases n,
{
    let read = |value: int, c: char| value * 10 + (c as int - 48);
    if n >= 10 {
        decimal_reads_back(n / 10);
        let front = decimal(n / 10);
        assert(decimal(n).drop_last() =~= front);
        assert(decimal(n)[0] == front[0]);
        assert(decimal(n).fold_left(0int, read) == read(front.fold_left(0int, read), decimal(n).last()));
    } else {
        assert(decimal(n).drop_last() =~= Seq::empty());
        assert(decimal(n).drop_last().fold_left(0int, read) == 0);
        assert(decimal(n).fold_left(0int, read) == read(0, decimal(n).last()));
    }
}

/// What is written for a number are decimal digits from which the number is read back. The
/// first of them is no zero, but for the number zero, and what stood there before stays.
pub proof fn written_number_is_read_back(out: &mut String, n: u64)
    requires
        call_ensures(append_decimal, (out, n), ()),
    ensures
        old(out)@.is_prefix_of(final(out)@),
        ({
            let digits = final(out)@.skip(old(out)@.len() as int);
            &&& digits.len() > 0
            &&& forall|i: int| 0 <= i < digits.len() ==> '0' <= #[trigger] digits[i] <= '9'
            &&& digits[0] == '0' ==> n == 0 && digits.len() == 1
            &&& digits.fold_left(0int, |value: int, c: char| value * 10 + (c as int - 48)) == n
        }),
{
    decimal_reads_back(n as nat);
    assert(final(out)@.skip(old(out)@.len() as int) =~= decimal(n as nat));
}

/// Two texts are joined without a character lost, added or moved.
pub proof fn joined_texts_stay(first: &str, second: &str, text: String)
    requires
        call_ensures(join, (first, second), text),
    ensures
        text@.len() == first@.len() + second@.len(),
        forall|i: int| 0 <= i < first@.len() ==> text@[i] == #[trigger] first@[i],
        forall|i: int|
            0 <= i < second@.len() ==> text@[first@.len() + i] == #[trigger] second@[i],
{
}

/// What is left behind a prefix makes the text again with the prefix before it. Nothing is
/// left only where no text does.
pub proof fn prefix_is_put_back(text: &str, prefix: &str, rest: Option<String>)
    requires
        call_ensures(strip_prefix, (text, prefix), rest),
    ensures
        rest matches Some(r) ==> text@ == prefix@ + r@,
        rest is None ==> forall|tail: Seq<char>| text@ != #[trigger] (prefix@ + tail),
{
    match rest {
        Some(r) => {
            assert(text@ =~= prefix@ + r@);
        },
        None => {
            assert forall|tail: Seq<char>| text@ != #[trigger] (prefix@ + tail) by {
                if text@ == prefix@ + tail {
                    assert(prefix@ =~= text@.subrange(0, prefix@.len() as int));
                }
            }
        },
    }
}

proof fn only_the_run_is_dropped(text: Seq<char>, c: char)
    ensures
        without_trailing(text, c).is_prefix_of(text),
        forall|i: int|
            without_trailing(text, c).len() <= i < text.len() ==> #[trigger] text[i] == c,
        without_trailing(text, c).len() > 0 ==> without_trailing(text, c).last() != c,
    decreases text.len(),
{
    if text.len() > 0 && text.last() == c {
        let rest = text.drop_last();
        only_the_run_is_dropped(rest, c);
        assert forall|i: int| without_trailing(text, c).len() <= i < text.len() implies
            #[trigger] text[i] == c by {
            if i < rest.len() {
                assert(rest[i] == c);
            }
        }
    }
}

/// Trimming drops only the run of a character at the end of a text, and all of it.
pub proof fn trimming_drops_the_run(text: &str, c: char, rest: &str)
    requires
        call_ensures(trim_trailing, (text, c), rest),
    ensures
        rest@.is_prefix_of(text@),
        forall|i: int| rest@.len() <= i < text@.len() ==> #[trigger] text@[i] == c,
        rest@.len() > 0 ==> rest@.last() != c,
{
    only_the_run_is_dropped(text@, c);
}

/// Two optional texts are the same if both are missing, or both are there with the same
/// characters.
pub proof fn same_texts_have_the_same_characters(a: Option<String>, b: Option<String>, same: bool)
    requires
        call_ensures(same_text, (&a, &b), same),
    ensures
        same <==> match (a, b) {
            (Some(x), Some(y)) => x@ == y@,
            (None, None) => true,
            _ => false,
        },
{
}

} // verus!
