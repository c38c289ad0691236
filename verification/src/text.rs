//! Small verified helpers for building and reading ASCII text: decimal
//! digits of unsigned integers and comparisons against fixed words.
use vstd::prelude::*;
use vstd::string::*;

verus! {

/// Whether `c` is one of `0` to `9`.
pub open spec fn is_digit(c: char) -> bool {
    48 <= c as u32 <= 57
}

/// The digit character for `d`, which is meant to be below ten.
pub open spec fn digit_char(d: nat) -> char {
    if d == 0 {
        '0'
    } else if d == 1 {
        '1'
    } else if d == 2 {
        '2'
    } else if d == 3 {
        '3'
    } else if d == 4 {
        '4'
    } else if d == 5 {
        '5'
    } else if d == 6 {
        '6'
    } else if d == 7 {
        '7'
    } else if d == 8 {
        '8'
    } else {
        '9'
    }
}

/// The decimal notation of `n`, without sign or leading zeros.
pub open spec fn decimal_digits(n: nat) -> Seq<char>
    decreases n,
{
    if n < 10 {
        seq![digit_char(n)]
    } else {
        decimal_digits(n / 10).push(digit_char(n % 10))
    }
}

/// The number that a run of digits denotes; leading zeros are allowed and the
/// empty run denotes zero.
pub open spec fn digits_value(s: Seq<char>) -> nat
    decreases s.len(),
{
    if s.len() == 0 {
        0
    } else {
        digits_value(s.drop_last()) * 10 + ((s.last() as u32 - 48) as nat)
    }
}

/// Whether every character of `s` is a digit.
pub open spec fn all_digits(s: Seq<char>) -> bool {
    forall|i: int| 0 <= i < s.len() ==> is_digit(#[trigger] s[i])
}

/// The end of the longest run of digits of `s` that starts at `from`.
pub open spec fn digit_run_end(s: Seq<char>, from: int) -> int
    decreases s.len() - from,
{
    if 0 <= from < s.len() && is_digit(s[from]) {
        digit_run_end(s, from + 1)
    } else {
        from
    }
}

/// The digits of a number are digits, at least one of them, and denote it.
pub proof fn lemma_decimal_digits(n: nat)
    ensures
        decimal_digits(n).len() >= 1,
        all_digits(decimal_digits(n)),
        digits_value(decimal_digits(n)) == n,
    decreases n,
{
    if n < 10 {
        let s = decimal_digits(n);
        assert(s.drop_last() =~= Seq::<char>::empty());
        assert(digits_value(s.drop_last()) == 0);
    } else {
        lemma_decimal_digits(n / 10);
        let p = decimal_digits(n / 10);
        let s = decimal_digits(n);
        assert(s.drop_last() =~= p);
        assert(s.last() == digit_char(n % 10));
        assert forall|i: int| 0 <= i < s.len() implies is_digit(#[trigger] s[i]) by {
            if i < p.len() {
                assert(s[i] == p[i]);
            }
        }
    }
}

/// A run of digits that is followed by a character that is no digit, or by
/// the end of the text, is the longest run from its start.
pub proof fn lemma_digit_run(s: Seq<char>, from: int, end: int)
    requires
        0 <= from <= end <= s.len(),
        forall|i: int| from <= i < end ==> is_digit(#[trigger] s[i]),
        end == s.len() || !is_digit(s[end]),
    ensures
        digit_run_end(s, from) == end,
    decreases end - from,
{
    if from < end {
        lemma_digit_run(s, from + 1, end);
    }
}

/// The one-character text of a digit.
fn digit_str(d: u64) -> (s: &'static str)
    requires
        d < 10,
    ensures
        s@ == seq![digit_char(d as nat)],
{
    proof {
        reveal_strlit("0");
        reveal_strlit("1");
        reveal_strlit("2");
        reveal_strlit("3");
        reveal_strlit("4");
        reveal_strlit("5");
        reveal_strlit("6");
        reveal_strlit("7");
        reveal_strlit("8");
        reveal_strlit("9");
    }
    let s = if d == 0 {
        "0"
    } else if d == 1 {
        "1"
    } else if d == 2 {
        "2"
    } else if d == 3 {
        "3"
    } else if d == 4 {
        "4"
    } else if d == 5 {
        "5"
    } else if d == 6 {
        "6"
    } else if d == 7 {
        "7"
    } else if d == 8 {
        "8"
    } else {
        "9"
    };
    assert(s@ =~= seq![digit_char(d as nat)]);
    s
}

/// Appends the decimal notation of `n` to `out`.
pub fn append_u64(out: &mut String, n: u64)
    ensures
        final(out)@ == old(out)@ + decimal_digits(n as nat),
    decreases n,
{
    if n < 10 {
        out.append(digit_str(n));
    } else {
        append_u64(out, n / 10);
        out.append(digit_str(n % 10));
        assert(old(out)@ + decimal_digits((n / 10) as nat) + seq![digit_char((n % 10) as nat)]
            =~= old(out)@ + decimal_digits(n as nat));
    }
}

/// The decimal notation of `n`.
pub fn u64_to_string(n: u64) -> (s: String)
    ensures
        s@ == decimal_digits(n as nat),
{
    let mut s = String::new();
    append_u64(&mut s, n);
    assert(Seq::<char>::empty() + decimal_digits(n as nat) =~= decimal_digits(n as nat));
    s
}

/// The characters of `s`, one by one.
pub fn to_chars(s: &str) -> (v: Vec<char>)
    ensures
        v@ == s@,
{
    let n = s.unicode_len();
    let mut v: Vec<char> = Vec::new();
    let mut i: usize = 0;
    while i < n
        invariant
            i <= n,
            n == s@.len(),
            v@ == s@.subrange(0, i as int),
        decreases n - i,
    {
        v.push(s.get_char(i));
        assert(s@.subrange(0, i as int).push(s@[i as int]) =~= s@.subrange(0, i + 1));
        i += 1;
    }
    assert(s@.subrange(0, n as int) =~= s@);
    v
}

/// Whether the word `word` stands in `text` at position `start`.
pub fn word_at(text: &Vec<char>, start: usize, word: &str) -> (b: bool)
    ensures
        b == (start + word@.len() <= text@.len() && text@.subrange(
            start as int,
            start + word@.len(),
        ) == word@),
{
    let n = word.unicode_len();
    if start > text.len() || n > text.len() - start {
        return false;
    }
    let mut i: usize = 0;
    while i < n
        invariant
            i <= n,
            n == word@.len(),
            start + n <= text.len(),
            text@.subrange(start as int, start + i) == word@.subrange(0, i as int),
        decreases n - i,
    {
        if text[start + i] != word.get_char(i) {
            proof {
                let sub = text@.subrange(start as int, start + n);
                assert(sub[i as int] == text@[start + i]);
            }
            return false;
        }
        assert(text@.subrange(start as int, start + i).push(text@[start + i]) =~= text@.subrange(
            start as int,
            start + i + 1,
        ));
        assert(word@.subrange(0, i as int).push(word@[i as int]) =~= word@.subrange(0, i + 1));
        i += 1;
    }
    assert(word@.subrange(0, n as int) =~= word@);
    true
}

/// Whether `text` is exactly the word `word`.
pub fn is_word(text: &Vec<char>, word: &str) -> (b: bool)
    ensures
        b == (text@ == word@),
{
    let n = word.unicode_len();
    if text.len() != n {
        return false;
    }
    let b = word_at(text, 0, word);
    assert(text@.subrange(0, text@.len() as int) =~= text@);
    b
}

/// Reads the longest run of digits of `text` from `from`. Gives the end of
/// the run and the number it denotes, or no number when that is above
/// `limit`.
pub fn read_digits(text: &Vec<char>, from: usize, limit: u64) -> (r: (usize, Option<u64>))
    requires
        from <= text@.len(),
        limit <= 0x0fff_ffff_ffff_ffff,
    ensures
        r.0 == digit_run_end(text@, from as int),
        from <= r.0 <= text@.len(),
        r.1.is_some() == (digits_value(text@.subrange(from as int, r.0 as int)) <= limit),
        r.1 matches Some(v) ==> v == digits_value(text@.subrange(from as int, r.0 as int)),
{
    let mut pos: usize = from;
    let mut value: u64 = 0;
    let mut fits = true;
    proof {
        assert(text@.subrange(from as int, from as int) =~= Seq::<char>::empty());
    }
    while pos < text.len() && is_digit_char(text[pos])
        invariant
            from <= pos <= text@.len(),
            limit <= 0x0fff_ffff_ffff_ffff,
            forall|i: int| from <= i < pos ==> is_digit(#[trigger] text@[i]),
            fits ==> value == digits_value(text@.subrange(from as int, pos as int)),
            fits ==> value <= limit,
            !fits ==> digits_value(text@.subrange(from as int, pos as int)) > limit,
        decreases text@.len() - pos,
    {
        let d: u64 = digit_of(text[pos]);
        proof {
            let next = text@.subrange(from as int, pos + 1);
            assert(next.drop_last() =~= text@.subrange(from as int, pos as int));
            assert(next.last() == text@[pos as int]);
        }
        if fits {
            let next: u64 = value * 10 + d;
            if next > limit {
                fits = false;
            } else {
                value = next;
            }
        }
        pos += 1;
    }
    proof {
        lemma_digit_run(text@, from as int, pos as int);
    }
    if fits {
        (pos, Some(value))
    } else {
        (pos, None)
    }
}

/// Whether `c` is a digit.
pub fn is_digit_char(c: char) -> (b: bool)
    ensures
        b == is_digit(c),
{
    let code: u32 = c as u32;
    48 <= code && code <= 57
}

/// The value of the digit `c`.
pub fn digit_of(c: char) -> (d: u64)
    requires
        is_digit(c),
    ensures
        d == c as u32 - 48,
        d < 10,
{
    let code: u32 = c as u32;
    (code - 48) as u64
}

} // verus!
