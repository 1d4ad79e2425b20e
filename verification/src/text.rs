//! Text: splitting, prefixes, lower-case hexadecimal and decimal.
use vstd::prelude::*;

verus! {

/// What an optional value shows of itself.
pub open spec fn maybe<T: View>(value: Option<T>) -> Option<T::V> {
    match value {
        Some(v) => Some(v@),
        None => None,
    }
}

/// What a map holds under a key.
pub open spec fn found<T>(m: Map<Seq<char>, T>, key: Seq<char>) -> Option<T> {
    if m.contains_key(key) {
        Some(m[key])
    } else {
        None
    }
}

/// What is left of `s` behind `prefix`; nothing where `s` does not begin with it.
pub open spec fn stripped(s: Seq<char>, prefix: Seq<char>) -> Option<Seq<char>> {
    if prefix.is_prefix_of(s) {
        Some(s.skip(prefix.len() as int))
    } else {
        None
    }
}

/// The parts of `s` between the separators. There is always at least one part.
pub open spec fn split_on(s: Seq<char>, separator: char) -> Seq<Seq<char>>
    decreases s.len(),
{
    if s.len() == 0 {
        seq![s]
    } else {
        let rest = split_on(s.drop_first(), separator);
        if s[0] == separator {
            seq![Seq::<char>::empty()] + rest
        } else {
            seq![seq![s[0]] + rest[0]] + rest.drop_first()
        }
    }
}

/// The texts of a list of string slices.
pub open spec fn texts(parts: Seq<&str>) -> Seq<Seq<char>> {
    parts.map_values(|part: &str| part@)
}

/// Text without the separator is one part.
pub proof fn lemma_split_whole(s: Seq<char>, separator: char)
    requires
        !s.contains(separator),
    ensures
        split_on(s, separator) == seq![s],
    decreases s.len(),
{
    if s.len() > 0 {
        let rest = s.drop_first();
        assert forall|i: int| 0 <= i < rest.len() implies rest[i] != separator by {
            assert(rest[i] == s[i + 1]);
        }
        lemma_split_whole(rest, separator);
        assert(s[0] != separator);
        assert(seq![s[0]] + rest =~= s);
        assert(split_on(s, separator) =~= seq![s]);
    }
}

/// The first separator ends the first part, and the rest is split the same way.
pub proof fn lemma_split_once(before: Seq<char>, separator: char, after: Seq<char>)
    requires
        !before.contains(separator),
    ensures
        split_on(before.push(separator) + after, separator) == seq![before] + split_on(
            after,
            separator,
        ),
    decreases before.len(),
{
    let s = before.push(separator) + after;
    if before.len() == 0 {
        assert(s[0] == separator);
        assert(s.drop_first() =~= after);
        assert(before =~= Seq::<char>::empty());
    } else {
        let tail = before.drop_first();
        assert forall|i: int| 0 <= i < tail.len() implies tail[i] != separator by {
            assert(tail[i] == before[i + 1]);
        }
        lemma_split_once(tail, separator, after);
        assert(s.drop_first() =~= tail.push(separator) + after);
        assert(s[0] == before[0] && before[0] != separator);
        let rest = split_on(s.drop_first(), separator);
        assert(rest =~= seq![tail] + split_on(after, separator));
        assert(seq![s[0]] + rest[0] =~= before);
        assert(rest.drop_first() =~= split_on(after, separator));
    }
}

/// Trusted: `str == str` of std. True exactly when both hold the same characters.
#[verifier::external_body]
pub(crate) fn same_text(a: &str, b: &str) -> (same: bool)
    ensures
        same == (a@ == b@),
{
    a == b
}

/// Trusted: `str::strip_prefix` of std with a string pattern. Removes the prefix where the
/// text begins with it, and gives nothing where it does not.
#[verifier::external_body]
pub(crate) fn strip_prefix<'a>(s: &'a str, prefix: &str) -> (rest: Option<&'a str>)
    ensures
        maybe(rest) == stripped(s@, prefix@),
{
    s.strip_prefix(prefix)
}

/// Trusted: `str::split_once` of std with a character pattern. Cuts the text at the first
/// occurrence of the separator, which belongs to neither half; gives nothing where there is none.
#[verifier::external_body]
pub(crate) fn split_once<'a>(s: &'a str, separator: char) -> (halves: Option<(&'a str, &'a str)>)
    ensures
        match halves {
            Some((before, after)) => {
                &&& s@ == before@.push(separator) + after@
                &&& !before@.contains(separator)
            },
            None => !s@.contains(separator),
        },
{
    s.split_once(separator)
}

/// Trusted: `String::push` of std appends one character.
pub assume_specification[ String::push ](s: &mut String, c: char)
    ensures
        final(s)@ == old(s)@.push(c),
;

/// Splits text at every separator.
pub fn split_text<'a>(s: &'a str, separator: char) -> (parts: Vec<&'a str>)
    ensures
        texts(parts@) == split_on(s@, separator),
{
    let mut parts: Vec<&'a str> = Vec::new();
    let mut rest: &'a str = s;
    loop
        invariant
            texts(parts@) + split_on(rest@, separator) == split_on(s@, separator),
        decreases rest@.len(),
    {
        let ghost done = texts(parts@);
        match split_once(rest, separator) {
            Some((before, after)) => {
                proof {
                    lemma_split_once(before@, separator, after@);
                }
                parts.push(before);
                assert(texts(parts@) =~= done.push(before@));
                assert(done.push(before@) + split_on(after@, separator) =~= done + (seq![before@]
                    + split_on(after@, separator)));
                rest = after;
            },
            None => {
                proof {
                    lemma_split_whole(rest@, separator);
                }
                parts.push(rest);
                assert(texts(parts@) =~= done + seq![rest@]);
                return parts;
            },
        }
    }
}

/// The lower-case hexadecimal digit of a number below sixteen.
pub open spec fn hex_digit(n: int) -> char {
    if n < 10 {
        (48 + n) as char
    } else {
        (87 + n) as char
    }
}

/// Two lower-case hexadecimal digits for each byte, the high half first.
pub open spec fn hex_of(bytes: Seq<u8>) -> Seq<char> {
    Seq::new(
        2 * bytes.len(),
        |i: int|
            if i % 2 == 0 {
                hex_digit(bytes[i / 2] as int / 16)
            } else {
                hex_digit(bytes[i / 2] as int % 16)
            },
    )
}

fn digit_char(n: u8) -> (c: char)
    requires
        n < 16,
    ensures
        c == hex_digit(n as int),
{
    if n < 10 {
        (48 + n) as char
    } else {
        (87 + n) as char
    }
}

/// Writes bytes in lower-case hexadecimal.
pub fn hex_lower(bytes: &[u8]) -> (text: String)
    ensures
        text@ == hex_of(bytes@),
{
    let mut text: String = String::new();
    let mut i: usize = 0;
    while i < bytes.len()
        invariant
            i <= bytes@.len(),
            text@ == hex_of(bytes@.take(i as int)),
        decreases bytes@.len() - i,
    {
        let ghost before = text@;
        text.push(digit_char(bytes[i] / 16));
        text.push(digit_char(bytes[i] % 16));
        proof {
            let next = bytes@.take(i + 1);
            assert(text@ == before.push(hex_digit(bytes[i as int] as int / 16)).push(
                hex_digit(bytes[i as int] as int % 16),
            ));
            assert forall|k: int| 0 <= k < 2 * (i + 1) implies text@[k] == hex_of(next)[k] by {
                if k < 2 * i {
                    assert(text@[k] == before[k]);
                    assert(bytes@.take(i as int)[k / 2] == next[k / 2]);
                } else {
                    assert(next[k / 2] == bytes[i as int]);
                }
            }
            assert(text@ =~= hex_of(next));
        }
        i = i + 1;
    }
    assert(bytes@.take(i as int) =~= bytes@);
    text
}

/// Two byte strings have the same hexadecimal text only where they are the same bytes.
pub proof fn law_hex_is_injective(a: Seq<u8>, b: Seq<u8>)
    requires
        hex_of(a) == hex_of(b),
    ensures
        a == b,
{
    assert(hex_of(a).len() == 2 * a.len());
    assert(hex_of(b).len() == 2 * b.len());
    assert forall|i: int| 0 <= i < a.len() implies a[i] == b[i] by {
        let (x, y) = (a[i] as int, b[i] as int);
        assert(hex_of(a)[2 * i] == hex_digit(x / 16));
        assert(hex_of(b)[2 * i] == hex_digit(y / 16));
        assert(hex_of(a)[2 * i + 1] == hex_digit(x % 16));
        assert(hex_of(b)[2 * i + 1] == hex_digit(y % 16));
        lemma_hex_digit_injective(x / 16, y / 16);
        lemma_hex_digit_injective(x % 16, y % 16);
    }
    assert(a =~= b);
}

proof fn lemma_hex_digit_injective(m: int, n: int)
    requires
        0 <= m < 16,
        0 <= n < 16,
        hex_digit(m) == hex_digit(n),
    ensures
        m == n,
{
    assert(hex_digit(m) as int == if m < 10 {
        48 + m
    } else {
        87 + m
    });
    assert(hex_digit(n) as int == if n < 10 {
        48 + n
    } else {
        87 + n
    });
}

/// The decimal digits of a number, without leading zeros.
pub open spec fn decimal_of(n: nat) -> Seq<char>
    decreases n,
{
    if n < 10 {
        seq![hex_digit(n as int)]
    } else {
        decimal_of(n / 10).push(hex_digit((n % 10) as int))
    }
}

/// Writes a number in decimal.
pub fn decimal_text(n: usize) -> (text: String)
    ensures
        text@ == decimal_of(n as nat),
    decreases n,
{
    let mut text: String = if n < 10 {
        String::new()
    } else {
        decimal_text(n / 10)
    };
    text.push(digit_char((n % 10) as u8));
    assert(n < 10 ==> text@ =~= decimal_of(n as nat));
    text
}

} // verus!
