//! What the texts, header fields and credentials of a request amount to, said without reference
//! to how they are found.
use crate::cookies::{private_cookies, session_cookie_in};
use crate::credentials::{
    authorization, bearer_in, environment_in, first_stripped, part_behind, sdk_key_in, sha256_of,
    token_hash,
};
use crate::headers::{field_text, header_text, lower_ascii};
use crate::text::{decimal_of, hex_of, split_on, stripped};
use vstd::prelude::*;
use vstd::utf8::encode_utf8;

verus! {

// ---------------------------------------------------------------------------
// Text
// ---------------------------------------------------------------------------
/// Parts with the separator put back between them.
pub open spec fn joined(parts: Seq<Seq<char>>, separator: char) -> Seq<char>
    decreases parts.len(),
{
    if parts.len() == 0 {
        seq![]
    } else if parts.len() == 1 {
        parts[0]
    } else {
        parts[0].push(separator) + joined(parts.drop_first(), separator)
    }
}

/// Splitting loses nothing: there is at least one part, no part holds the separator, and with the
/// separators put back the parts are the text.
pub proof fn law_parts_join_to_the_text(s: Seq<char>, separator: char)
    ensures
        split_on(s, separator).len() >= 1,
        forall|i: int|
            0 <= i < split_on(s, separator).len() ==> !(#[trigger] split_on(
                s,
                separator,
            )[i]).contains(separator),
        joined(split_on(s, separator), separator) == s,
    decreases s.len(),
{
    let parts = split_on(s, separator);
    if s.len() == 0 {
        assert(parts =~= seq![s]);
        assert(!s.contains(separator));
    } else {
        let rest = split_on(s.drop_first(), separator);
        law_parts_join_to_the_text(s.drop_first(), separator);
        if s[0] == separator {
            assert(parts[0] =~= Seq::<char>::empty());
            assert(parts.drop_first() =~= rest);
            assert(Seq::<char>::empty().push(separator) + s.drop_first() =~= s);
            assert forall|i: int| 0 <= i < parts.len() implies !(#[trigger] parts[i]).contains(
                separator,
            ) by {
                if i > 0 {
                    assert(parts[i] == rest[i - 1]);
                }
            }
        } else {
            let first = seq![s[0]] + rest[0];
            assert(parts[0] == first);
            assert(parts.drop_first() =~= rest.drop_first());
            assert(!rest[0].contains(separator));
            assert forall|k: int| 0 <= k < first.len() implies first[k] != separator by {
                if k > 0 {
                    assert(first[k] == rest[0][k - 1]);
                }
            }
            assert forall|i: int| 0 <= i < parts.len() implies !(#[trigger] parts[i]).contains(
                separator,
            ) by {
                if i > 0 {
                    assert(parts[i] == rest[i]);
                }
            }
            if rest.len() == 1 {
                assert(first =~= s);
            } else {
                assert(first.push(separator) + joined(rest.drop_first(), separator) =~= seq![s[0]]
                    + joined(rest, separator));
                assert(seq![s[0]] + s.drop_first() =~= s);
            }
        }
    }
}

/// A prefix is stripped exactly where the text is the prefix and the rest.
pub proof fn law_stripped_is_the_rest(s: Seq<char>, prefix: Seq<char>, rest: Seq<char>)
    ensures
        stripped(s, prefix) == Some(rest) <==> s == prefix + rest,
        stripped(prefix + rest, prefix) == Some(rest),
{
    assert((prefix + rest).skip(prefix.len() as int) =~= rest);
    assert(prefix.is_prefix_of(prefix + rest)) by {
        assert((prefix + rest).subrange(0, prefix.len() as int) =~= prefix);
    }
    if stripped(s, prefix) == Some(rest) {
        assert(s =~= prefix + s.skip(prefix.len() as int));
    }
}

/// The number that decimal digits stand for.
pub open spec fn decimal_value(text: Seq<char>) -> int
    decreases text.len(),
{
    if text.len() == 0 {
        0
    } else {
        decimal_value(text.drop_last()) * 10 + (text.last() as int - '0' as int)
    }
}

/// The decimal text of a number is made of digits, stands for the number, and has no leading
/// zero but for the number zero itself.
pub proof fn law_decimal_reads_back(n: nat)
    ensures
        decimal_value(decimal_of(n)) == n,
        decimal_of(n).len() >= 1,
        forall|i: int|
            0 <= i < decimal_of(n).len() ==> '0' <= #[trigger] decimal_of(n)[i] && decimal_of(n)[i]
                <= '9',
        n > 0 ==> decimal_of(n)[0] != '0',
    decreases n,
{
    if n < 10 {
        assert(decimal_of(n) =~= seq![(48 + n) as char]);
        assert(decimal_of(n).drop_last() =~= seq![]);
        reveal_with_fuel(decimal_value, 2);
    } else {
        law_decimal_reads_back(n / 10);
        let digit = (48 + n % 10) as char;
        assert(decimal_of(n) == decimal_of(n / 10).push(digit));
        assert(decimal_of(n).drop_last() =~= decimal_of(n / 10));
        assert(decimal_of(n).last() == digit);
        assert forall|i: int| 0 <= i < decimal_of(n).len() implies '0'
            <= #[trigger] decimal_of(n)[i] && decimal_of(n)[i] <= '9' by {
            if i < decimal_of(n / 10).len() {
                assert(decimal_of(n)[i] == decimal_of(n / 10)[i]);
            }
        }
    }
}

/// Hexadecimal text has two digits for each byte, which are those of its two halves.
pub proof fn law_hex_digits(bytes: Seq<u8>, i: int)
    requires
        0 <= i < bytes.len(),
    ensures
        hex_of(bytes).len() == 2 * bytes.len(),
        hex_of(bytes)[2 * i] == "0123456789abcdef"@[bytes[i] as int / 16],
        hex_of(bytes)[2 * i + 1] == "0123456789abcdef"@[bytes[i] as int % 16],
{
    reveal_strlit("0123456789abcdef");
    let (high, low) = (bytes[i] as int / 16, bytes[i] as int % 16);
    assert(2 * i / 2 == i && (2 * i + 1) / 2 == i);
}

// ---------------------------------------------------------------------------
// Header fields
// ---------------------------------------------------------------------------
/// A header value is text exactly where every byte is visible ASCII, a space or a tab; the text
/// then has those very characters.
pub proof fn law_header_text(bytes: Seq<u8>)
    ensures
        header_text(bytes) is Some <==> forall|i: int|
            0 <= i < bytes.len() ==> (32 <= #[trigger] bytes[i] && bytes[i] <= 126) || bytes[i]
                == 9,
        header_text(bytes) matches Some(text) ==> text.len() == bytes.len() && forall|i: int|
            0 <= i < bytes.len() ==> (#[trigger] text[i]) as int == bytes[i] as int,
{
    if header_text(bytes) is Some {
        assert forall|i: int| 0 <= i < bytes.len() implies (32 <= #[trigger] bytes[i] && bytes[i]
            <= 126) || bytes[i] == 9 by {}
    }
}

/// Field names are compared without regard to the case of ASCII letters and of nothing else.
pub proof fn law_lower_ascii(name: Seq<char>, i: int)
    requires
        0 <= i < name.len(),
    ensures
        lower_ascii(name).len() == name.len(),
        'A' <= name[i] && name[i] <= 'Z' ==> lower_ascii(name)[i] as int == name[i] as int + 32,
        !('A' <= name[i] && name[i] <= 'Z') ==> lower_ascii(name)[i] == name[i],
{
}

/// A field reads as the text of its oldest value, where the map has it.
pub proof fn law_field_is_the_oldest_value(
    fields: Map<Seq<char>, Seq<Seq<u8>>>,
    name: Seq<char>,
)
    ensures
        !fields.contains_key(name) ==> field_text(fields, name) is None,
        fields.contains_key(name) ==> field_text(fields, name) == header_text(fields[name][0]),
{
}

/// The authorization of a request is the text of the oldest value under `authorization`.
pub proof fn law_authorization_is_the_oldest_value(fields: Map<Seq<char>, Seq<Seq<u8>>>)
    ensures
        !fields.contains_key("authorization"@) ==> authorization(fields) is None,
        fields.contains_key("authorization"@) ==> authorization(fields) == header_text(
            fields["authorization"@][0],
        ),
{
}

// ---------------------------------------------------------------------------
// Credentials
// ---------------------------------------------------------------------------
/// A bearer token is all that follows `Bearer ` in the authorization, to the letter.
pub proof fn law_bearer_is_what_follows(text: Seq<char>, token: Seq<char>)
    ensures
        bearer_in(Some(text)) == Some(token) <==> text == "Bearer "@ + token,
        bearer_in(Some("Bearer "@ + token)) == Some(token),
        bearer_in(None) is None,
{
    law_stripped_is_the_rest(text, "Bearer "@, token);
}

proof fn lemma_first_stripped(parts: Seq<Seq<char>>, prefix: Seq<char>)
    ensures
        match first_stripped(parts, prefix) {
            Some(rest) => exists|i: int|
                0 <= i < parts.len() && #[trigger] parts[i] == prefix + rest && forall|j: int|
                    0 <= j < i ==> !prefix.is_prefix_of(#[trigger] parts[j]),
            None => forall|j: int|
                0 <= j < parts.len() ==> !prefix.is_prefix_of(#[trigger] parts[j]),
        },
    decreases parts.len(),
{
    if parts.len() > 0 {
        let rest = parts.drop_first();
        lemma_first_stripped(rest, prefix);
        match stripped(parts[0], prefix) {
            Some(r) => {
                law_stripped_is_the_rest(parts[0], prefix, r);
                assert(parts[0] == prefix + r);
            },
            None => {
                assert(!prefix.is_prefix_of(parts[0]));
                match first_stripped(rest, prefix) {
                    Some(r) => {
                        let i = choose|i: int|
                            0 <= i < rest.len() && #[trigger] rest[i] == prefix + r && forall|
                                j: int,
                            |
                                0 <= j < i ==> !prefix.is_prefix_of(#[trigger] rest[j]);
                        assert(parts[i + 1] == prefix + r);
                        assert forall|j: int| 0 <= j < i + 1 implies !prefix.is_prefix_of(
                            #[trigger] parts[j],
                        ) by {
                            if j > 0 {
                                assert(parts[j] == rest[j - 1]);
                            }
                        }
                    },
                    None => {
                        assert forall|j: int| 0 <= j < parts.len() implies !prefix.is_prefix_of(
                            #[trigger] parts[j],
                        ) by {
                            if j > 0 {
                                assert(parts[j] == rest[j - 1]);
                            }
                        }
                    },
                }
            },
        }
    }
}

/// The SDK key of a request is its bearer token, where it has one. Else it is what follows
/// `sdk_key=` in the first part of the query that begins so, the parts being those between the
/// ampersands; and there is none where no part does.
pub proof fn law_sdk_key_is_found(authorization: Option<Seq<char>>, query: Seq<char>)
    ensures
        ({
            let parts = split_on(query, '&');
            let bearer = authorization matches Some(text) && "Bearer "@.is_prefix_of(text);
            &&& bearer ==> (sdk_key_in(authorization, query) matches Some(key)
                && authorization->0 == "Bearer "@ + key)
            &&& !bearer ==> match sdk_key_in(authorization, query) {
                Some(key) => exists|i: int|
                    0 <= i < parts.len() && #[trigger] parts[i] == "sdk_key="@ + key && forall|
                        j: int,
                    |
                        0 <= j < i ==> !"sdk_key="@.is_prefix_of(#[trigger] parts[j]),
                None => forall|j: int|
                    0 <= j < parts.len() ==> !"sdk_key="@.is_prefix_of(#[trigger] parts[j]),
            }
        }),
{
    lemma_first_stripped(split_on(query, '&'), "sdk_key="@);
    if let Some(text) = authorization {
        let rest = text.skip("Bearer "@.len() as int);
        law_stripped_is_the_rest(text, "Bearer "@, rest);
    }
}

proof fn lemma_part_behind(parts: Seq<Seq<char>>, word: Seq<char>)
    ensures
        match part_behind(parts, word) {
            Some(part) => exists|i: int|
                0 <= i && i + 1 < parts.len() && #[trigger] parts[i] == word && parts[i + 1] == part
                    && forall|j: int| 0 <= j < i ==> #[trigger] parts[j] != word,
            None => forall|j: int|
                0 <= j < parts.len() - 1 ==> #[trigger] parts[j] != word,
        },
    decreases parts.len(),
{
    if parts.len() > 0 && parts[0] != word {
        let rest = parts.drop_first();
        lemma_part_behind(rest, word);
        match part_behind(rest, word) {
            Some(part) => {
                let i = choose|i: int|
                    0 <= i && i + 1 < rest.len() && #[trigger] rest[i] == word && rest[i + 1]
                        == part && forall|j: int| 0 <= j < i ==> #[trigger] rest[j] != word;
                assert(parts[i + 1] == word);
                assert(parts[i + 2] == part);
                assert forall|j: int| 0 <= j < i + 1 implies #[trigger] parts[j] != word by {
                    if j > 0 {
                        assert(parts[j] == rest[j - 1]);
                    }
                }
            },
            None => {
                assert forall|j: int| 0 <= j < parts.len() - 1 implies #[trigger] parts[j]
                    != word by {
                    if j > 0 {
                        assert(parts[j] == rest[j - 1]);
                    }
                }
            },
        }
    } else if parts.len() > 1 {
        let first: int = 0;
        assert(parts[first] == word && parts[first + 1] == parts[1]);
    }
}

/// The environment that a path names is the part behind the first part `environments`, the parts
/// being those between the slashes. A path names none exactly where no such part is followed by
/// another.
pub proof fn law_environment_is_the_part_behind(path: Seq<char>)
    ensures
        ({
            let parts = split_on(path, '/');
            match environment_in(path) {
                Some(env_id) => exists|i: int|
                    0 <= i && i + 1 < parts.len() && #[trigger] parts[i] == "environments"@
                        && parts[i + 1] == env_id && forall|j: int|
                        0 <= j < i ==> #[trigger] parts[j] != "environments"@,
                None => forall|j: int|
                    0 <= j < parts.len() - 1 ==> #[trigger] parts[j] != "environments"@,
            }
        }),
{
    lemma_part_behind(split_on(path, '/'), "environments"@);
}

/// A token is looked up by the SHA-256 of its UTF-8, written in hexadecimal: the digits are those
/// of the halves of each byte.
pub proof fn law_token_hash_is_sha256_in_hex(token: Seq<char>, i: int)
    requires
        0 <= i < sha256_of(encode_utf8(token)).len(),
    ensures
        ({
            let digest = sha256_of(encode_utf8(token));
            &&& token_hash(token).len() == 2 * digest.len()
            &&& token_hash(token)[2 * i] == "0123456789abcdef"@[digest[i] as int / 16]
            &&& token_hash(token)[2 * i + 1] == "0123456789abcdef"@[digest[i] as int % 16]
        }),
{
    law_hex_digits(sha256_of(encode_utf8(token)), i);
}

/// The session cookie is the cookie `lg_session` of the `Cookie` field that the key opens; without
/// the field, it is one of no values.
pub proof fn law_session_cookie_is_lg_session(
    fields: Map<Seq<char>, Seq<Seq<u8>>>,
    key: Seq<u8>,
    text: Seq<char>,
)
    ensures
        ({
            let values: Seq<Seq<u8>> = if fields.contains_key("cookie"@) {
                fields["cookie"@]
            } else {
                seq![]
            };
            let cookies = private_cookies(values, key);
            session_cookie_in(fields, key) == Some(text) <==> cookies.contains_key("lg_session"@)
                && cookies["lg_session"@] == text
        }),
{
}

} // verus!
