//! URL encoding of announce values: every character that the exclusion
//! pattern does not match becomes `%` and two hex digits of its low byte.

use vstd::prelude::*;
use crate::pattern::{regex_compiles, regex_finds_match, regex_match_char};

verus! {

broadcast use vstd::string::group_string_axioms;

/// The hex digit of `n` (`0 <= n < 16`), in upper or lower case.
pub open spec fn hex_digit(n: int, uppercase: bool) -> char {
    if n < 10 {
        ('0' as int + n) as char
    } else if uppercase {
        ('A' as int + (n - 10)) as char
    } else {
        ('a' as int + (n - 10)) as char
    }
}

/// The byte that the encoding writes for `c`: the low byte of its code point.
pub open spec fn encoded_byte(c: char) -> int {
    (c as u32) as int % 256
}

/// `%` followed by the two hex digits of the low byte of `c`.
pub open spec fn percent_encoding(c: char, uppercase: bool) -> Seq<char> {
    seq!['%', hex_digit(encoded_byte(c) / 16, uppercase), hex_digit(encoded_byte(c) % 16, uppercase)]
}

/// A character is kept as it is when the pattern is not empty and matches it.
pub open spec fn is_excluded(pattern: Seq<char>, c: char) -> bool {
    pattern.len() > 0 && regex_finds_match(pattern, seq![c])
}

/// How one character is written out.
pub open spec fn encoded_char(pattern: Seq<char>, c: char, uppercase: bool) -> Seq<char> {
    if is_excluded(pattern, c) {
        seq![c]
    } else {
        percent_encoding(c, uppercase)
    }
}

/// The encoding of a whole text: the encodings of its characters, in order.
pub open spec fn url_encoded(pattern: Seq<char>, data: Seq<char>, uppercase: bool) -> Seq<char>
    decreases data.len(),
{
    if data.len() == 0 {
        seq![]
    } else {
        encoded_char(pattern, data[0], uppercase) + url_encoded(pattern, data.drop_first(), uppercase)
    }
}

/// The regular expression can be applied to every character of `data`:
/// either nothing is tested or the pattern compiles.
pub open spec fn pattern_usable(pattern: Seq<char>, data: Seq<char>) -> bool {
    data.len() > 0 && pattern.len() > 0 ==> regex_compiles(pattern)
}

/// `String::push`: appends `c` at the end of `s`.
#[verifier::external_body]
fn push_char(s: &mut String, c: char)
    ensures
        final(s)@ == old(s)@.push(c),
{
    s.push(c);
}

fn hex_digit_of(n: u8, uppercase: bool) -> (c: char)
    requires
        n < 16,
    ensures
        c == hex_digit(n as int, uppercase),
{
    if n < 10 {
        (48u8 + n) as char
    } else if uppercase {
        (55u8 + n) as char
    } else {
        (87u8 + n) as char
    }
}

/// `%` and the two hex digits of the low byte of `c`, in upper case when
/// `uppercase` holds and in lower case otherwise.
pub fn percent_encode_char(c: char, uppercase: bool) -> (r: String)
    ensures
        r@ == percent_encoding(c, uppercase),
{
    let code: u32 = c as u32;
    let byte: u8 = (code % 256) as u8;
    let mut r = String::new();
    push_char(&mut r, '%');
    push_char(&mut r, hex_digit_of(byte / 16, uppercase));
    push_char(&mut r, hex_digit_of(byte % 16, uppercase));
    r
}

/// What the encoder writes for `c` once it knows whether the exclusion
/// pattern matched it: `c` itself when it did, its percent encoding when not.
pub fn escape_char(c: char, excluded: bool, uppercase: bool) -> (r: String)
    ensures
        r@ == (if excluded { seq![c] } else { percent_encoding(c, uppercase) }),
{
    if excluded {
        let mut r = String::new();
        push_char(&mut r, c);
        r
    } else {
        percent_encode_char(c, uppercase)
    }
}

/// URL encodes one character. A character that the non-empty `pattern`
/// matches is kept with its case; any other becomes `%` and two hex digits of
/// its low byte, lower case unless `uppercase`.
pub fn get_URL_encoded_char(pattern: &str, c: char, uppercase: bool) -> (r: String)
    requires
        pattern@.len() > 0 ==> regex_compiles(pattern@),
    ensures
        r@ == encoded_char(pattern@, c, uppercase),
{
    let excluded = if pattern.is_empty() {
        false
    } else {
        match regex_match_char(pattern, c) {
            Ok(found) => found,
            Err(_) => false,
        }
    };
    escape_char(c, excluded, uppercase)
}


/// Encoding a concatenation gives the concatenation of the encodings: each
/// character is encoded on its own, whatever stands around it.
pub proof fn lemma_url_encoded_append(pattern: Seq<char>, a: Seq<char>, b: Seq<char>, uppercase: bool)
    ensures
        url_encoded(pattern, a + b, uppercase) == url_encoded(pattern, a, uppercase) + url_encoded(
            pattern,
            b,
            uppercase,
        ),
    decreases a.len(),
{
    if a.len() == 0 {
        assert(a + b =~= b);
    } else {
        lemma_url_encoded_append(pattern, a.drop_first(), b, uppercase);
        assert((a + b).drop_first() =~= a.drop_first() + b);
        assert((a + b)[0] == a[0]);
        assert(url_encoded(pattern, a, uppercase) + url_encoded(pattern, b, uppercase) =~= encoded_char(
            pattern,
            a[0],
            uppercase,
        ) + (url_encoded(pattern, a.drop_first(), uppercase) + url_encoded(pattern, b, uppercase)));
    }
}

/// URL encodes every character of `data` in turn (see `get_URL_encoded_char`)
/// and joins the results.
pub fn get_URL_encoded(pattern: &str, data: &str, uppercase: bool) -> (r: String)
    requires
        pattern_usable(pattern@, data@),
    ensures
        r@ == url_encoded(pattern@, data@, uppercase),
{
    let mut r = String::new();
    let ghost text = data@;
    for c in it: data.chars()
        invariant
            it.seq() == text,
            text == data@,
            pattern_usable(pattern@, data@),
            r@ == url_encoded(pattern@, text.take(it.index() as int), uppercase),
    {
        let ghost i = it.index() as int;
        let piece = get_URL_encoded_char(pattern, c, uppercase);
        proof {
            let t = text.take(i);
            assert(text.take(i + 1) =~= t + seq![c]);
            lemma_url_encoded_append(pattern@, t, seq![c], uppercase);
            assert(url_encoded(pattern@, seq![c], uppercase) =~= encoded_char(pattern@, c, uppercase)) by {
                assert(seq![c].drop_first() =~= Seq::<char>::empty());
                assert(url_encoded(pattern@, Seq::<char>::empty(), uppercase) =~= Seq::<char>::empty());
                assert(seq![c][0] == c);
            }
        }
        r.append(piece.as_str());
    }
    assert(text.take(text.len() as int) =~= text);
    r
}

/// `get_URL_encoded` for any pattern: `None` when the pattern does not
/// compile and would be applied (`data` and `pattern` not empty), the
/// encoding otherwise.
pub fn try_get_URL_encoded(pattern: &str, data: &str, uppercase: bool) -> (r: Option<String>)
    ensures
        r is None <==> !pattern_usable(pattern@, data@),
        r matches Some(s) ==> s@ == url_encoded(pattern@, data@, uppercase),
{
    if !data.is_empty() && !pattern.is_empty() && regex_match_char(pattern, 'a').is_err() {
        None
    } else {
        Some(get_URL_encoded(pattern, data, uppercase))
    }
}


/// The value of a hex digit of either case.
pub open spec fn hex_value(c: char) -> Option<int> {
    if '0' <= c && c <= '9' {
        Some(c as int - '0' as int)
    } else if 'a' <= c && c <= 'f' {
        Some(c as int - 'a' as int + 10)
    } else if 'A' <= c && c <= 'F' {
        Some(c as int - 'A' as int + 10)
    } else {
        None
    }
}

/// Percent decoding: each `%` followed by two hex digits stands for the
/// character whose code is that byte; every other character stands for itself.
pub open spec fn percent_decoded(s: Seq<char>) -> Seq<char>
    decreases s.len(),
{
    if s.len() == 0 {
        seq![]
    } else if s.len() >= 3 && s[0] == '%' && hex_value(s[1]) is Some && hex_value(s[2]) is Some {
        seq![(hex_value(s[1])->0 * 16 + hex_value(s[2])->0) as char] + percent_decoded(s.skip(3))
    } else {
        seq![s[0]] + percent_decoded(s.skip(1))
    }
}

proof fn lemma_hex_digit_value(n: int, uppercase: bool)
    requires
        0 <= n < 16,
    ensures
        hex_value(hex_digit(n, uppercase)) == Some(n),
{
}

/// A character that percent decoding gives back: one kept as it is must not
/// be a `%`, one that is encoded must fit in a byte.
pub open spec fn decodable(pattern: Seq<char>, c: char) -> bool {
    if is_excluded(pattern, c) {
        c != '%'
    } else {
        c as u32 <= 255
    }
}

/// Percent decoding gives back the text that was encoded, when every
/// character of it is `decodable`.
pub proof fn lemma_url_encoded_decodes(pattern: Seq<char>, data: Seq<char>, uppercase: bool)
    requires
        forall|i: int| 0 <= i < data.len() ==> decodable(pattern, #[trigger] data[i]),
    ensures
        percent_decoded(url_encoded(pattern, data, uppercase)) == data,
    decreases data.len(),
{
    if data.len() > 0 {
        let c = data[0];
        let rest = data.drop_first();
        assert forall|i: int| 0 <= i < rest.len() implies decodable(pattern, #[trigger] rest[i]) by {
            assert(rest[i] == data[i + 1]);
        }
        assert(decodable(pattern, data[0]));
        lemma_url_encoded_decodes(pattern, rest, uppercase);
        let tail = url_encoded(pattern, rest, uppercase);
        let out = url_encoded(pattern, data, uppercase);
        if is_excluded(pattern, c) {
            assert(out =~= seq![c] + tail);
            assert(out.skip(1) =~= tail);
            assert(out[0] == c);
        } else {
            let b = encoded_byte(c);
            let u = c as u32;
            assert(b == u as int);
            vstd::utf8::char_u32_cast(c, u);
            lemma_hex_digit_value(b / 16, uppercase);
            lemma_hex_digit_value(b % 16, uppercase);
            assert(out =~= percent_encoding(c, uppercase) + tail);
            assert(out.skip(3) =~= tail);
            assert(out[0] == '%');
            assert(out[1] == hex_digit(b / 16, uppercase));
            assert(out[2] == hex_digit(b % 16, uppercase));
            assert((b / 16) * 16 + b % 16 == b);
            assert(((b / 16) * 16 + b % 16) as char == u as char);
        }
        assert(data =~= seq![c] + rest);
    }
}

/// With an empty pattern every character is percent encoded: the result is
/// three times as long as the text.
pub proof fn lemma_empty_pattern_encodes_all(data: Seq<char>, uppercase: bool)
    ensures
        url_encoded(Seq::<char>::empty(), data, uppercase).len() == 3 * data.len(),
        forall|i: int|
            0 <= i < data.len() ==> url_encoded(Seq::<char>::empty(), data, uppercase).subrange(
                3 * i,
                3 * i + 3,
            ) == #[trigger] percent_encoding(data[i], uppercase),
    decreases data.len(),
{
    let e = Seq::<char>::empty();
    if data.len() > 0 {
        let rest = data.drop_first();
        lemma_empty_pattern_encodes_all(rest, uppercase);
        let out = url_encoded(e, data, uppercase);
        let tail = url_encoded(e, rest, uppercase);
        assert(out =~= percent_encoding(data[0], uppercase) + tail);
        assert forall|i: int| 0 <= i < data.len() implies out.subrange(3 * i, 3 * i + 3)
            == #[trigger] percent_encoding(data[i], uppercase) by {
            if i == 0 {
                assert(out.subrange(0, 3) =~= percent_encoding(data[0], uppercase));
            } else {
                assert(rest[i - 1] == data[i]);
                assert(tail.subrange(3 * (i - 1), 3 * (i - 1) + 3) == percent_encoding(rest[i - 1], uppercase));
                assert(out.subrange(3 * i, 3 * i + 3) =~= tail.subrange(3 * (i - 1), 3 * (i - 1) + 3));
            }
        }
    }
}


/// The percent encoding of `c` is three characters: `%`, then the high and
/// the low hex digit of the low byte of the code point of `c`, in the case
/// that `uppercase` asks for.
pub proof fn law_percent_encoding(c: char, uppercase: bool)
    ensures
        ({
            let r = percent_encoding(c, uppercase);
            let hi = ((c as u32) as int % 256) / 16;
            let lo = ((c as u32) as int % 256) % 16;
            let letter = if uppercase { 'A' as int } else { 'a' as int };
            &&& r.len() == 3
            &&& r[0] == '%'
            &&& hi < 10 ==> r[1] as int == '0' as int + hi
            &&& hi >= 10 ==> r[1] as int == letter + (hi - 10)
            &&& lo < 10 ==> r[2] as int == '0' as int + lo
            &&& lo >= 10 ==> r[2] as int == letter + (lo - 10)
        }),
{
}

/// One character is written as it is exactly when the pattern is not empty and
/// the regular expression matches it; every other character becomes `%` and
/// the two hex digits of its low byte, in the case that `uppercase` asks for.
pub proof fn law_encoded_char(pattern: Seq<char>, c: char, uppercase: bool)
    ensures
        pattern.len() > 0 && regex_finds_match(pattern, seq![c]) ==> encoded_char(pattern, c, uppercase)
            == seq![c],
        !(pattern.len() > 0 && regex_finds_match(pattern, seq![c])) ==> {
            let r = encoded_char(pattern, c, uppercase);
            let hi = ((c as u32) as int % 256) / 16;
            let lo = ((c as u32) as int % 256) % 16;
            let letter = if uppercase { 'A' as int } else { 'a' as int };
            &&& r.len() == 3
            &&& r[0] == '%'
            &&& hi < 10 ==> r[1] as int == '0' as int + hi
            &&& hi >= 10 ==> r[1] as int == letter + (hi - 10)
            &&& lo < 10 ==> r[2] as int == '0' as int + lo
            &&& lo >= 10 ==> r[2] as int == letter + (lo - 10)
        },
{
    law_percent_encoding(c, uppercase);
}

/// The encoding of a text is the concatenation, in order, of the encodings of
/// its characters, each encoded on its own.
pub proof fn law_url_encoded_joins_chars(pattern: Seq<char>, data: Seq<char>, uppercase: bool)
    ensures
        url_encoded(pattern, data, uppercase) == data.map_values(
            |c: char| encoded_char(pattern, c, uppercase),
        ).flatten(),
    decreases data.len(),
{
    let f = |c: char| encoded_char(pattern, c, uppercase);
    if data.len() > 0 {
        law_url_encoded_joins_chars(pattern, data.drop_first(), uppercase);
        assert(data.map_values(f).drop_first() =~= data.drop_first().map_values(f));
        assert(data.map_values(f).first() == encoded_char(pattern, data[0], uppercase));
    } else {
        assert(data.map_values(f) =~= Seq::<Seq<char>>::empty());
    }
}

/// The regular expression is needed only when both the text and the pattern
/// are not empty; then it must compile.
pub proof fn law_pattern_usable(pattern: Seq<char>, data: Seq<char>)
    ensures
        pattern_usable(pattern, data) <==> (data.len() == 0 || pattern.len() == 0 || regex_compiles(
            pattern,
        )),
{
}

} // verus!
