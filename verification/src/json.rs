use vstd::prelude::*;

verus! {

/// The lowercase hexadecimal digit of a value below 16.
pub open spec fn hex_digit(v: int) -> char {
    if v < 10 {
        (48 + v) as char
    } else {
        (87 + v) as char
    }
}

/// The value of a hexadecimal digit, either case.
pub open spec fn hex_value(c: char) -> Option<int> {
    let n = c as u32;
    if 48 <= n <= 57 {
        Some(n - 48int)
    } else if 97 <= n <= 102 {
        Some(n - 87int)
    } else if 65 <= n <= 70 {
        Some(n - 55int)
    } else {
        None
    }
}

/// How one character is written inside a JSON string: a quote and a
/// backslash are escaped with a backslash; backspace, form feed, line feed,
/// carriage return and tab get their short escapes; the other control
/// characters (below U+0020) are written `\u00xx` with lowercase hex digits;
/// every other character is written as it is.
pub open spec fn json_escape_char(c: char) -> Seq<char> {
    if c == '"' {
        seq!['\\', '"']
    } else if c == '\\' {
        seq!['\\', '\\']
    } else if c == '\u{8}' {
        seq!['\\', 'b']
    } else if c == '\u{c}' {
        seq!['\\', 'f']
    } else if c == '\n' {
        seq!['\\', 'n']
    } else if c == '\r' {
        seq!['\\', 'r']
    } else if c == '\t' {
        seq!['\\', 't']
    } else if (c as u32) < 32 {
        seq!['\\', 'u', '0', '0', hex_digit(((c as u32) / 16) as int), hex_digit(((c as u32) % 16) as int)]
    } else {
        seq![c]
    }
}

/// The escaped contents of a JSON string holding `text`.
pub open spec fn json_escape(text: Seq<char>) -> Seq<char>
    decreases text.len(),
{
    if text.len() == 0 {
        seq![]
    } else {
        json_escape_char(text[0]) + json_escape(text.drop_first())
    }
}

/// The JSON string literal of `text`: its escaped contents between quotes.
pub open spec fn json_string_literal(text: Seq<char>) -> Seq<char> {
    seq!['"'] + json_escape(text) + seq!['"']
}

/// The character a one-letter escape `\e` stands for.
pub open spec fn json_short_escape(e: char) -> Option<char> {
    if e == '"' {
        Some('"')
    } else if e == '\\' {
        Some('\\')
    } else if e == '/' {
        Some('/')
    } else if e == 'b' {
        Some('\u{8}')
    } else if e == 'f' {
        Some('\u{c}')
    } else if e == 'n' {
        Some('\n')
    } else if e == 'r' {
        Some('\r')
    } else if e == 't' {
        Some('\t')
    } else {
        None
    }
}

/// The text the contents of a JSON string stand for, or `None` when they are
/// not well formed. Escapes of UTF-16 surrogates are not decoded (`None`).
pub open spec fn json_unescape(s: Seq<char>) -> Option<Seq<char>>
    decreases s.len(),
{
    if s.len() == 0 {
        Some(seq![])
    } else if s[0] == '\\' {
        if s.len() < 2 {
            None
        } else if json_short_escape(s[1]) is Some {
            match json_unescape(s.skip(2)) {
                Some(rest) => Some(seq![json_short_escape(s[1])->0] + rest),
                None => None,
            }
        } else if s[1] == 'u' && s.len() >= 6 && hex_value(s[2]) is Some && hex_value(s[3]) is Some
            && hex_value(s[4]) is Some && hex_value(s[5]) is Some {
            let code = hex_value(s[2])->0 * 4096 + hex_value(s[3])->0 * 256 + hex_value(s[4])->0 * 16
                + hex_value(s[5])->0;
            if 0xD800 <= code <= 0xDFFF {
                None
            } else {
                match json_unescape(s.skip(6)) {
                    Some(rest) => Some(seq![(code as u32) as char] + rest),
                    None => None,
                }
            }
        } else {
            None
        }
    } else if s[0] == '"' || (s[0] as u32) < 32 {
        None
    } else {
        match json_unescape(s.drop_first()) {
            Some(rest) => Some(seq![s[0]] + rest),
            None => None,
        }
    }
}

/// A text that JSON writes as it is: no quote, no backslash, no control
/// character.
pub open spec fn json_plain(text: Seq<char>) -> bool {
    forall|i: int|
        0 <= i < text.len() ==> {
            &&& #[trigger] text[i] != '"'
            &&& text[i] != '\\'
            &&& (text[i] as u32) >= 32
        }
}

/// The contents of a JSON string read back as the text they were written
/// from.
pub proof fn lemma_json_escape_round_trip(text: Seq<char>)
    ensures
        json_unescape(json_escape(text)) == Some(text),
    decreases text.len(),
{
    if text.len() > 0 {
        let c = text[0];
        let rest = text.drop_first();
        let r = json_escape(rest);
        let e = json_escape_char(c);
        let s = json_escape(text);
        lemma_json_escape_round_trip(rest);
        assert(s == e + r);
        assert(text =~= seq![c] + rest);
        let n = c as u32;
        if c == '"' || c == '\\' || c == '\u{8}' || c == '\u{c}' || c == '\n' || c == '\r' || c
            == '\t' {
            assert(s.skip(2) =~= r);
        } else if n < 32 {
            let hi = (n / 16) as int;
            let lo = (n % 16) as int;
            assert(0 <= hi < 2);
            assert(0 <= lo < 16);
            assert(hex_value(hex_digit(hi)) == Some(hi));
            assert(hex_value(hex_digit(lo)) == Some(lo));
            assert(s[0] == '\\' && s[1] == 'u' && s[2] == '0' && s[3] == '0');
            assert(s[4] == hex_digit(hi) && s[5] == hex_digit(lo));
            assert(hex_value('0') == Some(0int));
            assert(s.skip(6) =~= r);
            vstd::utf8::char_u32_cast(c, n);
            assert(((hi * 16 + lo) as u32) as char == c);
        } else {
            assert(s.drop_first() =~= r);
        }
    }
}

/// A text without quotes, backslashes or control characters is written as
/// it is.
pub proof fn lemma_json_escape_plain(text: Seq<char>)
    requires
        json_plain(text),
    ensures
        json_escape(text) == text,
    decreases text.len(),
{
    if text.len() > 0 {
        let rest = text.drop_first();
        assert forall|i: int| 0 <= i < rest.len() implies {
            &&& #[trigger] rest[i] != '"'
            &&& rest[i] != '\\'
            &&& (rest[i] as u32) >= 32
        } by {
            assert(rest[i] == text[i + 1]);
        }
        lemma_json_escape_plain(rest);
        assert(text[0] != '"' && text[0] != '\\' && (text[0] as u32) >= 32);
        assert(json_escape_char(text[0]) == seq![text[0]]);
        assert(json_escape(text) =~= text);
    }
}

} // verus!

verus! {

/// How each character is written: plain characters as they are, a quote and
/// a backslash behind a backslash, the five named control characters by
/// their letters, and every other control character as `\u00` followed by
/// its two lowercase hex digits.
pub proof fn lemma_json_escape_char_shape(c: char)
    ensures
        (c != '"' && c != '\\' && (c as u32) >= 32) ==> json_escape_char(c) == seq![c],
        c == '"' ==> json_escape_char(c) == seq!['\\', '"'],
        c == '\\' ==> json_escape_char(c) == seq!['\\', '\\'],
        c == '\u{8}' ==> json_escape_char(c) == seq!['\\', 'b'],
        c == '\u{c}' ==> json_escape_char(c) == seq!['\\', 'f'],
        c == '\n' ==> json_escape_char(c) == seq!['\\', 'n'],
        c == '\r' ==> json_escape_char(c) == seq!['\\', 'r'],
        c == '\t' ==> json_escape_char(c) == seq!['\\', 't'],
        ((c as u32) < 32 && c != '\u{8}' && c != '\u{c}' && c != '\n' && c != '\r' && c != '\t')
            ==> json_escape_char(c) == seq![
            '\\',
            'u',
            '0',
            '0',
            seq!['0', '1'][((c as u32) / 16) as int],
            seq![
                '0', '1', '2', '3', '4', '5', '6', '7', '8', '9', 'a', 'b', 'c', 'd', 'e', 'f'
            ][((c as u32) % 16) as int],
        ],
{
    let n = c as u32;
    if n < 32 && c != '\u{8}' && c != '\u{c}' && c != '\n' && c != '\r' && c != '\t' {
        let lo = (n % 16) as int;
        let digits = seq!['0', '1', '2', '3', '4', '5', '6', '7', '8', '9', 'a', 'b', 'c', 'd', 'e', 'f'];
        assert(hex_digit(lo) == digits[lo]);
        assert(hex_digit((n / 16) as int) == seq!['0', '1'][(n / 16) as int]);
        assert(json_escape_char(c) =~= seq!['\\', 'u', '0', '0', seq!['0', '1'][(n / 16) as int], digits[lo]]);
    }
}

} // verus!
