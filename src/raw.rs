//! Raw code fragments: text that the renderer must receive unquoted, such as
//! a callback function, travels through JSON as a marked string, and the
//! finished JSON text is then rewritten to drop the quotes and markers.
use vstd::prelude::*;
use vstd::std_specs::iter::IteratorSpec;
use vstd::utf8::is_scalar;

verus! {

/// What opens a raw fragment in JSON text: a quote, then the marker.
pub open spec fn open_mark() -> Seq<char> {
    "\"__raw__"@
}

/// What closes a raw fragment in JSON text: the marker, then a quote.
pub open spec fn close_mark() -> Seq<char> {
    "__raw__\""@
}

pub open spec fn starts_with(s: Seq<char>, p: Seq<char>) -> bool {
    p.len() <= s.len() && s.subrange(0, p.len() as int) == p
}

/// The character that a two-character escape `\c` inside a JSON string stands for.
pub open spec fn unescape(c: char) -> char {
    if c == 'n' {
        '\n'
    } else if c == 't' {
        '\t'
    } else if c == 'r' {
        '\r'
    } else if c == 'b' {
        '\u{8}'
    } else if c == 'f' {
        '\u{c}'
    } else {
        c
    }
}

/// The value of a hexadecimal digit.
pub open spec fn hex_value(c: char) -> Option<u32> {
    let v = c as u32;
    if 48 <= v <= 57 {
        Some((v - 48) as u32)
    } else if 97 <= v <= 102 {
        Some((v - 87) as u32)
    } else if 65 <= v <= 70 {
        Some((v - 55) as u32)
    } else {
        None
    }
}

/// The number written by the four hexadecimal digits that `s` starts with.
pub open spec fn code_at(s: Seq<char>) -> Option<u32> {
    if s.len() < 4 {
        None
    } else {
        match (hex_value(s[0]), hex_value(s[1]), hex_value(s[2]), hex_value(s[3])) {
            (Some(a), Some(b), Some(c), Some(d)) => Some((a * 4096 + b * 256 + c * 16 + d) as u32),
            _ => None,
        }
    }
}

/// The character of a `\uXXXX` escape that `s` starts with, where its code
/// names a character.
pub open spec fn unicode_escape(s: Seq<char>) -> Option<char> {
    if s.len() >= 6 && s[0] == '\\' && s[1] == 'u' {
        match code_at(s.skip(2)) {
            Some(v) => if is_scalar(v) {
                Some(v as char)
            } else {
                None
            },
            None => None,
        }
    } else {
        None
    }
}

/// JSON text outside any raw fragment is kept as it is.
pub open spec fn unraw_outside(s: Seq<char>) -> Seq<char>
    decreases s.len(), 1nat,
{
    if s.len() == 0 {
        Seq::empty()
    } else if starts_with(s, open_mark()) {
        unraw_inside(s.skip(open_mark().len() as int))
    } else {
        seq![s[0]] + unraw_outside(s.skip(1))
    }
}

/// Inside a raw fragment, escape sequences are undone until the closing mark.
pub open spec fn unraw_inside(s: Seq<char>) -> Seq<char>
    decreases s.len(), 0nat,
{
    if s.len() == 0 {
        Seq::empty()
    } else if starts_with(s, close_mark()) {
        if close_mark().len() == 0 {
            Seq::empty()
        } else {
            unraw_outside(s.skip(close_mark().len() as int))
        }
    } else if unicode_escape(s) is Some {
        seq![unicode_escape(s)->Some_0] + unraw_inside(s.skip(6))
    } else if s.len() >= 2 && s[0] == '\\' && s[1] != 'u' {
        seq![unescape(s[1])] + unraw_inside(s.skip(2))
    } else {
        seq![s[0]] + unraw_inside(s.skip(1))
    }
}

/// The text of a raw fragment holding `code`, to be placed in a text field.
pub fn raw_string(code: &str) -> (r: String)
    ensures
        r@ == "__raw__"@ + code@ + "__raw__"@,
{
    let mut r = String::from_str("__raw__");
    r.append(code);
    r.append("__raw__");
    r
}

/// The characters of `s`, in order.
pub fn chars_of(s: &str) -> (r: Vec<char>)
    ensures
        r@ == s@,
{
    broadcast use vstd::string::axiom_spec_iter, vstd::string::next_postcondition;

    let mut it = s.chars();
    let mut out: Vec<char> = Vec::new();
    loop
        invariant
            out@ + it.remaining() == s@,
            it.obeys_prophetic_iter_laws(),
            it.decrease() is Some,
        decreases it.decrease()->0,
    {
        let ghost before = it.remaining();
        match it.next() {
            Some(c) => {
                out.push(c);
                assert(out@ + it.remaining() =~= s@) by {
                    assert(before =~= seq![c] + it.remaining());
                }
            },
            None => {
                assert(out@ =~= s@);
                return out;
            },
        }
    }
}

fn has_at(s: &Vec<char>, i: usize, p: &Vec<char>) -> (r: bool)
    requires
        i <= s.len(),
    ensures
        r == starts_with(s@.skip(i as int), p@),
{
    if p.len() > s.len() - i {
        return false;
    }
    let mut k: usize = 0;
    while k < p.len()
        invariant
            k <= p.len(),
            p.len() <= s.len() - i,
            i <= s.len(),
            forall|m: int| 0 <= m < k ==> #[trigger] p@[m] == s@[i + m],
        decreases p.len() - k,
    {
        if p[k] != s[i + k] {
            assert(s@.skip(i as int).subrange(0, p@.len() as int)[k as int] != p@[k as int]);
            return false;
        }
        k = k + 1;
    }
    assert(s@.skip(i as int).subrange(0, p@.len() as int) =~= p@);
    true
}

fn unescape_exec(c: char) -> (r: char)
    ensures
        r == unescape(c),
{
    if c == 'n' {
        '\n'
    } else if c == 't' {
        '\t'
    } else if c == 'r' {
        '\r'
    } else if c == 'b' {
        '\u{8}'
    } else if c == 'f' {
        '\u{c}'
    } else {
        c
    }
}

fn hex_value_exec(c: char) -> (r: Option<u32>)
    ensures
        r == hex_value(c),
{
    let v = c as u32;
    if 48 <= v && v <= 57 {
        Some(v - 48)
    } else if 97 <= v && v <= 102 {
        Some(v - 87)
    } else if 65 <= v && v <= 70 {
        Some(v - 55)
    } else {
        None
    }
}

fn unicode_escape_at(s: &Vec<char>, i: usize) -> (r: Option<char>)
    requires
        i <= s.len(),
    ensures
        r == unicode_escape(s@.skip(i as int)),
{
    let ghost rest = s@.skip(i as int);
    if s.len() - i < 6 || s[i] != '\\' || s[i + 1] != 'u' {
        return None;
    }
    assert(rest.skip(2)[0] == s@[i + 2] && rest.skip(2)[1] == s@[i + 3]);
    assert(rest.skip(2)[2] == s@[i + 4] && rest.skip(2)[3] == s@[i + 5]);
    let a = match hex_value_exec(s[i + 2]) {
        Some(a) => a,
        None => return None,
    };
    let b = match hex_value_exec(s[i + 3]) {
        Some(b) => b,
        None => return None,
    };
    let c = match hex_value_exec(s[i + 4]) {
        Some(c) => c,
        None => return None,
    };
    let d = match hex_value_exec(s[i + 5]) {
        Some(d) => d,
        None => return None,
    };
    let v = a * 4096 + b * 256 + c * 16 + d;
    char_from_code(v)
}

/// Rewrites JSON text so that each raw fragment stands unquoted, with the
/// escapes inside it undone.
pub fn process_raw_strings(text: &str) -> (r: String)
    ensures
        r@ == unraw_outside(text@),
{
    let s = chars_of(text);
    let open = chars_of("\"__raw__");
    let close = chars_of("__raw__\"");
    proof {
        reveal_strlit("\"__raw__");
        reveal_strlit("__raw__\"");
    }
    let mut out: Vec<char> = Vec::new();
    let mut inside = false;
    let mut i: usize = 0;
    assert(s@.skip(0) =~= s@);
    assert(out@ + unraw_outside(s@) =~= unraw_outside(s@));
    while i < s.len()
        invariant
            i <= s.len(),
            open@ == open_mark(),
            close@ == close_mark(),
            open@.len() == 8,
            close@.len() == 8,
            unraw_outside(s@) == out@ + if inside {
                unraw_inside(s@.skip(i as int))
            } else {
                unraw_outside(s@.skip(i as int))
            },
        decreases s.len() - i,
    {
        let ghost rest = s@.skip(i as int);
        let ghost before = out@;
        if !inside {
            if has_at(&s, i, &open) {
                assert(rest.skip(8) =~= s@.skip(i + 8));
                inside = true;
                i = i + 8;
            } else {
                out.push(s[i]);
                assert(rest.skip(1) =~= s@.skip(i + 1));
                assert(rest[0] == s@[i as int]);
                assert(out@ + unraw_outside(s@.skip(i + 1)) =~= before + unraw_outside(rest));
                i = i + 1;
            }
        } else {
            if has_at(&s, i, &close) {
                assert(rest.skip(8) =~= s@.skip(i + 8));
                inside = false;
                i = i + 8;
            } else if let Some(c) = unicode_escape_at(&s, i) {
                out.push(c);
                assert(rest.skip(6) =~= s@.skip(i + 6));
                assert(out@ + unraw_inside(s@.skip(i + 6)) =~= before + unraw_inside(rest));
                i = i + 6;
            } else if i + 1 < s.len() && s[i] == '\\' && s[i + 1] != 'u' {
                out.push(unescape_exec(s[i + 1]));
                assert(rest.skip(2) =~= s@.skip(i + 2));
                assert(rest[0] == s@[i as int] && rest[1] == s@[i + 1]);
                assert(out@ + unraw_inside(s@.skip(i + 2)) =~= before + unraw_inside(rest));
                i = i + 2;
            } else {
                out.push(s[i]);
                assert(rest.skip(1) =~= s@.skip(i + 1));
                assert(rest[0] == s@[i as int]);
                assert(out@ + unraw_inside(s@.skip(i + 1)) =~= before + unraw_inside(rest));
                i = i + 1;
            }
        }
    }
    assert(s@.skip(i as int).len() == 0);
    assert(out@ + Seq::<char>::empty() =~= out@);
    string_of(&out)
}

/// Relies on `char::from_u32`: the character with code `v`, or `None` when
/// `v` is a surrogate or past the last code point.
#[verifier::external_body]
fn char_from_code(v: u32) -> (r: Option<char>)
    ensures
        is_scalar(v) ==> r == Some(v as char),
        !is_scalar(v) ==> r is None,
{
    char::from_u32(v)
}

/// Relies on `String`'s `FromIterator<&char>`: collecting characters gives the
/// string of exactly those characters, in order.
#[verifier::external_body]
fn string_of(chars: &Vec<char>) -> (r: String)
    ensures
        r@ == chars@,
{
    chars.iter().collect()
}

} // verus!
