//! Quoted JSON text: escaping the characters of a string for a quoted JSON
//! literal, reading such a literal back, and the proof that reading inverts
//! escaping.

use vstd::prelude::*;
use vstd::string::StrSliceExecFns;
use crate::numerals::at;
use crate::numerals::lemma_at_split;

verus! {

/// Whether `c` is a lower-case hexadecimal digit.
pub open spec fn is_hex(c: char) -> bool {
    (48 <= c as u32 <= 57) || (97 <= c as u32 <= 102)
}

/// Value of a lower-case hexadecimal digit character.
pub open spec fn hex_val(c: char) -> nat {
    if 48 <= c as u32 <= 57 {
        (c as u32 - 48) as nat
    } else {
        (c as u32 - 87) as nat
    }
}

/// The lower-case hexadecimal digit character for a value below sixteen.
pub open spec fn hex_char(d: nat) -> char {
    if d < 10 {
        crate::numerals::digit_char(d)
    } else if d == 10 {
        'a'
    } else if d == 11 {
        'b'
    } else if d == 12 {
        'c'
    } else if d == 13 {
        'd'
    } else if d == 14 {
        'e'
    } else {
        'f'
    }
}

pub proof fn lemma_hex_char_val(d: nat)
    requires
        d < 16,
    ensures
        is_hex(hex_char(d)),
        hex_val(hex_char(d)) == d,
{
}

/// The lower-case hexadecimal digit character for a value below sixteen.
pub fn hex_char_exec(d: u32) -> (c: char)
    requires
        d < 16,
    ensures
        c == hex_char(d as nat),
{
    if d < 10 {
        crate::numerals::digit_char_exec(d)
    } else if d == 10 {
        'a'
    } else if d == 11 {
        'b'
    } else if d == 12 {
        'c'
    } else if d == 13 {
        'd'
    } else if d == 14 {
        'e'
    } else {
        'f'
    }
}

/// The characters that stand for `c` inside a quoted JSON literal: quote
/// and backslash take a backslash escape, control characters a `\u00..`
/// escape, every other character stands for itself.
pub open spec fn escape_char(c: char) -> Seq<char> {
    if c == '"' {
        seq!['\\', '"']
    } else if c == '\\' {
        seq!['\\', '\\']
    } else if (c as u32) < 32 {
        seq![
            '\\',
            'u',
            '0',
            '0',
            hex_char((c as u32 / 16) as nat),
            hex_char((c as u32 % 16) as nat),
        ]
    } else {
        seq![c]
    }
}

/// The escaped image of a whole string.
pub open spec fn escape(s: Seq<char>) -> Seq<char>
    decreases s.len(),
{
    if s.len() == 0 {
        Seq::empty()
    } else {
        escape_char(s[0]) + escape(s.drop_first())
    }
}

/// `s` between quotes, with its characters escaped.
pub open spec fn quoted(s: Seq<char>) -> Seq<char> {
    seq!['"'] + escape(s) + seq!['"']
}

/// Escaping distributes over appending one character.
pub proof fn lemma_escape_snoc(s: Seq<char>, c: char)
    ensures
        escape(s.push(c)) == escape(s) + escape_char(c),
    decreases s.len(),
{
    reveal_with_fuel(escape, 2);
    if s.len() == 0 {
        assert(s.push(c)[0] == c);
        assert(s.push(c).drop_first() =~= Seq::<char>::empty());
        assert(escape(s.push(c)) =~= escape(s) + escape_char(c));
    } else {
        assert(s.push(c)[0] == s[0]);
        assert(s.push(c).drop_first() =~= s.drop_first().push(c));
        lemma_escape_snoc(s.drop_first(), c);
        assert(escape(s.push(c)) == escape_char(s[0]) + escape(s.drop_first().push(c)));
        assert(escape(s.drop_first().push(c)) == escape(s.drop_first()) + escape_char(c));
        assert(escape(s.push(c)) =~= escape(s) + escape_char(c));
    }
}

/// Every character an escape produces has a code of at least 32: escaped
/// text never holds a control character, in particular never a nul.
pub proof fn lemma_escape_clean(s: Seq<char>)
    ensures
        forall|k: int| 0 <= k < escape(s).len() ==> (#[trigger] escape(s)[k]) as u32 >= 32,
    decreases s.len(),
{
    if s.len() > 0 {
        lemma_escape_clean(s.drop_first());
        assert forall|k: int| 0 <= k < escape(s).len() implies (#[trigger] escape(s)[k]) as u32
            >= 32 by {
            let head = escape_char(s[0]);
            if k < head.len() {
                assert(escape(s)[k] == head[k]);
                if (s[0] as u32) < 32 {
                    lemma_hex_char_val((s[0] as u32 / 16) as nat);
                    lemma_hex_char_val((s[0] as u32 % 16) as nat);
                }
            } else {
                assert(escape(s)[k] == escape(s.drop_first())[k - head.len()]);
            }
        }
    }
}

/// Appends the escape of `c` to `out`.
fn push_escape_char(out: &mut Vec<char>, c: char)
    ensures
        final(out)@ == old(out)@ + escape_char(c),
{
    if c == '"' {
        out.push('\\');
        out.push('"');
    } else if c == '\\' {
        out.push('\\');
        out.push('\\');
    } else {
        let u = c as u32;
        if u < 32 {
            out.push('\\');
            out.push('u');
            out.push('0');
            out.push('0');
            out.push(hex_char_exec(u / 16));
            out.push(hex_char_exec(u % 16));
        } else {
            out.push(c);
        }
    }
    proof {
        assert(out@ =~= old(out)@ + escape_char(c));
    }
}

/// The escaped image of `s`, as characters.
pub fn escape_str(s: &str) -> (v: Vec<char>)
    ensures
        v@ == escape(s@),
{
    let n = s.unicode_len();
    let mut out: Vec<char> = Vec::new();
    let mut k: usize = 0;
    while k < n
        invariant
            n == s@.len(),
            k <= n,
            out@ == escape(s@.take(k as int)),
        decreases n - k,
    {
        let c = s.get_char(k);
        proof {
            assert(s@.take(k + 1 as int) =~= s@.take(k as int).push(s@[k as int]));
            lemma_escape_snoc(s@.take(k as int), s@[k as int]);
        }
        push_escape_char(&mut out, c);
        k = k + 1;
    }
    proof {
        assert(s@.take(n as int) =~= s@);
    }
    out
}

/// The quoted, escaped image of `s`, as characters.
pub fn quote_str(s: &str) -> (v: Vec<char>)
    ensures
        v@ == quoted(s@),
{
    let mut out: Vec<char> = Vec::new();
    out.push('"');
    let mut body = escape_str(s);
    out.append(&mut body);
    out.push('"');
    proof {
        assert(out@ =~= quoted(s@));
    }
    out
}

/// Prepends one character to the content of a partial read.
pub open spec fn cons_char(c: char, r: Option<(Seq<char>, int)>) -> Option<(Seq<char>, int)> {
    match r {
        Some((t, j)) => Some((seq![c] + t, j)),
        None => None,
    }
}

/// Reads the body of a quoted literal from `i` up to and past the closing
/// quote, undoing the escapes, and yields the content and the position
/// after the quote.  Unescaped control characters, lone backslashes,
/// malformed `\u` escapes and a missing closing quote all fail.
pub open spec fn sp_str_body(s: Seq<char>, i: int) -> Option<(Seq<char>, int)>
    decreases s.len() - i,
{
    if i < 0 || i >= s.len() {
        None
    } else if s[i] == '"' {
        Some((Seq::empty(), i + 1))
    } else if s[i] == '\\' {
        if i + 1 >= s.len() {
            None
        } else if s[i + 1] == '"' {
            cons_char('"', sp_str_body(s, i + 2))
        } else if s[i + 1] == '\\' {
            cons_char('\\', sp_str_body(s, i + 2))
        } else if s[i + 1] == 'u' {
            if i + 6 > s.len() {
                None
            } else if s[i + 2] == '0' && s[i + 3] == '0' && is_hex(s[i + 4]) && is_hex(s[i + 5]) {
                let v = hex_val(s[i + 4]) * 16 + hex_val(s[i + 5]);
                if v < 32 {
                    cons_char((v as u32) as char, sp_str_body(s, i + 6))
                } else {
                    None
                }
            } else {
                None
            }
        } else {
            None
        }
    } else if (s[i] as u32) >= 32 {
        cons_char(s[i], sp_str_body(s, i + 1))
    } else {
        None
    }
}

/// Reads a whole quoted literal at `i`: an opening quote, then its body.
pub open spec fn sp_string(s: Seq<char>, i: int) -> Option<(Seq<char>, int)> {
    if 0 <= i < s.len() && s[i] == '"' {
        sp_str_body(s, i + 1)
    } else {
        None
    }
}

/// Reading a literal body back: where `s` holds the escape of `t` followed
/// by a closing quote, the body reads back as exactly `t`.
pub proof fn lemma_str_body_inversion(s: Seq<char>, i: int, t: Seq<char>)
    requires
        at(s, i, escape(t) + seq!['"']),
    ensures
        sp_str_body(s, i) == Some((t, i + escape(t).len() + 1)),
    decreases t.len(),
{
    if t.len() == 0 {
        assert(s[i + 0] == (escape(t) + seq!['"'])[0]);
        assert(s[i] == '"');
    } else {
        let c = t[0];
        let t2 = t.drop_first();
        assert(escape(t) == escape_char(c) + escape(t2));
        assert(escape(t) + seq!['"'] =~= escape_char(c) + (escape(t2) + seq!['"']));
        lemma_at_split(s, i, escape_char(c), escape(t2) + seq!['"']);
        let i2 = i + escape_char(c).len();
        lemma_str_body_inversion(s, i2, t2);
        assert(seq![c] + t2 =~= t);
        if c == '"' {
            assert(s[i + 0] == escape_char(c)[0]);
            assert(s[i + 1] == escape_char(c)[1]);
            assert(sp_str_body(s, i) == cons_char('"', sp_str_body(s, i + 2)));
        } else if c == '\\' {
            assert(s[i + 0] == escape_char(c)[0]);
            assert(s[i + 1] == escape_char(c)[1]);
            assert(sp_str_body(s, i) == cons_char('\\', sp_str_body(s, i + 2)));
        } else if (c as u32) < 32 {
            let hi = (c as u32 / 16) as nat;
            let lo = (c as u32 % 16) as nat;
            assert(s[i + 0] == escape_char(c)[0]);
            assert(s[i + 1] == escape_char(c)[1]);
            assert(s[i + 2] == escape_char(c)[2]);
            assert(s[i + 3] == escape_char(c)[3]);
            assert(s[i + 4] == escape_char(c)[4]);
            assert(s[i + 5] == escape_char(c)[5]);
            lemma_hex_char_val(hi);
            lemma_hex_char_val(lo);
            let v = hex_val(s[i + 4]) * 16 + hex_val(s[i + 5]);
            assert(v == hi * 16 + lo);
            assert(v == c as u32) by {
                assert(c as u32 / 16 * 16 + c as u32 % 16 == c as u32);
            }
            vstd::utf8::char_u32_cast(c, c as u32);
            assert((v as u32) as char == c);
            assert(sp_str_body(s, i) == cons_char(c, sp_str_body(s, i + 6)));
        } else {
            assert(s[i + 0] == escape_char(c)[0]);
            assert(s[i] == c);
            assert(sp_str_body(s, i) == cons_char(c, sp_str_body(s, i + 1)));
        }
    }
}

/// Whether no character of `s` is the nul character.  Text handed across
/// the boundary as a nul-terminated buffer must satisfy this.
pub open spec fn nul_free(s: Seq<char>) -> bool {
    forall|k: int| 0 <= k < s.len() ==> s[k] != '\u{0}'
}

/// Nul-freedom distributes over concatenation.
pub proof fn lemma_nul_free_concat(a: Seq<char>, b: Seq<char>)
    requires
        nul_free(a),
        nul_free(b),
    ensures
        nul_free(a + b),
{
    assert forall|k: int| 0 <= k < (a + b).len() implies (a + b)[k] != '\u{0}' by {
        if k < a.len() {
            assert((a + b)[k] == a[k]);
        } else {
            assert((a + b)[k] == b[k - a.len()]);
        }
    }
}

/// Quoted, escaped text is nul-free: every escaped character has a code of
/// at least 32.
pub proof fn lemma_nul_free_quoted(t: Seq<char>)
    ensures
        nul_free(quoted(t)),
{
    lemma_escape_clean(t);
    assert forall|k: int| 0 <= k < quoted(t).len() implies quoted(t)[k] != '\u{0}' by {
        if k == 0 {
            assert(quoted(t)[k] == '"');
        } else if k < 1 + escape(t).len() {
            assert(quoted(t)[k] == (seq!['"'] + escape(t))[k]);
            assert(quoted(t)[k] == escape(t)[k - 1]);
            assert(escape(t)[k - 1] as u32 >= 32);
            assert('\u{0}' as u32 == 0);
        } else {
            assert(quoted(t)[k] == '"');
        }
    }
}

/// Relies on `String`'s `FromIterator<char>` implementation: collecting
/// characters yields the string of exactly those characters, in order.
#[verifier::external_body]
pub(crate) fn chars_to_string(v: &Vec<char>) -> (s: String)
    ensures
        s@ == v@,
{
    v.iter().collect()
}

/// Relies on `char::from_u32`: every code below 32 is a valid scalar value
/// and converts to the character with exactly that code.
#[verifier::external_body]
fn char_from_low_code(v: u32) -> (c: char)
    requires
        v < 32,
    ensures
        c == (v as char),
{
    char::from_u32(v).unwrap()
}

/// The characters of `s`, as a vector.
pub fn str_to_chars(s: &str) -> (v: Vec<char>)
    ensures
        v@ == s@,
{
    let n = s.unicode_len();
    let mut out: Vec<char> = Vec::new();
    let mut k: usize = 0;
    while k < n
        invariant
            n == s@.len(),
            k <= n,
            out@ == s@.take(k as int),
        decreases n - k,
    {
        out.push(s.get_char(k));
        proof {
            assert(s@.take((k + 1) as int) =~= s@.take(k as int).push(s@[k as int]));
        }
        k = k + 1;
    }
    proof {
        assert(s@.take(n as int) =~= s@);
    }
    out
}

/// Value of a lower-case hexadecimal digit character, or nothing.
pub fn hex_val_exec(c: char) -> (r: Option<u32>)
    ensures
        match r {
            Some(v) => is_hex(c) && v == hex_val(c) && v < 16,
            None => !is_hex(c),
        },
{
    let u = c as u32;
    if 48 <= u && u <= 57 {
        Some(u - 48)
    } else if 97 <= u && u <= 102 {
        Some(u - 87)
    } else {
        None
    }
}

/// Relates a partial read to the whole one: reading the body at `i0` gives
/// what was already read, `pre`, followed by what reading on from `j` gives.
pub open spec fn body_cont(s: Seq<char>, i0: int, pre: Seq<char>, j: int) -> bool {
    sp_str_body(s, i0) == match sp_str_body(s, j) {
        Some((t, e)) => Some((pre + t, e)),
        None => None::<(Seq<char>, int)>,
    }
}

/// One undone escape extends the prefix and moves the cursor.
proof fn lemma_cont_step(s: Seq<char>, i0: int, pre: Seq<char>, j: int, c: char, j2: int)
    requires
        body_cont(s, i0, pre, j),
        sp_str_body(s, j) == cons_char(c, sp_str_body(s, j2)),
    ensures
        body_cont(s, i0, pre.push(c), j2),
{
    match sp_str_body(s, j2) {
        Some((t, e)) => {
            assert(pre.push(c) + t =~= pre + (seq![c] + t));
        },
        None => {},
    }
}

/// Reads a quoted literal at `i`, as [`sp_string`] describes it, and
/// returns the unescaped content with the position after the quote.
pub fn parse_string(s: &Vec<char>, i: usize) -> (r: Option<(String, usize)>)
    requires
        i <= s@.len(),
    ensures
        match r {
            Some(p) => sp_string(s@, i as int) == Some((p.0@, p.1 as int)) && i < p.1 <= s@.len(),
            None => sp_string(s@, i as int) is None,
        },
{
    if i >= s.len() {
        return None;
    }
    if s[i] != '"' {
        return None;
    }
    let mut out: Vec<char> = Vec::new();
    let mut j: usize = i + 1;
    loop
        invariant
            i + 1 <= j <= s@.len(),
            i < s@.len(),
            s@[i as int] == '"',
            body_cont(s@, i + 1, out@, j as int),
        decreases s@.len() - j,
    {
        if j >= s.len() {
            return None;
        }
        let c = s[j];
        if c == '"' {
            proof {
                assert(sp_str_body(s@, j as int) == Some((Seq::<char>::empty(), j + 1)));
                assert(out@ + Seq::<char>::empty() =~= out@);
            }
            let text = chars_to_string(&out);
            return Some((text, j + 1));
        } else if c == '\\' {
            if j + 1 >= s.len() {
                return None;
            }
            let c2 = s[j + 1];
            if c2 == '"' {
                proof {
                    lemma_cont_step(s@, i + 1, out@, j as int, '"', j + 2);
                }
                out.push('"');
                j = j + 2;
            } else if c2 == '\\' {
                proof {
                    lemma_cont_step(s@, i + 1, out@, j as int, '\\', j + 2);
                }
                out.push('\\');
                j = j + 2;
            } else if c2 == 'u' {
                if s.len() - j < 6 {
                    return None;
                }
                if s[j + 2] != '0' || s[j + 3] != '0' {
                    return None;
                }
                let h1 = match hex_val_exec(s[j + 4]) {
                    Some(v) => v,
                    None => {
                        return None;
                    },
                };
                let h2 = match hex_val_exec(s[j + 5]) {
                    Some(v) => v,
                    None => {
                        return None;
                    },
                };
                let v = h1 * 16 + h2;
                if v >= 32 {
                    return None;
                }
                let cc = char_from_low_code(v);
                proof {
                    assert(sp_str_body(s@, j as int) == cons_char(cc, sp_str_body(s@, j + 6)));
                    lemma_cont_step(s@, i + 1, out@, j as int, cc, j + 6);
                }
                out.push(cc);
                j = j + 6;
            } else {
                return None;
            }
        } else {
            let u = c as u32;
            if u < 32 {
                return None;
            }
            proof {
                lemma_cont_step(s@, i + 1, out@, j as int, c, j + 1);
            }
            out.push(c);
            j = j + 1;
        }
    }
}

/// Reading a quoted literal back: where `s` holds the quoted image of `t`
/// at `i`, the literal reads back as exactly `t`.
pub proof fn lemma_string_inversion(s: Seq<char>, i: int, t: Seq<char>)
    requires
        at(s, i, quoted(t)),
    ensures
        sp_string(s, i) == Some((t, i + quoted(t).len())),
{
    assert(quoted(t) =~= seq!['"'] + (escape(t) + seq!['"']));
    lemma_at_split(s, i, seq!['"'], escape(t) + seq!['"']);
    assert(s[i + 0] == seq!['"'][0]);
    lemma_str_body_inversion(s, i + 1, t);
}

} // verus!
