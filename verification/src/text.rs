//! Text helpers: character access, ordering, matching and decimal numbers.

use vstd::prelude::*;
use vstd::std_specs::iter::IteratorSpec;

verus! {

/// The characters of `s`, for constant-time indexing.
pub fn to_chars(s: &str) -> (chars: Vec<char>)
    ensures
        chars@ == s@,
{
    let mut chars: Vec<char> = Vec::new();
    for c in it: s.chars()
        invariant
            chars@ == it.seq().take(it.index() as int),
            it.seq() == s@,
    {
        chars.push(c);
    }
    chars
}

/// Strict lexicographic order on character sequences, characters compared by
/// code point. This is the order of `str`, and of byte-wise comparison of
/// UTF-8 text.
pub open spec fn lex_less(a: Seq<char>, b: Seq<char>) -> bool
    decreases a.len(),
{
    if b.len() == 0 {
        false
    } else if a.len() == 0 {
        true
    } else if a[0] == b[0] {
        lex_less(a.drop_first(), b.drop_first())
    } else {
        (a[0] as u32) < (b[0] as u32)
    }
}

/// `a` comes before `b` or equals it.
pub open spec fn lex_le(a: Seq<char>, b: Seq<char>) -> bool {
    !lex_less(b, a)
}

/// Whether `a` comes strictly before `b` in lexicographic order.
pub fn str_less(a: &str, b: &str) -> (less: bool)
    ensures
        less == lex_less(a@, b@),
{
    let mut xs = a.chars();
    let mut ys = b.chars();
    loop
        invariant
            lex_less(a@, b@) == lex_less(xs.remaining(), ys.remaining()),
            xs.decrease() is Some,
        decreases xs.decrease()->0,
    {
        match ys.next() {
            None => {
                return false;
            },
            Some(y) => {
                match xs.next() {
                    None => {
                        return true;
                    },
                    Some(x) => {
                        if x != y {
                            return (x as u32) < (y as u32);
                        }
                    },
                }
            },
        }
    }
}

/// Whether two strings hold the same characters.
pub fn str_eq(a: &str, b: &str) -> (same: bool)
    ensures
        same == (a@ == b@),
{
    let mut xs = a.chars();
    let mut ys = b.chars();
    loop
        invariant
            (a@ == b@) == (xs.remaining() == ys.remaining()),
            xs.decrease() is Some,
        decreases xs.decrease()->0,
    {
        let ghost xr = xs.remaining();
        let ghost yr = ys.remaining();
        match xs.next() {
            None => {
                let end = ys.next();
                assert(xr == yr <==> yr.len() == 0) by {
                    if yr.len() == 0 {
                        assert(xr =~= yr);
                    }
                }
                return end.is_none();
            },
            Some(x) => {
                match ys.next() {
                    None => {
                        return false;
                    },
                    Some(y) => {
                        if x != y {
                            return false;
                        }
                        assert(xr == yr <==> xr.drop_first() == yr.drop_first()) by {
                            if xr.drop_first() == yr.drop_first() {
                                assert(xr =~= seq![x] + xr.drop_first());
                                assert(yr =~= seq![y] + yr.drop_first());
                            }
                        }
                    },
                }
            },
        }
    }
}

/// Nothing comes before itself.
pub proof fn lex_less_irreflexive(a: Seq<char>)
    ensures
        !lex_less(a, a),
    decreases a.len(),
{
    if a.len() > 0 {
        lex_less_irreflexive(a.drop_first());
    }
}

/// The order is transitive.
pub proof fn lex_less_transitive(a: Seq<char>, b: Seq<char>, c: Seq<char>)
    requires
        lex_less(a, b),
        lex_less(b, c),
    ensures
        lex_less(a, c),
    decreases a.len(),
{
    if a.len() > 0 && a[0] == b[0] && b[0] == c[0] {
        lex_less_transitive(a.drop_first(), b.drop_first(), c.drop_first());
    }
}

/// Of two different sequences one comes before the other.
pub proof fn lex_less_total(a: Seq<char>, b: Seq<char>)
    ensures
        lex_less(a, b) || lex_less(b, a) || a == b,
    decreases a.len(),
{
    if a.len() == 0 || b.len() == 0 {
        if a.len() == 0 && b.len() == 0 {
            assert(a =~= b);
        }
    } else if a[0] == b[0] {
        lex_less_total(a.drop_first(), b.drop_first());
        if a.drop_first() == b.drop_first() {
            assert(a =~= seq![a[0]] + a.drop_first());
            assert(b =~= seq![b[0]] + b.drop_first());
        }
    } else {
        vstd::utf8::char_u32_cast(a[0], a[0] as u32);
        vstd::utf8::char_u32_cast(b[0], b[0] as u32);
    }
}

/// No two sequences come before each other.
pub proof fn lex_less_asymmetric(a: Seq<char>, b: Seq<char>)
    requires
        lex_less(a, b),
    ensures
        !lex_less(b, a),
{
    if lex_less(b, a) {
        lex_less_transitive(a, b, a);
        lex_less_irreflexive(a);
    }
}

/// `lex_le` is transitive.
pub proof fn lex_le_transitive(a: Seq<char>, b: Seq<char>, c: Seq<char>)
    requires
        lex_le(a, b),
        lex_le(b, c),
    ensures
        lex_le(a, c),
{
    if lex_less(c, a) {
        lex_less_total(a, b);
        lex_less_total(b, c);
        if a == b {
        } else if b == c {
        } else {
            lex_less_transitive(c, a, b);
        }
    }
}

/// Whether `c` is the letter `lower`, in either case. `lower` is a lower-case
/// ASCII letter or any other character, which then only matches itself.
pub open spec fn same_letter(c: char, lower: char) -> bool {
    c == lower || (0x61 <= lower as u32 <= 0x7a && c as u32 + 0x20 == lower as u32)
}

/// Whether `name` ends with `ext`, ASCII letters compared without regard to
/// case. `ext` is given in lower case.
pub open spec fn has_extension(name: Seq<char>, ext: Seq<char>) -> bool {
    &&& ext.len() <= name.len()
    &&& forall|i: int|
        0 <= i < ext.len() ==> same_letter(#[trigger] name[name.len() - ext.len() + i], ext[i])
}

/// `name` without its last `ext.len()` characters.
pub open spec fn stem(name: Seq<char>, ext: Seq<char>) -> Seq<char> {
    name.take(name.len() - ext.len())
}

/// Runtime form of [`same_letter`].
pub fn is_same_letter(c: char, lower: char) -> (same: bool)
    ensures
        same == same_letter(c, lower),
{
    let l: u32 = lower as u32;
    c == lower || (0x61 <= l && l <= 0x7a && c as u32 + 0x20 == l)
}

/// Whether the file name `name` carries the extension `ext`, whatever the
/// case of its letters. `ext` is given in lower case, with its dot.
pub fn ends_with_extension(name: &str, ext: &str) -> (found: bool)
    ensures
        found == has_extension(name@, ext@),
{
    let name_chars: Vec<char> = to_chars(name);
    let ext_chars: Vec<char> = to_chars(ext);
    if ext_chars.len() > name_chars.len() {
        return false;
    }
    let start: usize = name_chars.len() - ext_chars.len();
    let mut i: usize = 0;
    while i < ext_chars.len()
        invariant
            i <= ext_chars.len(),
            name_chars@ == name@,
            ext_chars@ == ext@,
            start + ext_chars.len() == name_chars.len(),
            forall|k: int| 0 <= k < i ==> same_letter(#[trigger] name@[start + k], ext@[k]),
        decreases ext_chars.len() - i,
    {
        if !is_same_letter(name_chars[start + i], ext_chars[i]) {
            assert(!same_letter(name@[name@.len() - ext@.len() + i], ext@[i as int]));
            return false;
        }
        i = i + 1;
    }
    true
}

/// The file name without its extension: `Some` of the stem where `name` ends
/// with `ext` in any case, `None` where it does not.
pub fn strip_extension(name: &str, ext: &str) -> (stripped: Option<String>)
    ensures
        has_extension(name@, ext@) ==> stripped is Some && stripped->0@ == stem(name@, ext@),
        !has_extension(name@, ext@) ==> stripped is None,
{
    if ends_with_extension(name, ext) {
        let keep: usize = name.unicode_len() - ext.unicode_len();
        Some(name.substring_char(0, keep).to_owned())
    } else {
        None
    }
}

/// Whether `needle` stands in `hay` at position `i`.
pub open spec fn occurs_at(hay: Seq<char>, needle: Seq<char>, i: int) -> bool {
    &&& 0 <= i
    &&& i + needle.len() <= hay.len()
    &&& hay.subrange(i, i + needle.len()) == needle
}

/// Whether `needle` stands somewhere in `hay`.
pub open spec fn contains_text(hay: Seq<char>, needle: Seq<char>) -> bool {
    exists|i: int| occurs_at(hay, needle, i)
}

/// Whether `i` is the first position at which `needle` stands in `hay`.
pub open spec fn first_occurrence(hay: Seq<char>, needle: Seq<char>, i: int) -> bool {
    &&& occurs_at(hay, needle, i)
    &&& forall|j: int| 0 <= j < i ==> !occurs_at(hay, needle, j)
}

/// Runtime form of [`occurs_at`].
pub fn matches_at(hay: &Vec<char>, needle: &Vec<char>, i: usize) -> (found: bool)
    ensures
        found == occurs_at(hay@, needle@, i as int),
{
    if needle.len() > hay.len() || i > hay.len() - needle.len() {
        return false;
    }
    let mut k: usize = 0;
    while k < needle.len()
        invariant
            k <= needle.len(),
            i + needle.len() <= hay.len(),
            forall|j: int| 0 <= j < k ==> hay@[i + j] == needle@[j],
        decreases needle.len() - k,
    {
        if hay[i + k] != needle[k] {
            assert(hay@.subrange(i as int, i + needle.len())[k as int] == hay@[i + k]);
            return false;
        }
        k = k + 1;
    }
    assert(hay@.subrange(i as int, i + needle.len()) =~= needle@);
    true
}

/// The first position at which `needle` stands in `hay`, if there is one.
pub fn find_chars(hay: &Vec<char>, needle: &Vec<char>) -> (found: Option<usize>)
    ensures
        match found {
            Some(i) => first_occurrence(hay@, needle@, i as int),
            None => !contains_text(hay@, needle@),
        },
{
    if needle.len() > hay.len() {
        return None;
    }
    let last: usize = hay.len() - needle.len();
    let mut i: usize = 0;
    loop
        invariant
            i <= last,
            last + needle.len() == hay.len(),
            forall|j: int| 0 <= j < i ==> !occurs_at(hay@, needle@, j),
        decreases last - i,
    {
        if matches_at(hay, needle, i) {
            return Some(i);
        }
        if i == last {
            return None;
        }
        i = i + 1;
    }
}

/// The first position, counted in characters, at which `needle` stands in
/// `hay`, if there is one.
pub fn find_text(hay: &str, needle: &str) -> (found: Option<usize>)
    ensures
        match found {
            Some(i) => first_occurrence(hay@, needle@, i as int),
            None => !contains_text(hay@, needle@),
        },
{
    let hay_chars: Vec<char> = to_chars(hay);
    let needle_chars: Vec<char> = to_chars(needle);
    find_chars(&hay_chars, &needle_chars)
}

/// Whether `needle` stands somewhere in `hay`.
pub fn str_contains(hay: &str, needle: &str) -> (found: bool)
    ensures
        found == contains_text(hay@, needle@),
{
    find_text(hay, needle).is_some()
}

/// `text` with the first occurrence of `token` replaced.
pub open spec fn replaced_first(
    text: Seq<char>,
    token: Seq<char>,
    replacement: Seq<char>,
    at: int,
) -> Seq<char> {
    text.take(at) + replacement + text.skip(at + token.len())
}

/// Where `needle` stands in `hay`, it stands there at a first position.
pub proof fn first_occurrence_exists(hay: Seq<char>, needle: Seq<char>, i: int)
    requires
        occurs_at(hay, needle, i),
    ensures
        exists|j: int| 0 <= j <= i && first_occurrence(hay, needle, j),
    decreases i,
{
    if exists|k: int| 0 <= k < i && occurs_at(hay, needle, k) {
        let k = choose|k: int| 0 <= k < i && occurs_at(hay, needle, k);
        first_occurrence_exists(hay, needle, k);
    } else {
        assert(first_occurrence(hay, needle, i));
    }
}

/// A text in which an occurrence of `token` is replaced by `token` is the
/// text as it was.
pub proof fn replacing_by_itself_changes_nothing(text: Seq<char>, token: Seq<char>, at: int)
    requires
        occurs_at(text, token, at),
    ensures
        replaced_first(text, token, token, at) == text,
{
    assert(text.subrange(at, at + token.len()) == token);
    assert(replaced_first(text, token, token, at) =~= text);
}

/// Replaces the first occurrence of `token` in `text` by `replacement`; a
/// text without the token comes back unchanged.
pub fn replace_first(text: &str, token: &str, replacement: &str) -> (out: String)
    ensures
        !contains_text(text@, token@) ==> out@ == text@,
        forall|i: int|
            first_occurrence(text@, token@, i) ==> out@ == replaced_first(
                text@,
                token@,
                replacement@,
                i,
            ),
{
    match find_text(text, token) {
        None => text.to_owned(),
        Some(at) => {
            let total: usize = text.unicode_len();
            let width: usize = token.unicode_len();
            let mut out: String = text.substring_char(0, at).to_owned();
            out.append(replacement);
            out.append(text.substring_char(at + width, total));
            proof {
                assert forall|i: int| first_occurrence(text@, token@, i) implies i == at by {
                    if i < at {
                        assert(!occurs_at(text@, token@, i));
                    } else if at < i {
                        assert(!occurs_at(text@, token@, at as int));
                    }
                }
            }
            out
        },
    }
}

/// The decimal digit for `d`, which is below ten.
pub open spec fn digit_char(d: int) -> char {
    if d == 0 {
        '0'
    } else if d == 1 {
        '1'
    } else if d == 2 {
        '2'
    } else if d == 3 {
        '3'
    } else if d == 4 {
        '4'
    } else if d == 5 {
        '5'
    } else if d == 6 {
        '6'
    } else if d == 7 {
        '7'
    } else if d == 8 {
        '8'
    } else {
        '9'
    }
}

/// The decimal numeral of `n`, without leading zeros.
pub open spec fn decimal(n: nat) -> Seq<char>
    decreases n,
{
    if n < 10 {
        seq![digit_char(n as int)]
    } else {
        decimal(n / 10).push(digit_char((n % 10) as int))
    }
}

/// The digit `d` as text.
pub fn digit_str(d: u64) -> (text: &'static str)
    requires
        d < 10,
    ensures
        text@ == seq![digit_char(d as int)],
{
    proof {
        reveal_strlit("0");
        reveal_strlit("1");
        reveal_strlit("2");
        reveal_strlit("3");
        reveal_strlit("4");
        reveal_strlit("5");
        reveal_strlit("6");
        reveal_strlit("7");
        reveal_strlit("8");
        reveal_strlit("9");
    }
    let text: &'static str = if d == 0 {
        "0"
    } else if d == 1 {
        "1"
    } else if d == 2 {
        "2"
    } else if d == 3 {
        "3"
    } else if d == 4 {
        "4"
    } else if d == 5 {
        "5"
    } else if d == 6 {
        "6"
    } else if d == 7 {
        "7"
    } else if d == 8 {
        "8"
    } else {
        "9"
    };
    assert(text@ =~= seq![digit_char(d as int)]);
    text
}

/// Appends the decimal numeral of `n` to `out`.
pub fn push_decimal(out: &mut String, n: u64)
    ensures
        final(out)@ == old(out)@ + decimal(n as nat),
    decreases n,
{
    if n >= 10 {
        push_decimal(out, n / 10);
    }
    out.append(digit_str(n % 10));
    assert(final(out)@ =~= old(out)@ + decimal(n as nat));
}

/// The decimal numeral of `n`.
pub fn decimal_string(n: u64) -> (text: String)
    ensures
        text@ == decimal(n as nat),
{
    let mut text: String = String::new();
    push_decimal(&mut text, n);
    assert(text@ =~= decimal(n as nat));
    text
}

} // verus!
