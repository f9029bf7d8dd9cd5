//! Parsing of a rendered result line back into a jump target: the
//! `file:line:col: text` shape that the report formatters produce.

use vstd::prelude::*;

use crate::strutil::has_char;

verus! {

/// Whether `c` is an ASCII decimal digit.
pub open spec fn is_digit(c: char) -> bool {
    '0' <= c && c <= '9'
}

/// The value of one ASCII decimal digit.
pub open spec fn digit_val(c: char) -> nat
    recommends
        is_digit(c),
{
    (c as u32 - 48) as nat
}

/// Whether every character of `s` is an ASCII decimal digit.
pub open spec fn all_digits(s: Seq<char>) -> bool {
    forall|i: int| 0 <= i < s.len() ==> is_digit(#[trigger] s[i])
}

/// The value of a sequence of ASCII decimal digits, most significant
/// first.
pub open spec fn digits_val(s: Seq<char>) -> nat
    decreases s.len(),
{
    if s.len() == 0 {
        0
    } else {
        digits_val(s.drop_last()) * 10 + digit_val(s.last())
    }
}

/// A digit string's value never shrinks as digits are appended.
proof fn lemma_digits_val_prefix_le(s: Seq<char>, j: int)
    requires
        0 <= j <= s.len(),
    ensures
        digits_val(s.take(j)) <= digits_val(s),
    decreases s.len() - j,
{
    if j < s.len() {
        assert(s.take(j + 1).drop_last() =~= s.take(j));
        assert(digits_val(s.take(j + 1)) == digits_val(s.take(j)) * 10 + digit_val(
            s.take(j + 1).last(),
        ));
        lemma_digits_val_prefix_le(s, j + 1);
    } else {
        assert(s.take(j) =~= s);
    }
}

/// Parses a nonempty, all-digit decimal line number whose value fits a
/// 32-bit signed integer; returns `None` on anything else.
pub fn parse_line_number(s: &str) -> (r: Option<i32>)
    ensures
        r matches Some(v) ==> s@.len() > 0 && all_digits(s@) && v as int == digits_val(s@),
        r is None <==> !(s@.len() > 0 && all_digits(s@) && digits_val(s@) <= 0x7fffffff),
{
    let n = s.unicode_len();
    if n == 0 {
        return None;
    }
    let mut acc: u64 = 0;
    let mut i: usize = 0;
    while i < n
        invariant
            i <= n,
            n == s@.len(),
            all_digits(s@.take(i as int)),
            acc as nat == digits_val(s@.take(i as int)),
            acc <= 0x7fffffff,
        decreases n - i,
    {
        let c = s.get_char(i);
        if c < '0' || c > '9' {
            return None;
        }
        let d: u64 = (c as u32 - 48) as u64;
        proof {
            assert(s@.take(i + 1).drop_last() =~= s@.take(i as int));
            assert(s@.take(i + 1).last() == c);
        }
        acc = acc * 10 + d;
        if acc > 0x7fffffff {
            proof {
                lemma_digits_val_prefix_le(s@, i + 1);
            }
            return None;
        }
        i = i + 1;
    }
    proof {
        assert(s@.take(n as int) =~= s@);
    }
    Some(acc as i32)
}

/// The position of the first occurrence of `c` in `s`; `s.len()` when
/// `c` does not occur.
pub open spec fn first_index(s: Seq<char>, c: char) -> int
    decreases s.len(),
{
    if s.len() == 0 {
        0
    } else if s.first() == c {
        0
    } else {
        1 + first_index(s.drop_first(), c)
    }
}

/// A position holding `c`, with `c` nowhere earlier, is the first
/// occurrence.
proof fn lemma_first_index(s: Seq<char>, c: char, i: int)
    requires
        0 <= i < s.len(),
        s[i] == c,
        forall|m: int| 0 <= m < i ==> s[m] != c,
    ensures
        first_index(s, c) == i,
    decreases i,
{
    if i > 0 {
        assert(s.first() != c);
        assert(s.drop_first()[i - 1] == s[i]);
        assert(forall|m: int| 0 <= m < i - 1 ==> #[trigger] s.drop_first()[m] == s[m + 1]);
        lemma_first_index(s.drop_first(), c, i - 1);
    }
}

/// The index of the first occurrence of `c` in `s`, if any.
pub fn first_index_of(s: &str, c: char) -> (r: Option<usize>)
    ensures
        r matches Some(i) ==> i < s@.len() && s@[i as int] == c && first_index(s@, c) == i
            && has_char(s@, c),
        r is None ==> !has_char(s@, c),
{
    let n = s.unicode_len();
    let mut i: usize = 0;
    while i < n
        invariant
            i <= n,
            n == s@.len(),
            forall|m: int| 0 <= m < i ==> s@[m] != c,
        decreases n - i,
    {
        if s.get_char(i) == c {
            proof {
                lemma_first_index(s@, c, i as int);
            }
            return Some(i);
        }
        i = i + 1;
    }
    None
}

/// The jump target encoded in a rendered result line, if any: the text
/// before the first colon as the file, and the all-digit field between
/// the first and second colons (or the line's end) as the 1-based line
/// number. Header lines (starting with `=`), empty lines, lines without
/// a colon, and malformed or oversized line-number fields encode no
/// target.
pub open spec fn spec_goto_target(line: Seq<char>) -> Option<(Seq<char>, int)> {
    if line.len() == 0 || line.first() == '=' || !has_char(line, ':') {
        Option::None
    } else {
        let i = first_index(line, ':');
        let rest = line.skip(i + 1);
        let j = if has_char(rest, ':') {
            first_index(rest, ':')
        } else {
            rest.len() as int
        };
        let field = rest.take(j);
        if field.len() > 0 && all_digits(field) && digits_val(field) <= 0x7fffffff {
            Option::Some((line.take(i), digits_val(field) as int))
        } else {
            Option::None
        }
    }
}

/// Parses a rendered result line into its jump target.
pub fn parse_goto_line(line: &str) -> (r: Option<(String, i32)>)
    ensures
        r matches Some(t) ==> spec_goto_target(line@) matches Some(st) && t.0@ == st.0 && t.1
            as int == st.1,
        r is None <==> spec_goto_target(line@) is None,
{
    let n = line.unicode_len();
    if n == 0 {
        return None;
    }
    if line.get_char(0) == '=' {
        return None;
    }
    let sep: usize = match first_index_of(line, ':') {
        None => {
            return None;
        },
        Some(i) => i,
    };
    let file = line.substring_char(0, sep);
    let rest = line.substring_char(sep + 1, n);
    proof {
        assert(line@.subrange(0, sep as int) =~= line@.take(sep as int));
        assert(line@.subrange(sep + 1, n as int) =~= line@.skip(sep + 1));
    }
    let rest_len = rest.unicode_len();
    let field_end: usize = match first_index_of(rest, ':') {
        None => rest_len,
        Some(j) => j,
    };
    let field = rest.substring_char(0, field_end);
    proof {
        assert(rest@.subrange(0, field_end as int) =~= rest@.take(field_end as int));
        let i = first_index(line@, ':');
        assert(i == sep as int);
        let sprest = line@.skip(i + 1);
        assert(rest@ =~= sprest);
        let j: int = if has_char(sprest, ':') {
            first_index(sprest, ':')
        } else {
            sprest.len() as int
        };
        assert(j == field_end as int);
        assert(field@ =~= sprest.take(j));
        assert(file@ =~= line@.take(i));
    }
    match parse_line_number(field) {
        Some(v) => Some((file.to_owned(), v)),
        None => None,
    }
}

} // verus!
