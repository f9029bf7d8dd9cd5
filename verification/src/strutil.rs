//! Character-level string utilities: line-ending trimming, ASCII case
//! folding, and path extension extraction.

use vstd::prelude::*;

verus! {

/// Relies on `String::push`: appends exactly the given character.
pub assume_specification[ String::push ](s: &mut String, c: char)
    ensures
        final(s)@ == old(s)@.push(c),
;

/// Strips every trailing carriage return or line feed from `s`.
pub open spec fn trim_crlf(s: Seq<char>) -> Seq<char>
    decreases s.len(),
{
    if s.len() > 0 && (s.last() == '\r' || s.last() == '\n') {
        trim_crlf(s.drop_last())
    } else {
        s
    }
}

/// Returns `s` with every trailing `'\r'` or `'\n'` removed.
pub fn trim_line_end(s: &str) -> (r: String)
    ensures
        r@ == trim_crlf(s@),
{
    let n = s.unicode_len();
    let mut end = n;
    proof {
        assert(s@.take(n as int) =~= s@);
    }
    loop
        invariant_except_break
            end <= n,
            n == s@.len(),
            trim_crlf(s@) == trim_crlf(s@.take(end as int)),
        ensures
            end <= n,
            n == s@.len(),
            trim_crlf(s@) == trim_crlf(s@.take(end as int)),
            end > 0 ==> s@[end - 1] != '\r' && s@[end - 1] != '\n',
        decreases end,
    {
        if end == 0 {
            break;
        }
        let c = s.get_char(end - 1);
        if c == '\r' || c == '\n' {
            proof {
                assert(s@.take(end as int).last() == c);
                assert(s@.take(end as int).drop_last() =~= s@.take(end - 1));
            }
            end = end - 1;
        } else {
            proof {
                assert(s@.take(end as int).last() == c);
            }
            break;
        }
    }
    proof {
        if end > 0 {
            assert(s@.take(end as int).last() == s@[end - 1]);
            assert(trim_crlf(s@.take(end as int)) == s@.take(end as int));
        } else {
            assert(s@.take(0) =~= Seq::<char>::empty());
        }
    }
    let r = s.substring_char(0, end);
    proof {
        assert(s@.subrange(0, end as int) =~= s@.take(end as int));
    }
    r.to_owned()
}

/// ASCII lower-casing of a single character; anything outside `'A'..='Z'`
/// is left unchanged.
pub open spec fn lower_char(c: char) -> char {
    if 'A' <= c && c <= 'Z' {
        (((c as u32) + 32) as u8) as char
    } else {
        c
    }
}

/// ASCII lower-casing of a character sequence.
pub open spec fn lower_chars(s: Seq<char>) -> Seq<char> {
    s.map_values(|c: char| lower_char(c))
}

/// Lower-cases the ASCII letters of `s`, leaving every other character
/// unchanged.
pub fn ascii_lowercase(s: &str) -> (r: String)
    ensures
        r@ == lower_chars(s@),
{
    let n = s.unicode_len();
    let mut out = String::new();
    let mut i: usize = 0;
    while i < n
        invariant
            i <= n,
            n == s@.len(),
            out@ =~= lower_chars(s@.take(i as int)),
        decreases n - i,
    {
        let c = s.get_char(i);
        let lc: char = if c >= 'A' && c <= 'Z' {
            (((c as u32) + 32) as u8) as char
        } else {
            c
        };
        out.push(lc);
        proof {
            assert(lower_chars(s@.take(i + 1)) =~= lower_chars(s@.take(i as int)).push(
                lower_char(c),
            ));
        }
        i = i + 1;
    }
    proof {
        assert(s@.take(n as int) =~= s@);
    }
    out
}

/// Decides whether two string slices hold the same characters.
pub fn str_eq(a: &str, b: &str) -> (r: bool)
    ensures
        r == (a@ == b@),
{
    let na = a.unicode_len();
    let nb = b.unicode_len();
    if na != nb {
        return false;
    }
    let mut i: usize = 0;
    while i < na
        invariant
            i <= na,
            na == a@.len(),
            na == b@.len(),
            forall|k: int| 0 <= k < i ==> a@[k] == b@[k],
        decreases na - i,
    {
        if a.get_char(i) != b.get_char(i) {
            return false;
        }
        i = i + 1;
    }
    proof {
        assert(a@ =~= b@);
    }
    true
}

/// Whether `c` occurs in `s`.
pub open spec fn has_char(s: Seq<char>, c: char) -> bool {
    exists|i: int| 0 <= i < s.len() && s[i] == c
}

/// The suffix of `s` after the last occurrence of `c`; all of `s` when
/// `c` does not occur.
pub open spec fn after_last(s: Seq<char>, c: char) -> Seq<char>
    decreases s.len(),
{
    if s.len() == 0 {
        s
    } else if s.last() == c {
        Seq::<char>::empty()
    } else {
        after_last(s.drop_last(), c).push(s.last())
    }
}

/// Splitting at a position after which `c` never occurs splits
/// `after_last` accordingly.
proof fn lemma_after_last_suffix(s: Seq<char>, c: char, i: int)
    requires
        0 <= i <= s.len(),
        forall|m: int| i <= m < s.len() ==> s[m] != c,
    ensures
        after_last(s, c) =~= after_last(s.take(i), c) + s.skip(i),
    decreases s.len() - i,
{
    if i == s.len() {
        assert(s.take(i) =~= s);
        assert(s.skip(i) =~= Seq::<char>::empty());
    } else {
        assert(s.last() != c);
        lemma_after_last_suffix(s.drop_last(), c, i);
        assert(s.drop_last().take(i) =~= s.take(i));
        assert(s.drop_last().skip(i).push(s.last()) =~= s.skip(i));
    }
}

/// The index of the last occurrence of `c` in `s`, if any.
pub fn last_index_of(s: &str, c: char) -> (r: Option<usize>)
    ensures
        r matches Some(i) ==> i < s@.len() && s@[i as int] == c && (forall|m: int|
            i < m < s@.len() ==> s@[m] != c),
        r is None ==> forall|m: int| 0 <= m < s@.len() ==> s@[m] != c,
{
    let n = s.unicode_len();
    let mut end = n;
    loop
        invariant_except_break
            end <= n,
            n == s@.len(),
            forall|m: int| end <= m < s@.len() ==> s@[m] != c,
        ensures
            end <= n,
            n == s@.len(),
            forall|m: int| end <= m < s@.len() ==> s@[m] != c,
            end > 0 ==> s@[end - 1] == c,
        decreases end,
    {
        if end == 0 {
            break;
        }
        let ch = s.get_char(end - 1);
        if ch == c {
            break;
        }
        end = end - 1;
    }
    if end == 0 {
        None
    } else {
        Some(end - 1)
    }
}

/// The extension of a path rendered as text: the part of the final
/// component (the text after the last `/`) that follows its last dot,
/// provided that dot is not the component's first character.
pub open spec fn spec_extension(p: Seq<char>) -> Option<Seq<char>> {
    let name = after_last(p, '/');
    let ext = after_last(name, '.');
    if has_char(name, '.') && ext.len() + 1 < name.len() {
        Option::Some(ext)
    } else {
        Option::None
    }
}

/// Extracts the extension of a path rendered as text.
pub fn extension_str(p: &str) -> (r: Option<String>)
    ensures
        (r is Some <==> spec_extension(p@) is Some),
        r matches Some(e) ==> spec_extension(p@) matches Some(se) && e@ == se,
{
    let n = p.unicode_len();
    let name_start: usize = match last_index_of(p, '/') {
        Some(i) => i + 1,
        None => 0,
    };
    proof {
        lemma_after_last_suffix(p@, '/', name_start as int);
        if name_start > 0 {
            assert(p@.take(name_start as int).last() == '/');
            assert(after_last(p@.take(name_start as int), '/') =~= Seq::<char>::empty());
        } else {
            assert(p@.take(0) =~= Seq::<char>::empty());
        }
        assert(after_last(p@, '/') =~= p@.skip(name_start as int));
    }
    let name = p.substring_char(name_start, n);
    proof {
        assert(p@.subrange(name_start as int, n as int) =~= p@.skip(name_start as int));
        assert(name@ =~= after_last(p@, '/'));
    }
    let name_len = name.unicode_len();
    match last_index_of(name, '.') {
        None => {
            proof {
                assert(!has_char(name@, '.'));
            }
            None
        },
        Some(j) => {
            proof {
                assert(has_char(name@, '.'));
                lemma_after_last_suffix(name@, '.', j + 1);
                assert(name@.take(j + 1).last() == '.');
                assert(after_last(name@.take(j + 1), '.') =~= Seq::<char>::empty());
                assert(after_last(name@, '.') =~= name@.skip(j + 1));
            }
            if j > 0 {
                let ext = name.substring_char(j + 1, name_len);
                proof {
                    assert(name@.subrange(j + 1, name_len as int) =~= name@.skip(j + 1));
                }
                Some(ext.to_owned())
            } else {
                proof {
                    assert(after_last(name@, '.').len() + 1 >= name@.len());
                }
                None
            }
        },
    }
}

} // verus!
