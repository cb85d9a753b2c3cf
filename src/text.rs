use vstd::prelude::*;
use vstd::string::*;

verus! {

/// Whether `c` has the Unicode `White_Space` property, the set of characters
/// that `char::is_whitespace` accepts.
pub open spec fn is_space(c: char) -> bool {
    let n = c as u32;
    (0x09 <= n && n <= 0x0d) || n == 0x20 || n == 0x85 || n == 0xa0 || n == 0x1680 || (0x2000 <= n
        && n <= 0x200a) || n == 0x2028 || n == 0x2029 || n == 0x202f || n == 0x205f || n == 0x3000
}

/// `s` without its leading white space.
pub open spec fn trim_start(s: Seq<char>) -> Seq<char>
    decreases s.len(),
{
    if s.len() > 0 && is_space(s[0]) {
        trim_start(s.drop_first())
    } else {
        s
    }
}

/// Whether `p` is a prefix of `s`.
pub open spec fn has_prefix(s: Seq<char>, p: Seq<char>) -> bool {
    p.len() <= s.len() && s.subrange(0, p.len() as int) == p
}

/// The maximal runs of non-space characters of `s`, in order: what
/// `str::split_whitespace` yields.
pub open spec fn words(s: Seq<char>) -> Seq<Seq<char>>
    decreases s.len(),
{
    if s.len() == 0 {
        seq![]
    } else {
        let init = s.drop_last();
        let ws = words(init);
        if is_space(s.last()) {
            ws
        } else if init.len() > 0 && !is_space(init.last()) {
            ws.drop_last().push(ws.last().push(s.last()))
        } else {
            ws.push(seq![s.last()])
        }
    }
}

/// The pieces of `s` between occurrences of `sep`, empty pieces included:
/// what `str::split` yields for a character pattern.
pub open spec fn fields(s: Seq<char>, sep: char) -> Seq<Seq<char>>
    decreases s.len(),
{
    if s.len() == 0 {
        seq![seq![]]
    } else {
        let f = fields(s.drop_last(), sep);
        if s.last() == sep {
            f.push(seq![])
        } else {
            f.drop_last().push(f.last().push(s.last()))
        }
    }
}

/// `name` appended to the directory `dir` as `Path::join` does on Unix for
/// these strings: an absolute `name` replaces `dir`, an empty `dir` adds
/// nothing, and one separator stands between the two.
pub open spec fn joined(dir: Seq<char>, name: Seq<char>) -> Seq<char> {
    if name.len() > 0 && name[0] == '/' {
        name
    } else if dir.len() == 0 {
        name
    } else if dir.last() == '/' {
        dir + name
    } else {
        dir + seq!['/'] + name
    }
}

/// The view of an optional string.
pub open spec fn opt_view(o: Option<String>) -> Option<Seq<char>> {
    match o {
        Some(s) => Some(s@),
        None => None,
    }
}

/// Executable form of [`is_space`].
pub fn is_space_char(c: char) -> (r: bool)
    ensures
        r == is_space(c),
{
    let n = c as u32;
    (0x09 <= n && n <= 0x0d) || n == 0x20 || n == 0x85 || n == 0xa0 || n == 0x1680 || (0x2000 <= n
        && n <= 0x200a) || n == 0x2028 || n == 0x2029 || n == 0x202f || n == 0x205f || n == 0x3000
}

/// The index of the first character of `s` that is not white space.
pub fn leading_space_len(s: &str) -> (i: usize)
    ensures
        i <= s@.len(),
        trim_start(s@) == s@.subrange(i as int, s@.len() as int),
{
    let n = s.unicode_len();
    let mut i: usize = 0;
    assert(s@.subrange(0, n as int) =~= s@);
    while i < n && is_space_char(s.get_char(i))
        invariant
            n == s@.len(),
            i <= n,
            trim_start(s@) == trim_start(s@.subrange(i as int, n as int)),
        decreases n - i,
    {
        assert(s@.subrange(i as int, n as int).drop_first() =~= s@.subrange(i + 1, n as int));
        i = i + 1;
    }
    i
}

/// Whether `s`, once its leading white space is skipped, starts with `keyword`.
pub fn starts_with_after_space(s: &str, keyword: &str) -> (r: bool)
    ensures
        r == has_prefix(trim_start(s@), keyword@),
{
    let n = s.unicode_len();
    let k = keyword.unicode_len();
    let i = leading_space_len(s);
    let ghost rest = s@.subrange(i as int, n as int);
    if n - i < k {
        return false;
    }
    let mut j: usize = 0;
    while j < k
        invariant
            n == s@.len(),
            k == keyword@.len(),
            i + k <= n,
            j <= k,
            rest == s@.subrange(i as int, n as int),
            trim_start(s@) == rest,
            forall|m: int| 0 <= m < j ==> rest[m] == keyword@[m],
        decreases k - j,
    {
        if s.get_char(i + j) != keyword.get_char(j) {
            assert(rest[j as int] == s@[i + j]);
            assert(rest.subrange(0, k as int)[j as int] == rest[j as int]);
            assert(rest.subrange(0, k as int) != keyword@);
            return false;
        }
        j = j + 1;
    }
    assert(rest.subrange(0, k as int) =~= keyword@);
    true
}

/// The words of `s`, as `str::split_whitespace` gives them.
pub fn split_words(s: &str) -> (r: Vec<String>)
    ensures
        r.deep_view() == words(s@),
{
    let n = s.unicode_len();
    let mut out: Vec<String> = Vec::new();
    let mut start: usize = 0;
    let mut in_word = false;
    let mut i: usize = 0;
    while i < n
        invariant
            n == s@.len(),
            i <= n,
            in_word ==> start < i && !is_space(s@[i - 1]),
            !in_word ==> (i == 0 || is_space(s@[i - 1])),
            words(s@.take(i as int)) == out.deep_view() + (if in_word {
                seq![s@.subrange(start as int, i as int)]
            } else {
                seq![]
            }),
        decreases n - i,
    {
        let c = s.get_char(i);
        let ghost before = out.deep_view();
        assert(s@.take(i + 1).drop_last() =~= s@.take(i as int));
        assert(s@.take(i + 1).last() == c);
        if is_space_char(c) {
            if in_word {
                let w = String::from_str(s.substring_char(start, i));
                out.push(w);
                assert(out.deep_view() =~= before.push(s@.subrange(start as int, i as int)));
                in_word = false;
            } else {
                assert(before + seq![] =~= before);
            }
        } else {
            if in_word {
                assert(s@.subrange(start as int, i as int).push(c) =~= s@.subrange(
                    start as int,
                    i + 1,
                ));
                assert((before + seq![s@.subrange(start as int, i as int)]).drop_last() =~= before);
                assert(before + seq![s@.subrange(start as int, i + 1)] =~= (before + seq![
                    s@.subrange(start as int, i as int),
                ]).drop_last().push(s@.subrange(start as int, i + 1)));
            } else {
                start = i;
                in_word = true;
                assert(before + seq![] =~= before);
                assert(seq![c] =~= s@.subrange(i as int, i + 1));
                assert(before + seq![s@.subrange(i as int, i + 1)] =~= before.push(seq![c]));
            }
        }
        i = i + 1;
    }
    assert(s@.take(n as int) =~= s@);
    if in_word {
        let ghost before = out.deep_view();
        let w = String::from_str(s.substring_char(start, n));
        out.push(w);
        assert(out.deep_view() =~= before + seq![s@.subrange(start as int, n as int)]);
    } else {
        assert(out.deep_view() + seq![] =~= out.deep_view());
    }
    out
}

/// The pieces of `s` between occurrences of `sep`, as `str::split` gives them.
pub fn split_fields(s: &str, sep: char) -> (r: Vec<String>)
    ensures
        r.deep_view() == fields(s@, sep),
{
    let n = s.unicode_len();
    let mut out: Vec<String> = Vec::new();
    let mut start: usize = 0;
    let mut i: usize = 0;
    assert(s@.take(0) =~= seq![]);
    assert(s@.subrange(0, 0) =~= seq![]);
    assert(out.deep_view().push(s@.subrange(0, 0)) =~= seq![seq![]]);
    while i < n
        invariant
            n == s@.len(),
            start <= i <= n,
            fields(s@.take(i as int), sep) == out.deep_view().push(
                s@.subrange(start as int, i as int),
            ),
        decreases n - i,
    {
        let c = s.get_char(i);
        let ghost before = out.deep_view();
        assert(s@.take(i + 1).drop_last() =~= s@.take(i as int));
        assert(s@.take(i + 1).last() == c);
        if c == sep {
            let w = String::from_str(s.substring_char(start, i));
            out.push(w);
            assert(out.deep_view() =~= before.push(s@.subrange(start as int, i as int)));
            start = i + 1;
            assert(s@.subrange(start as int, i + 1) =~= seq![]);
        } else {
            assert(s@.subrange(start as int, i as int).push(c) =~= s@.subrange(
                start as int,
                i + 1,
            ));
            assert(before.push(s@.subrange(start as int, i as int)).drop_last() =~= before);
        }
        i = i + 1;
    }
    assert(s@.take(n as int) =~= s@);
    let ghost before = out.deep_view();
    let w = String::from_str(s.substring_char(start, n));
    out.push(w);
    assert(out.deep_view() =~= before.push(s@.subrange(start as int, n as int)));
    out
}

/// Appends copies of `items` to `out`.
pub fn append_strings(out: &mut Vec<String>, items: &Vec<String>)
    ensures
        final(out).deep_view() == old(out).deep_view() + items.deep_view(),
{
    let ghost start = out.deep_view();
    let mut i: usize = 0;
    while i < items.len()
        invariant
            i <= items@.len(),
            out.deep_view() == start + items.deep_view().take(i as int),
        decreases items@.len() - i,
    {
        let ghost before = out.deep_view();
        out.push(items[i].clone());
        assert(items.deep_view().take(i + 1) =~= items.deep_view().take(i as int).push(items[i as int]@));
        assert(out.deep_view() =~= before.push(items[i as int]@));
        i = i + 1;
    }
    assert(items.deep_view().take(i as int) =~= items.deep_view());
}

/// A copy of `items`.
pub fn copy_strings(items: &Vec<String>) -> (r: Vec<String>)
    ensures
        r.deep_view() == items.deep_view(),
{
    let mut r: Vec<String> = Vec::new();
    assert(r.deep_view() =~= seq![]);
    append_strings(&mut r, items);
    assert(seq![] + items.deep_view() =~= items.deep_view());
    r
}

/// `dir` and `name` joined into one path, as `Path::join` joins them.
pub fn join_path(dir: &str, name: &str) -> (r: String)
    ensures
        r@ == joined(dir@, name@),
{
    let nl = name.unicode_len();
    if nl > 0 && name.get_char(0) == '/' {
        return String::from_str(name);
    }
    let dl = dir.unicode_len();
    if dl == 0 {
        return String::from_str(name);
    }
    let mut r = String::from_str(dir);
    if dir.get_char(dl - 1) != '/' {
        proof {
            reveal_strlit("/");
        }
        r.append("/");
    }
    r.append(name);
    r
}

} // verus!
