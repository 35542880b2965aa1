//! Character-level helpers shared by the parsers and renderers.

use vstd::prelude::*;
use vstd::string::*;

verus! {

/// Relies on `String::push`: appends the given character to the end of the
/// string.
#[verifier::external_body]
pub(crate) fn push_char(s: &mut String, c: char)
    ensures
        final(s)@ == old(s)@.push(c),
{
    s.push(c);
}

/// The characters of a string slice, in order.
pub fn to_chars(s: &str) -> (v: Vec<char>)
    ensures
        v@ == s@,
{
    let n = s.unicode_len();
    let mut v: Vec<char> = Vec::new();
    let mut i: usize = 0;
    while i < n
        invariant
            i <= n,
            n == s@.len(),
            v@ == s@.take(i as int),
        decreases n - i,
    {
        let c = s.get_char(i);
        v.push(c);
        proof {
            assert(s@.take(i as int).push(s@[i as int]) =~= s@.take(i + 1 as int));
        }
        i += 1;
    }
    proof {
        assert(s@.take(n as int) =~= s@);
    }
    v
}

/// The string made of `v[from..to]`.
pub fn substring_chars(v: &Vec<char>, from: usize, to: usize) -> (s: String)
    requires
        from <= to <= v@.len(),
    ensures
        s@ == v@.subrange(from as int, to as int),
{
    let mut s = String::new();
    let mut i: usize = from;
    while i < to
        invariant
            from <= i <= to <= v@.len(),
            s@ == v@.subrange(from as int, i as int),
        decreases to - i,
    {
        push_char(&mut s, v[i]);
        proof {
            assert(v@.subrange(from as int, i as int).push(v@[i as int]) =~= v@.subrange(
                from as int,
                i + 1 as int,
            ));
        }
        i += 1;
    }
    s
}

/// The string made of all of `v`.
pub fn chars_to_string(v: &Vec<char>) -> (s: String)
    ensures
        s@ == v@,
{
    let s = substring_chars(v, 0, v.len());
    proof {
        assert(v@.subrange(0, v@.len() as int) =~= v@);
    }
    s
}

/// Whether `c` occurs in `s`.
pub open spec fn has_char(s: Seq<char>, c: char) -> bool {
    exists|i: int| 0 <= i < s.len() && s[i] == c
}

/// The index of the first occurrence of `c` in `s`; meaningful only when
/// `has_char(s, c)`.
pub open spec fn first_index(s: Seq<char>, c: char) -> int
    decreases s.len(),
{
    if s.len() == 0 {
        0
    } else if s[0] == c {
        0
    } else {
        1 + first_index(s.skip(1), c)
    }
}

/// When `c` occurs in `s`, `first_index` names its first occurrence.
pub proof fn lemma_first_index(s: Seq<char>, c: char)
    requires
        has_char(s, c),
    ensures
        0 <= first_index(s, c) < s.len(),
        s[first_index(s, c)] == c,
        forall|j: int| 0 <= j < first_index(s, c) ==> s[j] != c,
    decreases s.len(),
{
    if s[0] == c {
    } else {
        assert(has_char(s.skip(1), c)) by {
            let i = choose|i: int| 0 <= i < s.len() && s[i] == c;
            assert(s.skip(1)[i - 1] == c);
        }
        lemma_first_index(s.skip(1), c);
        let k = first_index(s.skip(1), c);
        assert(s[1 + k] == s.skip(1)[k]);
        assert forall|j: int| 0 <= j < first_index(s, c) implies s[j] != c by {
            if j > 0 {
                assert(s.skip(1)[j - 1] == s[j]);
            }
        }
    }
}

/// Any index with the first-occurrence property is `first_index`.
pub proof fn lemma_first_index_unique(s: Seq<char>, c: char, k: int)
    requires
        0 <= k < s.len(),
        s[k] == c,
        forall|j: int| 0 <= j < k ==> s[j] != c,
    ensures
        first_index(s, c) == k,
{
    assert(has_char(s, c));
    lemma_first_index(s, c);
    let f = first_index(s, c);
    if f < k {
        assert(s[f] != c);
    } else if k < f {
        assert(s[k] != c);
    }
}

/// The index of the first occurrence of `c`, if any.
pub fn find_char(v: &Vec<char>, c: char) -> (r: Option<usize>)
    ensures
        match r {
            Some(k) => has_char(v@, c) && first_index(v@, c) == k && k < v@.len() && v@[
                k as int
            ] == c && forall|j: int| 0 <= j < k ==> v@[j] != c,
            None => !has_char(v@, c),
        },
{
    let mut i: usize = 0;
    while i < v.len()
        invariant
            i <= v@.len(),
            forall|j: int| 0 <= j < i ==> v@[j] != c,
        decreases v@.len() - i,
    {
        if v[i] == c {
            proof {
                lemma_first_index_unique(v@, c, i as int);
            }
            return Some(i);
        }
        i += 1;
    }
    None
}

/// The characters treated as blank when trimming.
pub open spec fn is_blank(c: char) -> bool {
    c == ' ' || c == '\t' || c == '　'
}

/// `s` without its leading blanks.
pub open spec fn trim_start_model(s: Seq<char>) -> Seq<char>
    decreases s.len(),
{
    if s.len() > 0 && is_blank(s[0]) {
        trim_start_model(s.skip(1))
    } else {
        s
    }
}

/// `s` without its trailing blanks.
pub open spec fn trim_end_model(s: Seq<char>) -> Seq<char>
    decreases s.len(),
{
    if s.len() > 0 && is_blank(s.last()) {
        trim_end_model(s.drop_last())
    } else {
        s
    }
}

/// `s` without leading and trailing blanks.
pub open spec fn trim_model(s: Seq<char>) -> Seq<char> {
    trim_end_model(trim_start_model(s))
}

/// Whether `c` is blank, executable form.
pub fn is_blank_char(c: char) -> (r: bool)
    ensures
        r == is_blank(c),
{
    c == ' ' || c == '\t' || c == '　'
}

/// The string made of `v[from..]` without leading and trailing blanks.
pub fn trim_chars(v: &Vec<char>, from: usize) -> (s: String)
    requires
        from <= v@.len(),
    ensures
        s@ == trim_model(v@.skip(from as int)),
{
    proof {
        assert(v@.skip(from as int) =~= v@.subrange(from as int, v@.len() as int));
    }
    let mut a: usize = from;
    while a < v.len() && is_blank_char(v[a])
        invariant
            from <= a <= v@.len(),
            trim_start_model(v@.subrange(from as int, v@.len() as int)) == trim_start_model(
                v@.subrange(a as int, v@.len() as int),
            ),
        decreases v@.len() - a,
    {
        proof {
            let cur = v@.subrange(a as int, v@.len() as int);
            assert(cur[0] == v@[a as int]);
            assert(cur.skip(1) =~= v@.subrange(a + 1 as int, v@.len() as int));
        }
        a += 1;
    }
    proof {
        let tail = v@.subrange(a as int, v@.len() as int);
        if a < v.len() {
            assert(tail[0] == v@[a as int]);
        }
        assert(trim_start_model(tail) == tail);
    }
    let mut b: usize = v.len();
    while b > a && is_blank_char(v[b - 1])
        invariant
            a <= b <= v@.len(),
            trim_end_model(v@.subrange(a as int, v@.len() as int)) == trim_end_model(
                v@.subrange(a as int, b as int),
            ),
        decreases b,
    {
        proof {
            let cur = v@.subrange(a as int, b as int);
            assert(cur.last() == v@[b - 1 as int]);
            assert(cur.drop_last() =~= v@.subrange(a as int, b - 1 as int));
        }
        b -= 1;
    }
    proof {
        let mid = v@.subrange(a as int, b as int);
        if b > a {
            assert(mid.last() == v@[b - 1 as int]);
        }
        assert(trim_end_model(mid) == mid);
    }
    substring_chars(v, a, b)
}

/// The models of a sequence of strings.
pub open spec fn strings_model(ls: Seq<String>) -> Seq<Seq<char>> {
    ls.map_values(|l: String| l@)
}

/// `l` without one trailing carriage return, if it has one.
pub open spec fn strip_one_cr(l: Seq<char>) -> Seq<char> {
    if l.len() > 0 && l.last() == '\r' {
        l.drop_last()
    } else {
        l
    }
}

/// The lines of `s`: split at `\n` or `\r\n`, no trailing empty line for a
/// final line ending.
pub open spec fn split_lines(s: Seq<char>) -> Seq<Seq<char>>
    decreases s.len(),
{
    if s.len() == 0 {
        Seq::empty()
    } else if s.len() >= 2 && s[0] == '\r' && s[1] == '\n' {
        seq![Seq::<char>::empty()] + split_lines(s.skip(2))
    } else if s[0] == '\n' {
        seq![Seq::<char>::empty()] + split_lines(s.skip(1))
    } else {
        let tail = split_lines(s.skip(1));
        if tail.len() == 0 {
            seq![seq![s[0]]]
        } else {
            seq![seq![s[0]] + tail[0]] + tail.drop_first()
        }
    }
}

/// Removing the head of a sequence keeps a character absent.
pub proof fn lemma_has_char_skip1(s: Seq<char>, c: char)
    requires
        !has_char(s, c),
        s.len() > 0,
    ensures
        !has_char(s.skip(1), c),
        s[0] != c,
{
    if has_char(s.skip(1), c) {
        let i = choose|i: int| 0 <= i < s.skip(1).len() && s.skip(1)[i] == c;
        assert(s[i + 1] == c);
    }
    if s[0] == c {
        assert(has_char(s, c));
    }
}

/// A newline after a newline-free prefix splits off exactly that prefix,
/// with one carriage return before the newline stripped.
pub proof fn lemma_split_lines_newline(cur: Seq<char>, rest: Seq<char>)
    requires
        !has_char(cur, '\n'),
    ensures
        split_lines(cur + seq!['\n'] + rest) == seq![strip_one_cr(cur)] + split_lines(rest),
    decreases cur.len(),
{
    let s = cur + seq!['\n'] + rest;
    if cur.len() == 0 {
        assert(s =~= seq!['\n'] + rest);
        assert(s[0] == '\n');
        assert(s.skip(1) =~= rest);
        assert(split_lines(s) == seq![Seq::<char>::empty()] + split_lines(rest));
        assert(strip_one_cr(cur) =~= Seq::<char>::empty());
    } else if cur.len() == 1 && cur[0] == '\r' {
        assert(s =~= seq!['\r', '\n'] + rest);
        assert(s.len() >= 2 && s[0] == '\r' && s[1] == '\n');
        assert(s.skip(2) =~= rest);
        assert(strip_one_cr(cur) =~= Seq::<char>::empty());
    } else {
        lemma_has_char_skip1(cur, '\n');
        assert(s[0] == cur[0]);
        if cur[0] == '\r' {
            assert(cur.len() >= 2);
            assert(s[1] == cur[1]);
            assert(cur[1] == cur.skip(1)[0]);
            lemma_has_char_skip1(cur.skip(1), '\n');
        }
        assert(!(s.len() >= 2 && s[0] == '\r' && s[1] == '\n'));
        assert(s.skip(1) =~= cur.skip(1) + seq!['\n'] + rest);
        lemma_split_lines_newline(cur.skip(1), rest);
        let tail = split_lines(s.skip(1));
        assert(tail == seq![strip_one_cr(cur.skip(1))] + split_lines(rest));
        assert(tail.len() >= 1);
        assert(tail[0] == strip_one_cr(cur.skip(1)));
        assert(tail.drop_first() =~= split_lines(rest));
        if cur.last() == '\r' {
            assert(cur.skip(1).len() > 0 && cur.skip(1).last() == '\r');
            assert(seq![cur[0]] + cur.skip(1).drop_last() =~= cur.drop_last());
        } else {
            if cur.skip(1).len() > 0 {
                assert(cur.skip(1).last() == cur.last());
            }
            assert(seq![cur[0]] + cur.skip(1) =~= cur);
        }
        assert(seq![cur[0]] + strip_one_cr(cur.skip(1)) == strip_one_cr(cur));
        assert(split_lines(s) == seq![seq![s[0]] + tail[0]] + tail.drop_first());
        assert(seq![seq![s[0]] + tail[0]] + tail.drop_first() =~= seq![strip_one_cr(cur)]
            + split_lines(rest));
    }
}

/// A non-empty newline-free text is one single line, kept whole.
pub proof fn lemma_split_lines_last(cur: Seq<char>)
    requires
        cur.len() > 0,
        !has_char(cur, '\n'),
    ensures
        split_lines(cur) == seq![cur],
    decreases cur.len(),
{
    lemma_has_char_skip1(cur, '\n');
    if cur.len() >= 2 {
        assert(cur[1] == cur.skip(1)[0]);
        lemma_has_char_skip1(cur.skip(1), '\n');
    }
    assert(!(cur.len() >= 2 && cur[0] == '\r' && cur[1] == '\n'));
    if cur.len() == 1 {
        assert(split_lines(cur.skip(1)) =~= Seq::<Seq<char>>::empty());
        assert(split_lines(cur) == seq![seq![cur[0]]]);
        assert(seq![cur[0]] =~= cur);
        assert(split_lines(cur) =~= seq![cur]);
    } else {
        lemma_split_lines_last(cur.skip(1));
        let tail = split_lines(cur.skip(1));
        assert(tail == seq![cur.skip(1)]);
        assert(seq![cur[0]] + tail[0] =~= cur);
        assert(tail.drop_first() =~= Seq::<Seq<char>>::empty());
        assert(split_lines(cur) =~= seq![cur]);
    }
}

/// The lines of `v`, as owned strings.
pub fn split_lines_vec(v: &Vec<char>) -> (r: Vec<String>)
    ensures
        strings_model(r@) == split_lines(v@),
{
    let mut out: Vec<String> = Vec::new();
    let mut cur: Vec<char> = Vec::new();
    let mut i: usize = 0;
    proof {
        assert(cur@ + v@.skip(0) =~= v@);
        assert(strings_model(out@) + split_lines(v@) =~= split_lines(v@));
    }
    while i < v.len()
        invariant
            i <= v@.len(),
            !has_char(cur@, '\n'),
            split_lines(v@) == strings_model(out@) + split_lines(cur@ + v@.skip(i as int)),
        decreases v@.len() - i,
    {
        let c = v[i];
        proof {
            assert(v@.skip(i as int)[0] == v@[i as int]);
        }
        if c == '\n' {
            let line = if cur.len() > 0 && cur[cur.len() - 1] == '\r' {
                proof {
                    assert(cur@.subrange(0, cur@.len() - 1) =~= cur@.drop_last());
                }
                substring_chars(&cur, 0, cur.len() - 1)
            } else {
                chars_to_string(&cur)
            };
            proof {
                assert(line@ == strip_one_cr(cur@));
                lemma_split_lines_newline(cur@, v@.skip(i + 1 as int));
                assert(cur@ + v@.skip(i as int) =~= cur@ + seq!['\n'] + v@.skip(i + 1 as int));
                lemma_strings_model_push(out@, line);
                assert(strings_model(out@) + (seq![strip_one_cr(cur@)] + split_lines(
                    v@.skip(i + 1 as int),
                )) =~= strings_model(out@.push(line)) + split_lines(v@.skip(i + 1 as int)));
                assert(Seq::<char>::empty() + v@.skip(i + 1 as int) =~= v@.skip(i + 1 as int));
            }
            out.push(line);
            cur = Vec::new();
        } else {
            proof {
                assert(cur@ + v@.skip(i as int) =~= cur@.push(c) + v@.skip(i + 1 as int));
                assert(!has_char(cur@.push(c), '\n')) by {
                    if has_char(cur@.push(c), '\n') {
                        let j = choose|j: int|
                            0 <= j < cur@.push(c).len() && cur@.push(c)[j] == '\n';
                        if j < cur@.len() {
                            assert(has_char(cur@, '\n'));
                        }
                    }
                };
            }
            cur.push(c);
        }
        i += 1;
    }
    proof {
        assert(cur@ + v@.skip(v@.len() as int) =~= cur@);
    }
    if cur.len() > 0 {
        let line = chars_to_string(&cur);
        proof {
            lemma_split_lines_last(cur@);
            lemma_strings_model_push(out@, line);
            assert(strings_model(out@) + seq![cur@] =~= strings_model(out@.push(line)));
        }
        out.push(line);
    } else {
        proof {
            assert(split_lines(cur@) =~= Seq::<Seq<char>>::empty());
            assert(strings_model(out@) + Seq::<Seq<char>>::empty() =~= strings_model(out@));
        }
    }
    out
}

/// `s` split at every occurrence of `sep`; empty pieces are kept, and the
/// empty text is one empty piece.
pub open spec fn split_on(s: Seq<char>, sep: char) -> Seq<Seq<char>>
    decreases s.len(),
{
    if s.len() == 0 {
        seq![Seq::<char>::empty()]
    } else if s[0] == sep {
        seq![Seq::<char>::empty()] + split_on(s.skip(1), sep)
    } else {
        let tail = split_on(s.skip(1), sep);
        seq![seq![s[0]] + tail[0]] + tail.drop_first()
    }
}

/// A separator after a separator-free prefix splits off exactly that prefix.
pub proof fn lemma_split_on_sep(cur: Seq<char>, rest: Seq<char>, sep: char)
    requires
        !has_char(cur, sep),
    ensures
        split_on(cur + seq![sep] + rest, sep) == seq![cur] + split_on(rest, sep),
    decreases cur.len(),
{
    let s = cur + seq![sep] + rest;
    if cur.len() == 0 {
        assert(s =~= seq![sep] + rest);
        assert(s[0] == sep);
        assert(s.skip(1) =~= rest);
        assert(cur =~= Seq::<char>::empty());
        assert(split_on(s, sep) =~= seq![cur] + split_on(rest, sep));
    } else {
        lemma_has_char_skip1(cur, sep);
        assert(s[0] == cur[0]);
        assert(s.skip(1) =~= cur.skip(1) + seq![sep] + rest);
        lemma_split_on_sep(cur.skip(1), rest, sep);
        let tail = split_on(s.skip(1), sep);
        assert(tail == seq![cur.skip(1)] + split_on(rest, sep));
        assert(tail[0] == cur.skip(1));
        assert(tail.drop_first() =~= split_on(rest, sep));
        assert(seq![cur[0]] + cur.skip(1) =~= cur);
        assert(split_on(s, sep) == seq![seq![s[0]] + tail[0]] + tail.drop_first());
        assert(seq![seq![s[0]] + tail[0]] + tail.drop_first() =~= seq![cur] + split_on(
            rest,
            sep,
        ));
    }
}

/// A separator-free text is one single piece.
pub proof fn lemma_split_on_last(cur: Seq<char>, sep: char)
    requires
        !has_char(cur, sep),
    ensures
        split_on(cur, sep) == seq![cur],
    decreases cur.len(),
{
    if cur.len() == 0 {
        assert(cur =~= Seq::<char>::empty());
        assert(split_on(cur, sep) =~= seq![cur]);
    } else {
        lemma_has_char_skip1(cur, sep);
        lemma_split_on_last(cur.skip(1), sep);
        let tail = split_on(cur.skip(1), sep);
        assert(tail[0] == cur.skip(1));
        assert(seq![cur[0]] + tail[0] =~= cur);
        assert(tail.drop_first() =~= Seq::<Seq<char>>::empty());
        assert(split_on(cur, sep) =~= seq![cur]);
    }
}

/// The pieces of `v[from..]` split at every `sep`, as owned strings.
pub fn split_on_vec(v: &Vec<char>, from: usize, sep: char) -> (r: Vec<String>)
    requires
        from <= v@.len(),
    ensures
        strings_model(r@) == split_on(v@.skip(from as int), sep),
{
    let ghost whole = v@.skip(from as int);
    let mut out: Vec<String> = Vec::new();
    let mut cur: Vec<char> = Vec::new();
    let mut i: usize = from;
    proof {
        assert(cur@ + whole.skip(0) =~= whole);
        assert(strings_model(out@) + split_on(whole, sep) =~= split_on(whole, sep));
    }
    while i < v.len()
        invariant
            from <= i <= v@.len(),
            whole == v@.skip(from as int),
            !has_char(cur@, sep),
            split_on(whole, sep) == strings_model(out@) + split_on(
                cur@ + whole.skip(i - from as int),
                sep,
            ),
        decreases v@.len() - i,
    {
        let c = v[i];
        proof {
            assert(whole.skip(i - from as int)[0] == v@[i as int]);
        }
        if c == sep {
            let piece = chars_to_string(&cur);
            proof {
                lemma_split_on_sep(cur@, whole.skip(i + 1 - from as int), sep);
                assert(cur@ + whole.skip(i - from as int) =~= cur@ + seq![sep] + whole.skip(
                    i + 1 - from as int,
                ));
                lemma_strings_model_push(out@, piece);
                assert(strings_model(out@) + (seq![cur@] + split_on(
                    whole.skip(i + 1 - from as int),
                    sep,
                )) =~= strings_model(out@.push(piece)) + split_on(
                    whole.skip(i + 1 - from as int),
                    sep,
                ));
                assert(Seq::<char>::empty() + whole.skip(i + 1 - from as int) =~= whole.skip(
                    i + 1 - from as int,
                ));
            }
            out.push(piece);
            cur = Vec::new();
        } else {
            proof {
                assert(cur@ + whole.skip(i - from as int) =~= cur@.push(c) + whole.skip(
                    i + 1 - from as int,
                ));
                assert(!has_char(cur@.push(c), sep)) by {
                    if has_char(cur@.push(c), sep) {
                        let j = choose|j: int|
                            0 <= j < cur@.push(c).len() && cur@.push(c)[j] == sep;
                        if j < cur@.len() {
                            assert(has_char(cur@, sep));
                        }
                    }
                };
            }
            cur.push(c);
        }
        i += 1;
    }
    let piece = chars_to_string(&cur);
    proof {
        assert(cur@ + whole.skip(v@.len() - from as int) =~= cur@);
        lemma_split_on_last(cur@, sep);
        lemma_strings_model_push(out@, piece);
        assert(strings_model(out@) + seq![cur@] =~= strings_model(out@.push(piece)));
    }
    out.push(piece);
    out
}

/// Mapping to models commutes with appending one string.
pub proof fn lemma_strings_model_push(ls: Seq<String>, l: String)
    ensures
        strings_model(ls.push(l)) == strings_model(ls).push(l@),
{
    assert(strings_model(ls.push(l)) =~= strings_model(ls).push(l@));
}

} // verus!
