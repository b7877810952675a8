//! Character-level text handling: whitespace, trimming, and splitting.
use vstd::prelude::*;
use vstd::std_specs::iter::IteratorSpec;

verus! {

broadcast use {vstd::string::next_postcondition, vstd::string::axiom_spec_iter};

/// The Unicode `White_Space` property.
pub open spec fn white_space(c: char) -> bool {
    let u = c as u32;
    ||| 0x09 <= u <= 0x0d
    ||| u == 0x20
    ||| u == 0x85
    ||| u == 0xa0
    ||| u == 0x1680
    ||| 0x2000 <= u <= 0x200a
    ||| u == 0x2028
    ||| u == 0x2029
    ||| u == 0x202f
    ||| u == 0x205f
    ||| u == 0x3000
}

pub fn is_white_space(c: char) -> (r: bool)
    ensures
        r == white_space(c),
{
    let u = c as u32;
    (0x09 <= u && u <= 0x0d) || u == 0x20 || u == 0x85 || u == 0xa0 || u == 0x1680 || (0x2000
        <= u && u <= 0x200a) || u == 0x2028 || u == 0x2029 || u == 0x202f || u == 0x205f || u
        == 0x3000
}

/// The characters of a string, in order.
pub fn chars_of(s: &str) -> (v: Vec<char>)
    ensures
        v@ == s@,
{
    let mut it = s.chars();
    let mut v: Vec<char> = Vec::new();
    loop
        invariant
            it.obeys_prophetic_iter_laws(),
            v@ + it.remaining() == s@,
            it.decrease() is Some,
        ensures
            v@ == s@,
        decreases it.decrease()->0,
    {
        match it.next() {
            Some(c) => {
                v.push(c);
            },
            None => {
                assert(v@ =~= s@);
                break ;
            },
        }
    }
    v
}


/// The view of each string of a sequence.
pub open spec fn views(v: Seq<String>) -> Seq<Seq<char>> {
    v.map_values(|s: String| s@)
}

/// A copy of a list of strings.
pub fn copy_strings(v: &[String]) -> (r: Vec<String>)
    ensures
        views(r@) == views(v@),
{
    let mut r: Vec<String> = Vec::new();
    let mut i: usize = 0;
    while i < v.len()
        invariant
            i <= v@.len(),
            views(r@) == views(v@.subrange(0, i as int)),
        decreases v@.len() - i,
    {
        let ghost before = r@;
        r.push(v[i].clone());
        assert(views(r@) =~= views(before).push(v@[i as int]@));
        assert(views(v@.subrange(0, i + 1)) =~= views(v@.subrange(0, i as int)).push(v@[i as int]@));
        i = i + 1;
    }
    assert(v@.subrange(0, v@.len() as int) =~= v@);
    r
}

/// `s` without its leading whitespace.
pub open spec fn trim_start(s: Seq<char>) -> Seq<char>
    decreases s.len(),
{
    if s.len() > 0 && white_space(s[0]) {
        trim_start(s.subrange(1, s.len() as int))
    } else {
        s
    }
}

/// `s` without its trailing whitespace.
pub open spec fn trim_end(s: Seq<char>) -> Seq<char>
    decreases s.len(),
{
    if s.len() > 0 && white_space(s.last()) {
        trim_end(s.drop_last())
    } else {
        s
    }
}

/// `s` without leading and trailing whitespace.
pub open spec fn trim(s: Seq<char>) -> Seq<char> {
    trim_end(trim_start(s))
}

/// Bounds of the trimmed part of `chars[a..b]`.
pub fn trim_bounds(chars: &Vec<char>, a: usize, b: usize) -> (r: (usize, usize))
    requires
        a <= b <= chars@.len(),
    ensures
        a <= r.0 <= r.1 <= b,
        chars@.subrange(r.0 as int, r.1 as int) == trim(chars@.subrange(a as int, b as int)),
{
    let mut i: usize = a;
    while i < b && is_white_space(chars[i])
        invariant
            a <= i <= b <= chars@.len(),
            trim_start(chars@.subrange(a as int, b as int)) == trim_start(
                chars@.subrange(i as int, b as int),
            ),
        decreases b - i,
    {
        assert(chars@.subrange(i as int, b as int).subrange(1, (b - i) as int) =~= chars@.subrange(
            i + 1,
            b as int,
        ));
        i = i + 1;
    }
    assert(trim_start(chars@.subrange(i as int, b as int)) == chars@.subrange(i as int, b as int));
    let mut j: usize = b;
    while j > i && is_white_space(chars[j - 1])
        invariant
            a <= i <= j <= b <= chars@.len(),
            trim(chars@.subrange(a as int, b as int)) == trim_end(
                chars@.subrange(i as int, j as int),
            ),
        decreases j - i,
    {
        assert(chars@.subrange(i as int, j as int).drop_last() =~= chars@.subrange(
            i as int,
            j - 1,
        ));
        j = j - 1;
    }
    (i, j)
}

/// `s` cut at every occurrence of `sep`; there is always at least one piece.
pub open spec fn split_on(s: Seq<char>, sep: char) -> Seq<Seq<char>>
    decreases s.len(),
{
    if s.len() == 0 {
        seq![Seq::empty()]
    } else {
        let prev = split_on(s.drop_last(), sep);
        if s.last() == sep {
            prev.push(Seq::empty())
        } else {
            prev.update(prev.len() - 1, prev.last().push(s.last()))
        }
    }
}

/// Adds the trimmed `piece` to `names` unless it is empty or already there.
pub open spec fn add_name(names: Seq<Seq<char>>, piece: Seq<char>) -> Seq<Seq<char>> {
    let t = trim(piece);
    if t.len() == 0 || names.contains(t) {
        names
    } else {
        names.push(t)
    }
}

/// The trimmed, non-empty pieces, each kept at its first occurrence.
pub open spec fn collect_names(pieces: Seq<Seq<char>>) -> Seq<Seq<char>>
    decreases pieces.len(),
{
    if pieces.len() == 0 {
        Seq::empty()
    } else {
        add_name(collect_names(pieces.drop_last()), pieces.last())
    }
}

/// The names of a comma-separated list: trimmed, empty ones dropped,
/// duplicates dropped after their first occurrence.
pub open spec fn comma_list(text: Seq<char>) -> Seq<Seq<char>> {
    collect_names(split_on(text, ','))
}

fn contains_string(names: &Vec<String>, t: &String) -> (r: bool)
    ensures
        r == views(names@).contains(t@),
{
    let mut k: usize = 0;
    while k < names.len()
        invariant
            k <= names@.len(),
            forall|m: int| 0 <= m < k ==> names@[m]@ != t@,
        decreases names@.len() - k,
    {
        if names[k].eq(t) {
            assert(views(names@)[k as int] == t@);
            return true;
        }
        k = k + 1;
    }
    assert(!views(names@).contains(t@)) by {
        if views(names@).contains(t@) {
            let m = choose|m: int| 0 <= m < views(names@).len() && views(names@)[m] == t@;
            assert(names@[m]@ == t@);
        }
    }
    false
}

/// Adds the trimmed `text[a..b]` to `names` as `add_name` says.
fn push_piece(names: &mut Vec<String>, text: &str, chars: &Vec<char>, a: usize, b: usize)
    requires
        chars@ == text@,
        a <= b <= chars@.len(),
    ensures
        views(final(names)@) == add_name(views(old(names)@), chars@.subrange(a as int, b as int)),
{
    let (x, y) = trim_bounds(chars, a, b);
    if x < y {
        let t = String::from_str(text.substring_char(x, y));
        if !contains_string(names, &t) {
            names.push(t);
            assert(views(names@) =~= views(old(names)@).push(t@));
        }
    }
}

/// Parses a comma-separated list of names.
pub fn parse_comma_list(text: &str) -> (r: Vec<String>)
    ensures
        views(r@) == comma_list(text@),
{
    let chars = chars_of(text);
    let n = chars.len();
    let mut names: Vec<String> = Vec::new();
    let mut start: usize = 0;
    let mut i: usize = 0;
    let ghost mut done: Seq<Seq<char>> = Seq::empty();
    assert(chars@.subrange(0, 0) =~= Seq::<char>::empty());
    while i < n
        invariant
            n == chars@.len(),
            chars@ == text@,
            start <= i <= n,
            split_on(chars@.subrange(0, i as int), ',') == done.push(
                chars@.subrange(start as int, i as int),
            ),
            views(names@) == collect_names(done),
        decreases n - i,
    {
        let ghost prefix = chars@.subrange(0, i + 1);
        assert(prefix.drop_last() =~= chars@.subrange(0, i as int));
        if chars[i] == ',' {
            push_piece(&mut names, text, &chars, start, i);
            proof {
                let d2 = done.push(chars@.subrange(start as int, i as int));
                assert(d2.drop_last() =~= done);
                done = d2;
                assert(chars@.subrange(i + 1, i + 1) =~= Seq::<char>::empty());
            }
            start = i + 1;
        } else {
            proof {
                assert(chars@.subrange(start as int, i + 1) =~= chars@.subrange(
                    start as int,
                    i as int,
                ).push(chars@[i as int]));
                assert(done.push(chars@.subrange(start as int, i as int)).update(
                    done.len() as int,
                    chars@.subrange(start as int, i + 1),
                ) =~= done.push(chars@.subrange(start as int, i + 1)));
            }
        }
        i = i + 1;
    }
    push_piece(&mut names, text, &chars, start, n);
    proof {
        let all = done.push(chars@.subrange(start as int, n as int));
        assert(all.drop_last() =~= done);
        assert(chars@.subrange(0, n as int) =~= text@);
    }
    names
}


/// The maximal runs of non-whitespace characters of `s`, in order.
pub open spec fn words(s: Seq<char>) -> Seq<Seq<char>>
    decreases s.len(),
{
    if s.len() == 0 {
        Seq::empty()
    } else {
        let prev = words(s.drop_last());
        let c = s.last();
        if white_space(c) {
            prev
        } else if s.len() >= 2 && !white_space(s[s.len() - 2]) {
            prev.update(prev.len() - 1, prev.last().push(c))
        } else {
            prev.push(seq![c])
        }
    }
}

/// Splits `text` at whitespace, dropping the whitespace.
pub fn split_words(text: &str) -> (r: Vec<String>)
    ensures
        views(r@) == words(text@),
{
    let chars = chars_of(text);
    let n = chars.len();
    let mut out: Vec<String> = Vec::new();
    let mut start: usize = 0;
    let mut in_word = false;
    let mut i: usize = 0;
    assert(chars@.subrange(0, 0) =~= Seq::<char>::empty());
    while i < n
        invariant
            n == chars@.len(),
            chars@ == text@,
            start <= i <= n,
            in_word <==> (i > 0 && !white_space(chars@[i - 1])),
            in_word ==> start < i,
            words(chars@.subrange(0, i as int)) == if in_word {
                views(out@).push(chars@.subrange(start as int, i as int))
            } else {
                views(out@)
            },
        decreases n - i,
    {
        let ghost prefix = chars@.subrange(0, i + 1);
        assert(prefix.drop_last() =~= chars@.subrange(0, i as int));
        let c = chars[i];
        if is_white_space(c) {
            if in_word {
                let w = String::from_str(text.substring_char(start, i));
                let ghost before = out@;
                out.push(w);
                assert(views(out@) =~= views(before).push(w@));
                in_word = false;
            }
        } else {
            if in_word {
                proof {
                    let d = views(out@);
                    assert(chars@.subrange(start as int, i + 1) =~= chars@.subrange(
                        start as int,
                        i as int,
                    ).push(c));
                    assert(d.push(chars@.subrange(start as int, i as int)).update(
                        d.len() as int,
                        chars@.subrange(start as int, i + 1),
                    ) =~= d.push(chars@.subrange(start as int, i + 1)));
                }
            } else {
                start = i;
                assert(chars@.subrange(start as int, i + 1) =~= seq![c]);
            }
            in_word = true;
        }
        i = i + 1;
    }
    if in_word {
        let w = String::from_str(text.substring_char(start, n));
        let ghost before = out@;
        out.push(w);
        assert(views(out@) =~= views(before).push(w@));
    }
    assert(chars@.subrange(0, n as int) =~= text@);
    assert(views(out@) == words(text@));
    out
}

} // verus!
