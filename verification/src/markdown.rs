use vstd::prelude::*;

use crate::text::{chars_of, push_char_to};

verus! {

/// `s` with every newline that directly follows another newline left out: each run of blank
/// lines becomes a single line break (what replacing every match of `\n{2,}` by `\n` gives).
pub open spec fn squeeze_newlines(s: Seq<char>, after_newline: bool) -> Seq<char>
    decreases s.len(),
{
    if s.len() == 0 {
        s
    } else if s[0] == '\n' {
        if after_newline {
            squeeze_newlines(s.drop_first(), true)
        } else {
            seq!['\n'] + squeeze_newlines(s.drop_first(), true)
        }
    } else {
        seq![s[0]] + squeeze_newlines(s.drop_first(), false)
    }
}

/// Collapses each run of two or more newlines in `s` into one newline.
pub fn collapse_blank_lines(s: &str) -> (r: String)
    ensures
        r@ == squeeze_newlines(s@, false),
{
    let v = chars_of(s);
    let n = v.len();
    let mut out = String::new();
    let mut after = false;
    let mut i: usize = 0;
    assert(v@.skip(0) =~= v@);
    while i < n
        invariant
            n == v.len(),
            i <= n,
            out@ + squeeze_newlines(v@.skip(i as int), after) == squeeze_newlines(v@, false),
        decreases n - i,
    {
        let c = v[i];
        let ghost rest = v@.skip(i as int);
        assert(rest.drop_first() =~= v@.skip(i + 1));
        if c == '\n' {
            if !after {
                push_char_to(&mut out, c);
            }
            after = true;
        } else {
            push_char_to(&mut out, c);
            after = false;
        }
        i = i + 1;
    }
    assert(v@.skip(0) =~= v@);
    assert(v@.skip(n as int) =~= Seq::<char>::empty());
    out
}

/// Whether `s` holds two newlines in a row.
pub open spec fn has_blank_line_run(s: Seq<char>) -> bool {
    exists|i: int| 0 <= i < s.len() - 1 && #[trigger] s[i] == '\n' && s[i + 1] == '\n'
}

proof fn lemma_squeeze_shape(s: Seq<char>, after: bool)
    ensures
        !has_blank_line_run(squeeze_newlines(s, after)),
        after ==> squeeze_newlines(s, after).len() == 0 || squeeze_newlines(s, after)[0] != '\n',
    decreases s.len(),
{
    if s.len() > 0 {
        let r = squeeze_newlines(s, after);
        if s[0] == '\n' {
            lemma_squeeze_shape(s.drop_first(), true);
            if !after {
                let t = squeeze_newlines(s.drop_first(), true);
                assert(r =~= seq!['\n'] + t);
                assert forall|i: int| 0 <= i < r.len() - 1 && #[trigger] r[i] == '\n' implies r[i
                    + 1] != '\n' by {
                    if i > 0 {
                        assert(r[i] == t[i - 1] && r[i + 1] == t[i]);
                    }
                }
            }
        } else {
            lemma_squeeze_shape(s.drop_first(), false);
            let t = squeeze_newlines(s.drop_first(), false);
            assert(r =~= seq![s[0]] + t);
            assert forall|i: int| 0 <= i < r.len() - 1 && #[trigger] r[i] == '\n' implies r[i + 1]
                != '\n' by {
                if i > 0 {
                    assert(r[i] == t[i - 1] && r[i + 1] == t[i]);
                }
            }
        }
    }
}

/// After collapsing, no two newlines stand next to each other.
pub proof fn lemma_collapsed_has_no_blank_line_run(s: Seq<char>)
    ensures
        !has_blank_line_run(squeeze_newlines(s, false)),
{
    lemma_squeeze_shape(s, false);
}

/// Four `#` characters in a row.
pub open spec fn h4_mark() -> Seq<char> {
    seq!['#', '#', '#', '#']
}

/// `s` with each `####` turned into `###`, scanning from the left and never reusing a `#`
/// (what replacing every match of `####` by `###` gives).
pub open spec fn shift_h4(s: Seq<char>) -> Seq<char>
    decreases s.len(),
{
    if s.len() >= 4 && s.take(4) == h4_mark() {
        seq!['#', '#', '#'] + shift_h4(s.skip(4))
    } else if s.len() == 0 {
        s
    } else {
        seq![s[0]] + shift_h4(s.drop_first())
    }
}

/// Turns every `####` of `s` into `###`, so that level-four headings become level-three ones.
pub fn demote_h4_headings(s: &str) -> (r: String)
    ensures
        r@ == shift_h4(s@),
{
    let v = chars_of(s);
    let n = v.len();
    let mut out = String::new();
    let mut i: usize = 0;
    assert(v@.skip(0) =~= v@);
    while i < n
        invariant
            n == v.len(),
            i <= n,
            out@ + shift_h4(v@.skip(i as int)) == shift_h4(v@),
        decreases n - i,
    {
        let ghost rest = v@.skip(i as int);
        if n - i >= 4 && v[i] == '#' && v[i + 1] == '#' && v[i + 2] == '#' && v[i + 3] == '#' {
            assert(rest.take(4) =~= h4_mark());
            assert(rest.skip(4) =~= v@.skip(i + 4));
            push_char_to(&mut out, '#');
            push_char_to(&mut out, '#');
            push_char_to(&mut out, '#');
            i = i + 4;
        } else {
            assert(rest.len() >= 4 ==> rest.take(4) != h4_mark()) by {
                if rest.len() >= 4 && rest.take(4) == h4_mark() {
                    assert(rest.take(4)[0] == v@[i as int]);
                    assert(rest.take(4)[1] == v@[i + 1]);
                    assert(rest.take(4)[2] == v@[i + 2]);
                    assert(rest.take(4)[3] == v@[i + 3]);
                }
            }
            assert(rest.drop_first() =~= v@.skip(i + 1));
            push_char_to(&mut out, v[i]);
            i = i + 1;
        }
    }
    assert(v@.skip(0) =~= v@);
    assert(v@.skip(n as int) =~= Seq::<char>::empty());
    out
}

/// The first `)` at or after `a` with no newline before it on the way.
pub open spec fn closing_paren(s: Seq<char>, a: int) -> Option<int>
    decreases s.len() - a,
{
    if a < 0 || a >= s.len() {
        None
    } else if s[a] == ')' {
        Some(a)
    } else if s[a] == '\n' {
        None
    } else {
        closing_paren(s, a + 1)
    }
}

/// The first `](` at or after `a`, with no newline before it on the way, that a `)` later
/// closes on the same line: the positions of that `]` and of that `)`.
pub open spec fn link_target(s: Seq<char>, a: int) -> Option<(int, int)>
    decreases s.len() - a,
{
    if a < 0 || a + 1 >= s.len() {
        None
    } else if s[a] == ']' && s[a + 1] == '(' && closing_paren(s, a + 2) is Some {
        Some((a, closing_paren(s, a + 2)->0))
    } else if s[a] == '\n' {
        None
    } else {
        link_target(s, a + 1)
    }
}

/// The Markdown image `![alt](url)` that starts at `p`, as the positions of its `]` and its
/// closing `)`, taking the shortest alt text and then the shortest url that fit on one line.
pub open spec fn image_at(s: Seq<char>, p: int) -> Option<(int, int)> {
    if 0 <= p && p + 1 < s.len() && s[p] == '!' && s[p + 1] == '[' {
        link_target(s, p + 2)
    } else {
        None
    }
}

/// The url of the first Markdown image `![alt](url)` in `s` at or after `p` (what the first
/// match of `!\[.*?\]\((.*?)\)` captures in its group).
pub open spec fn image_url_from(s: Seq<char>, p: int) -> Option<Seq<char>>
    decreases s.len() - p,
{
    if p < 0 || p >= s.len() {
        None
    } else {
        match image_at(s, p) {
            Some(m) => Some(s.subrange(m.0 + 2, m.1)),
            None => image_url_from(s, p + 1),
        }
    }
}

/// The url of the first Markdown image in `s`.
pub open spec fn first_image_url_spec(s: Seq<char>) -> Option<Seq<char>> {
    image_url_from(s, 0)
}

proof fn lemma_closing_paren_bounds(s: Seq<char>, a: int)
    ensures
        closing_paren(s, a) matches Some(k) ==> 0 <= a <= k < s.len(),
    decreases s.len() - a,
{
    if 0 <= a < s.len() && s[a] != ')' && s[a] != '\n' {
        lemma_closing_paren_bounds(s, a + 1);
    }
}

proof fn lemma_link_target_bounds(s: Seq<char>, a: int)
    ensures
        link_target(s, a) matches Some(m) ==> 0 <= a <= m.0 && m.0 + 2 <= m.1 < s.len(),
    decreases s.len() - a,
{
    if 0 <= a && a + 1 < s.len() {
        lemma_closing_paren_bounds(s, a + 2);
        if !(s[a] == ']' && s[a + 1] == '(' && closing_paren(s, a + 2) is Some) && s[a] != '\n' {
            lemma_link_target_bounds(s, a + 1);
        }
    }
}

proof fn lemma_closing_paren_skips(s: Seq<char>, a: int, k: int)
    requires
        0 <= a <= k <= s.len(),
        forall|i: int| a <= i < k ==> s[i] != ')' && s[i] != '\n',
    ensures
        closing_paren(s, a) == closing_paren(s, k),
    decreases k - a,
{
    if a < k {
        lemma_closing_paren_skips(s, a + 1, k);
    }
}

proof fn lemma_link_target_skips(s: Seq<char>, a: int, k: int)
    requires
        0 <= a <= k,
        k + 1 < s.len(),
        forall|i: int| a <= i < k ==> s[i] != ']' && s[i] != '\n',
    ensures
        link_target(s, a) == link_target(s, k),
    decreases k - a,
{
    if a < k {
        lemma_link_target_skips(s, a + 1, k);
    }
}

proof fn lemma_image_url_from_skips(s: Seq<char>, a: int, k: int)
    requires
        0 <= a <= k <= s.len(),
        forall|i: int| a <= i < k ==> s[i] != '!',
    ensures
        image_url_from(s, a) == image_url_from(s, k),
    decreases k - a,
{
    if a < k {
        lemma_image_url_from_skips(s, a + 1, k);
    }
}

/// The first image of a text is found wherever it stands: for a text `before` with no `!`,
/// then a Markdown image `![alt](url)` whose alt text holds no `]` and no newline and whose url
/// holds no `)` and no newline, then any text `after`, the first image url is `url` (whatever
/// else the alt text and url hold: spaces, `!`, `[`, `(` ...).
pub proof fn lemma_first_image_url_found(
    before: Seq<char>,
    alt: Seq<char>,
    url: Seq<char>,
    after: Seq<char>,
)
    requires
        forall|i: int| 0 <= i < before.len() ==> before[i] != '!',
        forall|i: int| 0 <= i < alt.len() ==> alt[i] != ']' && alt[i] != '\n',
        forall|i: int| 0 <= i < url.len() ==> url[i] != ')' && url[i] != '\n',
    ensures
        first_image_url_spec(
            before + seq!['!', '['] + alt + seq![']', '('] + url + seq![')'] + after,
        ) == Some(url),
{
    let s = before + seq!['!', '['] + alt + seq![']', '('] + url + seq![')'] + after;
    let o: int = before.len() as int;
    let j: int = o + alt.len() + 2;
    let k: int = j + 2 + url.len();
    assert(s.len() == k + 1 + after.len());
    assert(s[o] == '!' && s[o + 1] == '[');
    assert(s[j] == ']' && s[j + 1] == '(');
    assert(s[k] == ')');
    assert forall|i: int| 0 <= i < o implies s[i] != '!' by {
        assert(s[i] == before[i]);
    }
    assert forall|i: int| o + 2 <= i < j implies s[i] != ']' && s[i] != '\n' by {
        assert(s[i] == alt[i - o - 2]);
    }
    assert forall|i: int| j + 2 <= i < k implies s[i] != ')' && s[i] != '\n' by {
        assert(s[i] == url[i - j - 2]);
    }
    lemma_image_url_from_skips(s, 0, o);
    lemma_link_target_skips(s, o + 2, j);
    lemma_closing_paren_skips(s, j + 2, k);
    assert(closing_paren(s, k) == Some(k));
    assert(link_target(s, j) == Some((j, k)));
    assert(image_at(s, o) == Some((j, k)));
    assert(s.subrange(j + 2, k) =~= url);
}

proof fn lemma_no_image_from(s: Seq<char>, p: int)
    requires
        0 <= p,
        forall|i: int| 0 <= i < s.len() - 1 ==> !(s[i] == '!' && #[trigger] s[i + 1] == '['),
    ensures
        image_url_from(s, p) is None,
    decreases s.len() - p,
{
    if p < s.len() {
        if p + 1 < s.len() {
            assert(!(s[p] == '!' && s[p + 1] == '['));
        }
        lemma_no_image_from(s, p + 1);
    }
}

/// A text in which no `!` is directly followed by `[` has no image url.
pub proof fn lemma_no_image_without_marker(s: Seq<char>)
    requires
        forall|i: int| 0 <= i < s.len() - 1 ==> !(s[i] == '!' && #[trigger] s[i + 1] == '['),
    ensures
        first_image_url_spec(s) is None,
{
    lemma_no_image_from(s, 0);
}

proof fn lemma_closing_paren_shape(s: Seq<char>, a: int)
    ensures
        closing_paren(s, a) matches Some(k) ==> s[k] == ')' && forall|i: int|
            a <= i < k ==> s[i] != ')' && s[i] != '\n',
    decreases s.len() - a,
{
    if 0 <= a < s.len() && s[a] != ')' && s[a] != '\n' {
        lemma_closing_paren_shape(s, a + 1);
    }
}

proof fn lemma_link_target_shape(s: Seq<char>, a: int)
    ensures
        link_target(s, a) matches Some(m) ==> s[m.0] == ']' && s[m.0 + 1] == '(' && s[m.1] == ')'
            && (forall|i: int| m.0 + 2 <= i < m.1 ==> s[i] != ')' && s[i] != '\n'),
    decreases s.len() - a,
{
    if 0 <= a && a + 1 < s.len() {
        lemma_closing_paren_shape(s, a + 2);
        if !(s[a] == ']' && s[a + 1] == '(' && closing_paren(s, a + 2) is Some) && s[a] != '\n' {
            lemma_link_target_shape(s, a + 1);
        }
    }
}

/// Whether `s` holds `](u)` starting at position `j`.
pub open spec fn linked_at(s: Seq<char>, j: int, u: Seq<char>) -> bool {
    0 <= j && j + u.len() + 3 <= s.len() && s.subrange(j, j + u.len() + 3) == seq![']', '('] + u
        + seq![')']
}

proof fn lemma_image_url_from_shape(s: Seq<char>, p: int) -> (j: int)
    ensures
        image_url_from(s, p) matches Some(u) ==> linked_at(s, j, u),
        image_url_from(s, p) matches Some(u) ==> forall|i: int|
            0 <= i < u.len() ==> u[i] != ')' && u[i] != '\n',
    decreases s.len() - p,
{
    if 0 <= p < s.len() {
        match image_at(s, p) {
            Some(m) => {
                lemma_link_target_shape(s, p + 2);
                lemma_link_target_bounds(s, p + 2);
                let u = s.subrange(m.0 + 2, m.1);
                assert(image_url_from(s, p) == Some(u));
                assert(s.subrange(m.0, m.0 + u.len() + 3) =~= seq![']', '('] + u + seq![')']);
                m.0
            },
            None => {
                let j = lemma_image_url_from_shape(s, p + 1);
                assert(image_url_from(s, p) == image_url_from(s, p + 1));
                j
            },
        }
    } else {
        0
    }
}

/// The image url found is always written in the text as `](url)`, and holds no `)` and no
/// newline.
pub proof fn lemma_image_url_is_linked(s: Seq<char>)
    ensures
        first_image_url_spec(s) matches Some(u) ==> (forall|i: int|
            0 <= i < u.len() ==> u[i] != ')' && u[i] != '\n') && exists|j: int| linked_at(s, j, u),
{
    let j = lemma_image_url_from_shape(s, 0);
    if let Some(u) = first_image_url_spec(s) {
        assert(linked_at(s, j, u));
    }
}

/// A text that is just one Markdown image `![alt](url)`, with an alt text that holds no `]`
/// and no newline and a url that holds no `)` and no newline, has that url as its first image
/// url.
pub proof fn lemma_single_image_url_found(alt: Seq<char>, url: Seq<char>)
    requires
        forall|i: int| 0 <= i < alt.len() ==> alt[i] != ']' && alt[i] != '\n',
        forall|i: int| 0 <= i < url.len() ==> url[i] != ')' && url[i] != '\n',
    ensures
        first_image_url_spec(seq!['!', '['] + alt + seq![']', '('] + url + seq![')']) == Some(url),
{
    let e = Seq::<char>::empty();
    lemma_first_image_url_found(e, alt, url, e);
    assert(e + seq!['!', '['] + alt + seq![']', '('] + url + seq![')'] + e =~= seq!['!', '[']
        + alt + seq![']', '('] + url + seq![')']);
}

fn find_closing_paren(v: &Vec<char>, a: usize) -> (r: Option<usize>)
    ensures
        match r {
            Some(k) => closing_paren(v@, a as int) == Some(k as int),
            None => closing_paren(v@, a as int) is None,
        },
{
    let mut i = a;
    while i < v.len()
        invariant
            a <= i,
            closing_paren(v@, a as int) == closing_paren(v@, i as int),
        decreases v.len() - i,
    {
        if v[i] == ')' {
            return Some(i);
        }
        if v[i] == '\n' {
            return None;
        }
        i = i + 1;
    }
    None
}

fn find_link_target(v: &Vec<char>, a: usize) -> (r: Option<(usize, usize)>)
    ensures
        match r {
            Some(m) => link_target(v@, a as int) == Some((m.0 as int, m.1 as int)),
            None => link_target(v@, a as int) is None,
        },
{
    let mut i = a;
    while i < v.len() && i + 1 < v.len()
        invariant
            a <= i,
            link_target(v@, a as int) == link_target(v@, i as int),
        decreases v.len() - i,
    {
        if v[i] == ']' && v[i + 1] == '(' {
            match find_closing_paren(v, i + 2) {
                Some(k) => {
                    return Some((i, k));
                },
                None => {},
            }
        }
        if v[i] == '\n' {
            return None;
        }
        i = i + 1;
    }
    None
}

/// The url of the first Markdown image `![alt](url)` in `s`, if there is one.
pub fn first_image_url(s: &str) -> (r: Option<String>)
    ensures
        match r {
            Some(u) => first_image_url_spec(s@) == Some(u@),
            None => first_image_url_spec(s@) is None,
        },
{
    let v = chars_of(s);
    let n = v.len();
    let mut p: usize = 0;
    while p < n
        invariant
            n == v.len(),
            v@ == s@,
            image_url_from(v@, 0) == image_url_from(v@, p as int),
        decreases n - p,
    {
        if p + 1 < n && v[p] == '!' && v[p + 1] == '[' {
            match find_link_target(&v, p + 2) {
                Some(m) => {
                    proof {
                        lemma_link_target_bounds(v@, p + 2);
                    }
                    let mut out = String::new();
                    let mut k: usize = m.0 + 2;
                    while k < m.1
                        invariant
                            m.0 + 2 <= k <= m.1 <= n,
                            n == v.len(),
                            out@ =~= v@.subrange(m.0 + 2, k as int),
                        decreases m.1 - k,
                    {
                        push_char_to(&mut out, v[k]);
                        k = k + 1;
                    }
                    return Some(out);
                },
                None => {},
            }
        }
        p = p + 1;
    }
    None
}

} // verus!
