use vstd::prelude::*;
use vstd::string::*;

verus! {

/// The characters that `char::is_whitespace` accepts: those with the
/// Unicode `White_Space` property.
pub open spec fn is_white(c: char) -> bool {
    ('\u{9}' <= c && c <= '\u{d}') || c == ' ' || c == '\u{85}' || c == '\u{a0}' || c
        == '\u{1680}' || ('\u{2000}' <= c && c <= '\u{200a}') || c == '\u{2028}' || c == '\u{2029}'
        || c == '\u{202f}' || c == '\u{205f}' || c == '\u{3000}'
}

/// The last component of a `/`-separated path: the characters after the
/// last `/`, or the whole path where it holds none.
pub open spec fn base_name(p: Seq<char>) -> Seq<char>
    decreases p.len(),
{
    if p.len() == 0 {
        p
    } else if p.last() == '/' {
        Seq::empty()
    } else {
        base_name(p.drop_last()).push(p.last())
    }
}

/// Where the run of non-separators at the end of `p` starts at `i`, the base
/// name is that run.
proof fn lemma_base_name_from(p: Seq<char>, i: int)
    requires
        0 <= i <= p.len(),
        i == 0 || p[i - 1] == '/',
        forall|j: int| i <= j < p.len() ==> p[j] != '/',
    ensures
        base_name(p) == p.subrange(i, p.len() as int),
    decreases p.len(),
{
    if p.len() == 0 {
        assert(p.subrange(i, p.len() as int) =~= p);
    } else if i == p.len() {
        assert(p.subrange(i, p.len() as int) =~= Seq::<char>::empty());
    } else {
        let q = p.drop_last();
        assert forall|j: int| i <= j < q.len() implies q[j] != '/' by {
            assert(q[j] == p[j]);
        }
        if i > 0 {
            assert(q[i - 1] == p[i - 1]);
        }
        lemma_base_name_from(q, i);
        assert(p.subrange(i, p.len() as int) =~= q.subrange(i, q.len() as int).push(p.last()));
    }
}

/// Whether `s` holds white space only (the empty string included).
pub fn is_blank(s: &str) -> (r: bool)
    ensures
        r == (forall|i: int| 0 <= i < s@.len() ==> is_white(#[trigger] s@[i])),
{
    let n: usize = s.unicode_len();
    let mut i: usize = 0;
    while i < n
        invariant
            n == s@.len(),
            i <= n,
            forall|j: int| 0 <= j < i ==> is_white(#[trigger] s@[j]),
        decreases n - i,
    {
        let c = s.get_char(i);
        let white = ('\u{9}' <= c && c <= '\u{d}') || c == ' ' || c == '\u{85}' || c == '\u{a0}'
            || c == '\u{1680}' || ('\u{2000}' <= c && c <= '\u{200a}') || c == '\u{2028}' || c
            == '\u{2029}' || c == '\u{202f}' || c == '\u{205f}' || c == '\u{3000}';
        if !white {
            return false;
        }
        i = i + 1;
    }
    true
}

/// The last component of the path `p`, as [`base_name`] states it.
pub fn last_component(p: &str) -> (r: String)
    ensures
        r@ == base_name(p@),
{
    let n: usize = p.unicode_len();
    let mut i: usize = n;
    while i > 0 && p.get_char(i - 1) != '/'
        invariant
            n == p@.len(),
            i <= n,
            forall|j: int| i <= j < n ==> p@[j] != '/',
        decreases i,
    {
        i = i - 1;
    }
    proof {
        lemma_base_name_from(p@, i as int);
    }
    p.substring_char(i, n).to_string()
}

} // verus!
