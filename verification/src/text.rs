//! Verified string transformations: underscore stripping for identifier
//! construction and placeholder substitution for topic templates.

use vstd::prelude::*;
use vstd::string::*;

verus! {

/// The characters of `s` with every underscore removed, in order.
pub open spec fn strip_underscores(s: Seq<char>) -> Seq<char>
    decreases s.len(),
{
    if s.len() == 0 {
        Seq::empty()
    } else if s[0] == '_' {
        strip_underscores(s.skip(1))
    } else {
        seq![s[0]] + strip_underscores(s.skip(1))
    }
}

/// Relies on String::push: appends the given character to the end of the string.
#[verifier::external_body]
pub(crate) fn push_char(s: &mut String, c: char)
    ensures
        final(s)@ == old(s)@.push(c),
{
    s.push(c);
}

proof fn lemma_strip_underscores_snoc(s: Seq<char>, c: char)
    ensures
        strip_underscores(s.push(c)) == strip_underscores(s) + (if c == '_' {
            Seq::<char>::empty()
        } else {
            seq![c]
        }),
    decreases s.len(),
{
    if s.len() == 0 {
        assert(s.push(c)[0] == c);
        assert(s.push(c).skip(1) =~= Seq::<char>::empty());
        assert(strip_underscores(Seq::<char>::empty()) == Seq::<char>::empty());
        assert(strip_underscores(s) == Seq::<char>::empty());
        if c == '_' {
            assert(strip_underscores(s.push(c)) == strip_underscores(s.push(c).skip(1)));
            assert(strip_underscores(s.push(c)) =~= strip_underscores(s) + Seq::<char>::empty());
        } else {
            assert(strip_underscores(s.push(c)) == seq![s.push(c)[0]] + strip_underscores(
                s.push(c).skip(1),
            ));
            assert(strip_underscores(s.push(c)) =~= strip_underscores(s) + seq![c]);
        }
    } else {
        lemma_strip_underscores_snoc(s.skip(1), c);
        assert(s.push(c).skip(1) =~= s.skip(1).push(c));
        assert(s.push(c)[0] == s[0]);
        if c == '_' {
            assert(strip_underscores(s.push(c)) =~= strip_underscores(s) + Seq::<char>::empty());
        } else {
            assert(strip_underscores(s.push(c)) =~= strip_underscores(s) + seq![c]);
        }
    }
}

/// `t` with every occurrence of the placeholder token `{}` replaced by `v`,
/// scanning left to right; overlapping braces are consumed greedily, so the
/// replacement value itself is never rescanned.
pub open spec fn replace_placeholder(t: Seq<char>, v: Seq<char>) -> Seq<char>
    decreases t.len(),
{
    if t.len() == 0 {
        Seq::empty()
    } else if t.len() >= 2 && t[0] == '{' && t[1] == '}' {
        v + replace_placeholder(t.skip(2), v)
    } else {
        seq![t[0]] + replace_placeholder(t.skip(1), v)
    }
}

/// `t` contains the placeholder token `{}` somewhere.
pub open spec fn has_placeholder(t: Seq<char>) -> bool
    decreases t.len(),
{
    if t.len() < 2 {
        false
    } else {
        (t[0] == '{' && t[1] == '}') || has_placeholder(t.skip(1))
    }
}

/// `v` contains neither brace character, so it can neither hold nor form a
/// placeholder token.
pub open spec fn brace_free(v: Seq<char>) -> bool {
    forall|i: int| 0 <= i < v.len() ==> v[i] != '{' && v[i] != '}'
}

/// `t` with every `{}` replaced by `v`.
pub fn substitute_placeholder(t: &str, v: &str) -> (r: String)
    ensures
        r@ == replace_placeholder(t@, v@),
{
    let n = t.unicode_len();
    let mut out = String::new();
    let mut i: usize = 0;
    proof {
        assert(t@.skip(0) =~= t@);
        assert(Seq::<char>::empty() + replace_placeholder(t@, v@) =~= replace_placeholder(
            t@,
            v@,
        ));
    }
    while i < n
        invariant
            n == t@.len(),
            0 <= i <= n,
            replace_placeholder(t@, v@) == out@ + replace_placeholder(t@.skip(i as int), v@),
        decreases n - i,
    {
        let ghost rest = t@.skip(i as int);
        proof {
            assert(rest.len() == n - i);
            assert(rest[0] == t@[i as int]);
        }
        let c = t.get_char(i);
        if c == '{' && i + 1 < n && t.get_char(i + 1) == '}' {
            proof {
                assert(rest[1] == t@[i + 1]);
                assert(rest.skip(2) =~= t@.skip(i + 2));
                assert(replace_placeholder(rest, v@) == v@ + replace_placeholder(
                    t@.skip(i + 2),
                    v@,
                ));
                assert((out@ + v@) + replace_placeholder(t@.skip(i + 2), v@) =~= out@ + (v@
                    + replace_placeholder(t@.skip(i + 2), v@)));
            }
            out.append(v);
            i = i + 2;
        } else {
            proof {
                assert(rest.skip(1) =~= t@.skip(i + 1));
                assert(replace_placeholder(rest, v@) == seq![t@[i as int]] + replace_placeholder(
                    t@.skip(i + 1),
                    v@,
                ));
                assert((out@.push(c)) + replace_placeholder(t@.skip(i + 1), v@) =~= out@ + (
                seq![t@[i as int]] + replace_placeholder(t@.skip(i + 1), v@)));
            }
            push_char(&mut out, c);
            i = i + 1;
        }
    }
    proof {
        assert(t@.skip(n as int) =~= Seq::<char>::empty());
        assert(replace_placeholder(Seq::<char>::empty(), v@) == Seq::<char>::empty());
        assert(out@ + Seq::<char>::empty() =~= out@);
    }
    out
}

/// `n` occurs as a contiguous run of characters somewhere in `h`.
pub open spec fn contains_seq(h: Seq<char>, n: Seq<char>) -> bool {
    exists|i: int| 0 <= i && i + n.len() <= h.len() && #[trigger] h.subrange(i, i + n.len()) == n
}

/// Exhibits an occurrence of `n` in `h` at position `i`.
pub proof fn lemma_contains_at(h: Seq<char>, n: Seq<char>, i: int)
    requires
        0 <= i,
        i + n.len() <= h.len(),
        h.subrange(i, i + n.len()) == n,
    ensures
        contains_seq(h, n),
{
}

/// An occurrence in the left part of a concatenation is an occurrence in the
/// whole.
pub proof fn lemma_contains_concat_left(a: Seq<char>, b: Seq<char>, n: Seq<char>)
    requires
        contains_seq(a, n),
    ensures
        contains_seq(a + b, n),
{
    let i = choose|i: int|
        0 <= i && i + n.len() <= a.len() && #[trigger] a.subrange(i, i + n.len()) == n;
    assert((a + b).subrange(i, i + n.len()) =~= a.subrange(i, i + n.len()));
    lemma_contains_at(a + b, n, i);
}

/// An occurrence in the right part of a concatenation is an occurrence in
/// the whole.
pub proof fn lemma_contains_concat_right(a: Seq<char>, b: Seq<char>, n: Seq<char>)
    requires
        contains_seq(b, n),
    ensures
        contains_seq(a + b, n),
{
    let i = choose|i: int|
        0 <= i && i + n.len() <= b.len() && #[trigger] b.subrange(i, i + n.len()) == n;
    assert((a + b).subrange(a.len() + i, a.len() + i + n.len()) =~= b.subrange(i, i + n.len()));
    lemma_contains_at(a + b, n, a.len() + i);
}

proof fn lemma_brace_free_no_placeholder(v: Seq<char>)
    requires
        brace_free(v),
    ensures
        !has_placeholder(v),
    decreases v.len(),
{
    if v.len() >= 2 {
        assert(v[0] != '{');
        assert(brace_free(v.skip(1))) by {
            assert(forall|i: int|
                0 <= i < v.skip(1).len() ==> v.skip(1)[i] == v[i + 1] && v[i + 1] != '{' && v[i + 1]
                    != '}');
        }
        lemma_brace_free_no_placeholder(v.skip(1));
    }
}

proof fn lemma_concat_no_placeholder(a: Seq<char>, b: Seq<char>)
    requires
        !has_placeholder(a),
        !has_placeholder(b),
        !(a.len() > 0 && b.len() > 0 && a.last() == '{' && b.first() == '}'),
    ensures
        !has_placeholder(a + b),
    decreases a.len(),
{
    if a.len() == 0 {
        assert(a + b =~= b);
    } else if a.len() == 1 {
        if b.len() == 0 {
            assert(a + b =~= a);
        } else {
            assert((a + b)[0] == a[0]);
            assert((a + b)[1] == b[0]);
            assert(!(a[0] == '{' && b[0] == '}'));
            assert((a + b).skip(1) =~= b);
        }
    } else {
        assert((a + b)[0] == a[0]);
        assert((a + b)[1] == a[1]);
        assert(!(a[0] == '{' && a[1] == '}'));
        assert(a.skip(1).len() > 0 ==> a.skip(1).last() == a.last());
        lemma_concat_no_placeholder(a.skip(1), b);
        assert((a + b).skip(1) =~= a.skip(1) + b);
    }
}

proof fn lemma_replace_first_char(t: Seq<char>, v: Seq<char>)
    requires
        v.len() > 0,
        t.len() > 0,
    ensures
        replace_placeholder(t, v).len() > 0,
        replace_placeholder(t, v)[0] == t[0] || replace_placeholder(t, v)[0] == v[0],
{
    if t.len() >= 2 && t[0] == '{' && t[1] == '}' {
        assert(replace_placeholder(t, v)[0] == v[0]);
    } else {
        assert(replace_placeholder(t, v)[0] == t[0]);
    }
}

proof fn lemma_replace_placeholder_free(t: Seq<char>, v: Seq<char>)
    requires
        brace_free(v),
        v.len() > 0,
    ensures
        !has_placeholder(replace_placeholder(t, v)),
    decreases t.len(),
{
    if t.len() == 0 {
        assert(!has_placeholder(Seq::<char>::empty()));
    } else if t.len() >= 2 && t[0] == '{' && t[1] == '}' {
        let rest = replace_placeholder(t.skip(2), v);
        lemma_replace_placeholder_free(t.skip(2), v);
        lemma_brace_free_no_placeholder(v);
        assert(v.last() != '{');
        lemma_concat_no_placeholder(v, rest);
    } else {
        let rest = replace_placeholder(t.skip(1), v);
        lemma_replace_placeholder_free(t.skip(1), v);
        assert(!has_placeholder(seq![t[0]]));
        if t[0] == '{' && rest.len() > 0 {
            assert(t.skip(1).len() > 0 ==> t.skip(1)[0] == t[1]);
            lemma_replace_first_char(t.skip(1), v);
            assert(t.len() >= 2 ==> t[1] != '}');
            assert(v[0] != '}');
            assert(rest.first() != '}');
        }
        lemma_concat_no_placeholder(seq![t[0]], rest);
    }
}

proof fn lemma_no_placeholder_replace_identity(t: Seq<char>, v: Seq<char>)
    requires
        !has_placeholder(t),
    ensures
        replace_placeholder(t, v) == t,
    decreases t.len(),
{
    if t.len() == 0 {
        assert(replace_placeholder(t, v) =~= t);
    } else {
        assert(!(t.len() >= 2 && t[0] == '{' && t[1] == '}'));
        lemma_no_placeholder_replace_identity(t.skip(1), v);
        assert(replace_placeholder(t, v) == seq![t[0]] + t.skip(1));
        assert(seq![t[0]] + t.skip(1) =~= t);
    }
}

/// Substituting a placeholder-free, nonempty value into a template is
/// idempotent: once substituted, a second pass over the result changes
/// nothing, so repeated templating never accumulates the value.
pub proof fn lemma_substitution_idempotent(t: Seq<char>, v: Seq<char>)
    requires
        v.len() > 0,
        brace_free(v),
    ensures
        replace_placeholder(replace_placeholder(t, v), v) == replace_placeholder(t, v),
{
    lemma_replace_placeholder_free(t, v);
    lemma_no_placeholder_replace_identity(replace_placeholder(t, v), v);
}

/// A copy of `s` with every underscore removed.
pub fn remove_underscores(s: &str) -> (r: String)
    ensures
        r@ == strip_underscores(s@),
{
    let n = s.unicode_len();
    let mut out = String::new();
    let mut i: usize = 0;
    while i < n
        invariant
            n == s@.len(),
            0 <= i <= n,
            out@ == strip_underscores(s@.subrange(0, i as int)),
        decreases n - i,
    {
        let c = s.get_char(i);
        proof {
            lemma_strip_underscores_snoc(s@.subrange(0, i as int), s@[i as int]);
            assert(s@.subrange(0, i as int).push(s@[i as int]) =~= s@.subrange(0, i + 1));
        }
        if c != '_' {
            push_char(&mut out, c);
        }
        i = i + 1;
    }
    proof {
        assert(s@.subrange(0, n as int) =~= s@);
    }
    out
}

} // verus!
