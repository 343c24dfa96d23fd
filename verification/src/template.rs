//! Expansion of `%(field)s` templates into S3 object keys. For each
//! top-level field of the video's metadata the token `%(key)s` is replaced
//! by the field's string value (the empty string for non-string values),
//! stopping early once no `%` remains. A result still holding `%` after all
//! replacements is rejected, since a leftover token would produce a broken
//! object key.

use vstd::prelude::*;
use crate::error::Error;
use crate::metadata::Metadata;
use crate::metadata::spec_lookup;
use crate::text::contains_char;
use crate::text::find_char;
use crate::text::matches_at;
use crate::text::matches_at_exec;
use crate::text::push_all;

verus! {

/// The template token for a metadata key: `%(` key `)s`.
pub open spec fn spec_token(key: Seq<char>) -> Seq<char> {
    seq!['%', '('] + key + seq![')', 's']
}

/// Builds the template token for `key`.
pub fn token_of(key: &Vec<char>) -> (r: Vec<char>)
    ensures
        r@ == spec_token(key@),
{
    let mut out: Vec<char> = Vec::new();
    out.push('%');
    out.push('(');
    push_all(&mut out, key);
    out.push(')');
    out.push('s');
    assert(out@ =~= spec_token(key@));
    out
}

/// Replaces the non-overlapping occurrences of `pat` in `t` by `val`,
/// scanning left to right.
pub open spec fn spec_replace_all(t: Seq<char>, pat: Seq<char>, val: Seq<char>) -> Seq<char>
    decreases t.len(),
{
    if pat.len() == 0 || t.len() < pat.len() {
        t
    } else if t.subrange(0, pat.len() as int) == pat {
        val + spec_replace_all(t.skip(pat.len() as int), pat, val)
    } else {
        seq![t[0]] + spec_replace_all(t.skip(1), pat, val)
    }
}

/// Replaces every occurrence of `pat` in `t` by `val`, left to right and
/// without overlap.
pub fn replace_all(t: &Vec<char>, pat: &Vec<char>, val: &Vec<char>) -> (r: Vec<char>)
    requires
        pat@.len() >= 1,
    ensures
        r@ == spec_replace_all(t@, pat@, val@),
{
    let mut out: Vec<char> = Vec::new();
    let mut i: usize = 0;
    proof {
        assert(t@.skip(0) =~= t@);
        assert(Seq::<char>::empty() + spec_replace_all(t@, pat@, val@)
            =~= spec_replace_all(t@, pat@, val@));
    }
    while i < t.len()
        invariant
            i <= t@.len(),
            pat@.len() >= 1,
            out@ + spec_replace_all(t@.skip(i as int), pat@, val@)
                == spec_replace_all(t@, pat@, val@),
        decreases t@.len() - i,
    {
        let ghost rest = t@.skip(i as int);
        if matches_at_exec(t, pat, i) {
            proof {
                assert(rest.len() >= pat@.len());
                assert(rest.subrange(0, pat@.len() as int)
                    =~= t@.subrange(i as int, i + pat@.len() as int));
                assert(rest.skip(pat@.len() as int) =~= t@.skip(i + pat@.len()));
            }
            push_all(&mut out, val);
            i += pat.len();
        } else {
            proof {
                if rest.len() >= pat@.len() {
                    assert(rest.subrange(0, pat@.len() as int)
                        =~= t@.subrange(i as int, i + pat@.len() as int));
                }
                assert(rest.skip(1) =~= t@.skip(i + 1));
                assert(seq![t@[i as int]] + spec_replace_all(t@.skip(i + 1), pat@, val@)
                    == spec_replace_all(rest, pat@, val@));
            }
            let c = t[i];
            out.push(c);
            i += 1;
        }
    }
    proof {
        assert(t@.skip(i as int) =~= Seq::<char>::empty());
        assert(out@ + Seq::<char>::empty() =~= out@);
    }
    out
}

/// One field's substitution value: its string value, or the empty string
/// for a non-string value.
pub open spec fn spec_subst(value: Option<Seq<char>>) -> Seq<char> {
    match value {
        Some(v) => v,
        None => Seq::empty(),
    }
}

/// The expansion of `t` under `fields`: field by field, each token replaced
/// by the field's value, stopping as soon as no `%` remains.
pub open spec fn spec_expand(fields: Seq<(Seq<char>, Option<Seq<char>>)>, t: Seq<char>) -> Seq<char>
    decreases fields.len(),
{
    if fields.len() == 0 || !contains_char(t, '%') {
        t
    } else {
        spec_expand(
            fields.drop_first(),
            spec_replace_all(t, spec_token(fields[0].0), spec_subst(fields[0].1)),
        )
    }
}

/// A template without `%` expands to itself.
proof fn lemma_expand_no_pct(fields: Seq<(Seq<char>, Option<Seq<char>>)>, t: Seq<char>)
    requires
        !contains_char(t, '%'),
    ensures
        spec_expand(fields, t) == t,
{
}

/// Resolves the template into a concrete object key by replacing each
/// `%(key)s` token with the metadata field's value. Fails when a `%`
/// remains after all fields have been substituted, since the leftover
/// token cannot name a valid object key.
pub fn template_key(meta: &Metadata, template: &Vec<char>) -> (r: Result<Vec<char>, Error>)
    ensures
        ({
            let expanded = spec_expand(meta@, template@);
            match r {
                Ok(key) => key@ == expanded && !contains_char(expanded, '%'),
                Err(e) => contains_char(expanded, '%') && e matches Error::UserInputError(_),
            }
        }),
{
    let mut result: Vec<char> = template.clone();
    let mut k: usize = 0;
    assert(meta@.skip(0) =~= meta@);
    while k < meta.fields.len() && find_char(&result, '%')
        invariant
            k <= meta.fields@.len(),
            meta@.len() == meta.fields@.len(),
            spec_expand(meta@.skip(k as int), result@) == spec_expand(meta@, template@),
        decreases meta.fields@.len() - k,
    {
        let ghost fs = meta@.skip(k as int);
        proof {
            assert(fs[0] == meta@[k as int]);
            assert(fs.drop_first() =~= meta@.skip(k + 1));
        }
        let pat = token_of(&meta.fields[k].key);
        let empty: Vec<char> = Vec::new();
        let next = match &meta.fields[k].value {
            Some(v) => replace_all(&result, &pat, v),
            None => replace_all(&result, &pat, &empty),
        };
        result = next;
        k += 1;
    }
    proof {
        if k == meta.fields@.len() {
            assert(meta@.skip(k as int) =~= Seq::<(Seq<char>, Option<Seq<char>>)>::empty());
        } else {
            lemma_expand_no_pct(meta@.skip(k as int), result@);
        }
    }
    if find_char(&result, '%') {
        Err(Error::UserInputError(String::from_str(
            "metadata does not contain all template variables",
        )))
    } else {
        Ok(result)
    }
}

/// The key is fit for templating: free of the characters that delimit a
/// token.
pub open spec fn spec_plain_key(k: Seq<char>) -> bool {
    !contains_char(k, '%') && !contains_char(k, ')')
}

/// Replacement passes over a prefix in which the pattern never matches.
proof fn lemma_replace_skips_prefix(a: Seq<char>, b: Seq<char>, pat: Seq<char>, val: Seq<char>)
    requires
        pat.len() >= 1,
        forall|i: int| 0 <= i < a.len() ==> !matches_at(a + b, pat, i),
    ensures
        spec_replace_all(a + b, pat, val) == a + spec_replace_all(b, pat, val),
    decreases a.len(),
{
    let t = a + b;
    if a.len() == 0 {
        assert(t =~= b);
        assert(a + spec_replace_all(b, pat, val) =~= spec_replace_all(b, pat, val));
    } else {
        assert(!matches_at(t, pat, 0));
        if t.len() >= pat.len() {
            if t.subrange(0, pat.len() as int) == pat {
                assert(matches_at(t, pat, 0));
            }
        }
        assert(t.skip(1) =~= a.drop_first() + b);
        assert forall|i: int| 0 <= i < a.drop_first().len() implies !matches_at(
            a.drop_first() + b,
            pat,
            i,
        ) by {
            if matches_at(a.drop_first() + b, pat, i) {
                assert(t.subrange(i + 1, i + 1 + pat.len() as int)
                    =~= (a.drop_first() + b).subrange(i, i + pat.len() as int));
                assert(matches_at(t, pat, i + 1));
            }
        }
        lemma_replace_skips_prefix(a.drop_first(), b, pat, val);
        assert(seq![t[0]] + (a.drop_first() + spec_replace_all(b, pat, val))
            =~= a + spec_replace_all(b, pat, val));
    }
}

/// Replacement at an aligned head occurrence substitutes it and moves on.
proof fn lemma_replace_at_head(pat: Seq<char>, b: Seq<char>, val: Seq<char>)
    requires
        pat.len() >= 1,
    ensures
        spec_replace_all(pat + b, pat, val) == val + spec_replace_all(b, pat, val),
{
    let t = pat + b;
    assert(t.subrange(0, pat.len() as int) =~= pat);
    assert(t.skip(pat.len() as int) =~= b);
}

/// Inside a token, `%` stands only at the very front.
proof fn lemma_token_pct_only_at_front(k: Seq<char>)
    requires
        spec_plain_key(k),
    ensures
        forall|i: int| 1 <= i < spec_token(k).len() ==> #[trigger] spec_token(k)[i] != '%',
{
    let t = spec_token(k);
    assert forall|i: int| 1 <= i < t.len() implies #[trigger] t[i] != '%' by {
        if i == 1 {
            assert(t[i] == '(');
        } else if i < 2 + k.len() {
            assert(t[i] == k[i - 2]);
            assert(!(0 <= i - 2 < k.len() && k[i - 2] == '%'));
        } else if i == 2 + k.len() {
            assert(t[i] == ')');
        } else {
            assert(t[i] == 's');
        }
    }
}

/// One key's token never matches at the head of another key's token,
/// whatever follows it.
proof fn lemma_token_head_mismatch(k: Seq<char>, k2: Seq<char>, rest: Seq<char>)
    requires
        spec_plain_key(k),
        spec_plain_key(k2),
        k != k2,
    ensures
        !matches_at(spec_token(k2) + rest, spec_token(k), 0),
{
    let pat = spec_token(k);
    let t2 = spec_token(k2);
    let t = t2 + rest;
    if matches_at(t, pat, 0) {
        assert(t.subrange(0, pat.len() as int) == pat);
        assert(forall|x: int| 0 <= x < pat.len() ==> pat[x] == #[trigger] t[x]);
        if k.len() < k2.len() {
            let x = 2 + k.len() as int;
            assert(pat[x] == ')');
            assert(t[x] == t2[x]);
            assert(t2[x] == k2[x - 2]);
            assert(contains_char(k2, ')'));
        } else if k.len() == k2.len() {
            assert forall|j: int| 0 <= j < k.len() implies k[j] == k2[j] by {
                assert(pat[2 + j] == k[j]);
                assert(t[2 + j] == t2[2 + j]);
                assert(t2[2 + j] == k2[j]);
            }
            assert(k =~= k2);
        } else {
            let x = 2 + k2.len() as int;
            assert(pat[x] == k[x - 2]);
            assert(t[x] == t2[x]);
            assert(t2[x] == ')');
            assert(contains_char(k, ')'));
        }
    }
}

/// One piece of a templated string: `(true, k)` stands for the token
/// `%(k)s`, `(false, l)` for the literal `l`.
pub open spec fn spec_piece_str(p: (bool, Seq<char>)) -> Seq<char> {
    if p.0 {
        spec_token(p.1)
    } else {
        p.1
    }
}

/// The template the pieces spell out.
pub open spec fn spec_pieces_join(ps: Seq<(bool, Seq<char>)>) -> Seq<char>
    decreases ps.len(),
{
    if ps.len() == 0 {
        Seq::empty()
    } else {
        spec_piece_str(ps[0]) + spec_pieces_join(ps.drop_first())
    }
}

/// The pieces are fit for expansion: token keys are plain, literals are
/// free of `%`.
pub open spec fn spec_pieces_plain(ps: Seq<(bool, Seq<char>)>) -> bool {
    forall|i: int| 0 <= i < ps.len() ==> (if (#[trigger] ps[i]).0 {
        spec_plain_key(ps[i].1)
    } else {
        !contains_char(ps[i].1, '%')
    })
}

/// Replacing one key's token turns exactly that key's pieces into
/// literals of the value.
pub open spec fn spec_pieces_mark(
    ps: Seq<(bool, Seq<char>)>,
    k: Seq<char>,
    v: Seq<char>,
) -> Seq<(bool, Seq<char>)> {
    ps.map_values(|p: (bool, Seq<char>)| if p.0 && p.1 == k {
        (false, v)
    } else {
        p
    })
}

/// One replacement pass over a piece-built template substitutes exactly
/// the pieces of the replaced key: every occurrence of the token starts
/// at such a piece, since the only `%` inside any piece leads a token
/// and distinct keys' tokens never align.
proof fn lemma_replace_pieces(ps: Seq<(bool, Seq<char>)>, k: Seq<char>, v: Seq<char>)
    requires
        spec_plain_key(k),
        spec_pieces_plain(ps),
    ensures
        spec_replace_all(spec_pieces_join(ps), spec_token(k), v)
            == spec_pieces_join(spec_pieces_mark(ps, k, v)),
    decreases ps.len(),
{
    let pat = spec_token(k);
    if ps.len() == 0 {
        assert(spec_pieces_mark(ps, k, v) =~= Seq::<(bool, Seq<char>)>::empty());
    } else {
        let head = ps[0];
        let rest = spec_pieces_join(ps.drop_first());
        assert(ps.drop_first().len() == ps.len() - 1);
        assert forall|i: int| 0 <= i < ps.drop_first().len() implies (if (
        #[trigger] ps.drop_first()[i]).0 {
            spec_plain_key(ps.drop_first()[i].1)
        } else {
            !contains_char(ps.drop_first()[i].1, '%')
        }) by {
            assert(ps.drop_first()[i] == ps[i + 1]);
        }
        lemma_replace_pieces(ps.drop_first(), k, v);
        assert(spec_pieces_mark(ps, k, v).drop_first() =~= spec_pieces_mark(ps.drop_first(), k, v));
        let a = spec_piece_str(head);
        if head.0 && head.1 == k {
            lemma_replace_at_head(pat, rest, v);
            assert(spec_pieces_join(spec_pieces_mark(ps, k, v))
                =~= v + spec_pieces_join(spec_pieces_mark(ps.drop_first(), k, v)));
        } else {
            assert forall|i: int| 0 <= i < a.len() implies !matches_at(a + rest, pat, i) by {
                if matches_at(a + rest, pat, i) {
                    assert((a + rest).subrange(i, i + pat.len() as int)[0] == pat[0]);
                    assert((a + rest)[i] == '%');
                    if head.0 {
                        lemma_token_pct_only_at_front(head.1);
                        assert(a[i] == '%');
                        assert(i == 0);
                        lemma_token_head_mismatch(k, head.1, rest);
                    } else {
                        assert(a[i] == '%');
                        assert(contains_char(head.1, '%'));
                    }
                }
            }
            lemma_replace_skips_prefix(a, rest, pat, v);
            assert(spec_pieces_join(spec_pieces_mark(ps, k, v))
                =~= a + spec_pieces_join(spec_pieces_mark(ps.drop_first(), k, v)));
        }
    }
}

/// The map carries the key.
pub open spec fn spec_has_key(fs: Seq<(Seq<char>, Option<Seq<char>>)>, k: Seq<char>) -> bool
    decreases fs.len(),
{
    fs.len() > 0 && (fs[0].0 == k || spec_has_key(fs.drop_first(), k))
}

/// Every key of the map is plain and every substitution value is free of
/// `%`.
pub open spec fn spec_fields_wf(fs: Seq<(Seq<char>, Option<Seq<char>>)>) -> bool {
    forall|j: int| 0 <= j < fs.len() ==> spec_plain_key((#[trigger] fs[j]).0) && !contains_char(
        spec_subst(fs[j].1),
        '%',
    )
}

/// Every token piece names a key of the map.
pub open spec fn spec_pieces_covered(
    ps: Seq<(bool, Seq<char>)>,
    fs: Seq<(Seq<char>, Option<Seq<char>>)>,
) -> bool {
    forall|i: int| 0 <= i < ps.len() && (#[trigger] ps[i]).0 ==> spec_has_key(fs, ps[i].1)
}

/// What each piece expands to: token pieces become their key's value as
/// the map's first field of that key gives it, literals stay.
pub open spec fn spec_piece_result(
    p: (bool, Seq<char>),
    fs: Seq<(Seq<char>, Option<Seq<char>>)>,
) -> Seq<char> {
    if p.0 {
        spec_subst(spec_lookup(fs, p.1))
    } else {
        p.1
    }
}

/// The fully substituted template.
pub open spec fn spec_pieces_result(
    ps: Seq<(bool, Seq<char>)>,
    fs: Seq<(Seq<char>, Option<Seq<char>>)>,
) -> Seq<char>
    decreases ps.len(),
{
    if ps.len() == 0 {
        Seq::empty()
    } else {
        spec_piece_result(ps[0], fs) + spec_pieces_result(ps.drop_first(), fs)
    }
}

/// A piece list without token pieces joins to a `%`-free string and is
/// its own result.
proof fn lemma_pieces_all_literal(ps: Seq<(bool, Seq<char>)>, fs: Seq<(Seq<char>, Option<Seq<char>>)>)
    requires
        spec_pieces_plain(ps),
        forall|i: int| 0 <= i < ps.len() ==> !(#[trigger] ps[i]).0,
    ensures
        !contains_char(spec_pieces_join(ps), '%'),
        spec_pieces_result(ps, fs) == spec_pieces_join(ps),
    decreases ps.len(),
{
    if ps.len() > 0 {
        assert forall|i: int| 0 <= i < ps.drop_first().len() implies !(
        #[trigger] ps.drop_first()[i]).0 && (if ps.drop_first()[i].0 {
            spec_plain_key(ps.drop_first()[i].1)
        } else {
            !contains_char(ps.drop_first()[i].1, '%')
        }) by {
            assert(ps.drop_first()[i] == ps[i + 1]);
        }
        lemma_pieces_all_literal(ps.drop_first(), fs);
        let a = spec_piece_str(ps[0]);
        let b = spec_pieces_join(ps.drop_first());
        assert(!contains_char(a, '%'));
        assert forall|i: int| 0 <= i < (a + b).len() implies (a + b)[i] != '%' by {
            if i < a.len() {
                assert((a + b)[i] == a[i]);
                assert(!(0 <= i < a.len() && a[i] == '%'));
            } else {
                assert((a + b)[i] == b[i - a.len()]);
                assert(!(0 <= i - a.len() < b.len() && b[i - a.len()] == '%'));
            }
        }
    }
}

/// A piece list with a token piece joins to a string holding `%`.
proof fn lemma_pieces_with_token_have_pct(ps: Seq<(bool, Seq<char>)>, w: int)
    requires
        0 <= w < ps.len(),
        ps[w].0,
    ensures
        contains_char(spec_pieces_join(ps), '%'),
    decreases ps.len(),
{
    let a = spec_piece_str(ps[0]);
    let b = spec_pieces_join(ps.drop_first());
    if w == 0 {
        assert(spec_token(ps[0].1)[0] == '%');
        assert((a + b)[0] == '%');
        assert(contains_char(a + b, '%'));
    } else {
        assert(ps.drop_first()[w - 1] == ps[w]);
        lemma_pieces_with_token_have_pct(ps.drop_first(), w - 1);
        let j = choose|j: int| 0 <= j < b.len() && b[j] == '%';
        assert((a + b)[a.len() + j] == '%');
        assert(contains_char(a + b, '%'));
    }
}

/// The law the template engine exists for: a template composed only of
/// `%(k)s` tokens for keys of the map, around `%`-free literal text,
/// expands to the same template with every token replaced by its key's
/// value. Keys must be free of the token's own delimiters and values
/// free of `%`; a value holding a token of a later key would itself be
/// expanded and break the law.
pub proof fn lemma_expand_template(
    fs: Seq<(Seq<char>, Option<Seq<char>>)>,
    ps: Seq<(bool, Seq<char>)>,
)
    requires
        spec_fields_wf(fs),
        spec_pieces_plain(ps),
        spec_pieces_covered(ps, fs),
    ensures
        spec_expand(fs, spec_pieces_join(ps)) == spec_pieces_result(ps, fs),
    decreases fs.len(),
{
    let t = spec_pieces_join(ps);
    if exists|w: int| 0 <= w < ps.len() && (#[trigger] ps[w]).0 {
        let w = choose|w: int| 0 <= w < ps.len() && (#[trigger] ps[w]).0;
        assert(spec_has_key(fs, ps[w].1));
        assert(fs.len() > 0);
        lemma_pieces_with_token_have_pct(ps, w);
        let k0 = fs[0].0;
        let v0 = spec_subst(fs[0].1);
        lemma_replace_pieces(ps, k0, v0);
        let marked = spec_pieces_mark(ps, k0, v0);
        assert forall|i: int| 0 <= i < marked.len() implies (if (#[trigger] marked[i]).0 {
            spec_plain_key(marked[i].1)
        } else {
            !contains_char(marked[i].1, '%')
        }) by {
            if ps[i].0 && ps[i].1 == k0 {
                assert(marked[i] == (false, v0));
            } else {
                assert(marked[i] == ps[i]);
            }
        }
        assert forall|i: int| 0 <= i < marked.len() && (#[trigger] marked[i]).0 implies
            spec_has_key(fs.drop_first(), marked[i].1) by {
            assert(marked[i] == ps[i]);
            assert(ps[i].0 && ps[i].1 != k0);
            assert(spec_has_key(fs, ps[i].1));
        }
        assert forall|j: int| 0 <= j < fs.drop_first().len() implies spec_plain_key((
        #[trigger] fs.drop_first()[j]).0) && !contains_char(
            spec_subst(fs.drop_first()[j].1),
            '%',
        ) by {
            assert(fs.drop_first()[j] == fs[j + 1]);
        }
        lemma_expand_template(fs.drop_first(), marked);
        lemma_pieces_result_mark(ps, fs, k0, v0);
    } else {
        lemma_pieces_all_literal(ps, fs);
        lemma_expand_no_pct(fs, t);
    }
}

/// Marking the head field's pieces and expanding under the remaining
/// fields gives the same result as expanding under the whole map.
proof fn lemma_pieces_result_mark(
    ps: Seq<(bool, Seq<char>)>,
    fs: Seq<(Seq<char>, Option<Seq<char>>)>,
    k0: Seq<char>,
    v0: Seq<char>,
)
    requires
        fs.len() > 0,
        fs[0].0 == k0,
        spec_subst(fs[0].1) == v0,
    ensures
        spec_pieces_result(spec_pieces_mark(ps, k0, v0), fs.drop_first())
            == spec_pieces_result(ps, fs),
    decreases ps.len(),
{
    if ps.len() > 0 {
        lemma_pieces_result_mark(ps.drop_first(), fs, k0, v0);
        let marked = spec_pieces_mark(ps, k0, v0);
        assert(marked.drop_first() =~= spec_pieces_mark(ps.drop_first(), k0, v0));
        if ps[0].0 {
            if ps[0].1 == k0 {
                assert(marked[0] == (false, v0));
                assert(spec_lookup(fs, k0) == fs[0].1);
            } else {
                assert(marked[0] == ps[0]);
                assert(spec_lookup(fs, ps[0].1) == spec_lookup(fs.drop_first(), ps[0].1));
            }
        } else {
            assert(marked[0] == ps[0]);
        }
    } else {
        assert(spec_pieces_mark(ps, k0, v0) =~= Seq::<(bool, Seq<char>)>::empty());
    }
}

/// A substring of the shape `%(` ... `)s`.
pub open spec fn has_template_token(s: Seq<char>) -> bool {
    exists|i: int, j: int|
        {
            &&& 0 <= i
            &&& i + 2 <= j
            &&& j + 2 <= s.len()
            &&& #[trigger] s[i] == '%'
            &&& s[i + 1] == '('
            &&& #[trigger] s[j] == ')'
            &&& s[j + 1] == 's'
        }
}

/// A string without `%` holds no substring of the shape `%(` ... `)s`; in
/// particular a successfully expanded key holds no leftover token.
pub proof fn lemma_no_pct_no_token(s: Seq<char>)
    requires
        !contains_char(s, '%'),
    ensures
        !has_template_token(s),
{
    assert forall|i: int, j: int|
        0 <= i && i + 2 <= j && j + 2 <= s.len() implies !(#[trigger] s[i] == '%' && s[i + 1]
        == '(' && #[trigger] s[j] == ')' && s[j + 1] == 's') by {
        assert(!(0 <= i < s.len() && s[i] == '%'));
    }
}

} // verus!
