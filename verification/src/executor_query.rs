//! The query-mode executor's decisions: the downloader arguments, the
//! reading of its per-video output lines, and the joined metadata that is
//! published as a ConfigMap once the stream ends. The subprocess and the
//! Kubernetes calls stay outside; they feed plain strings in and carry
//! plain values out.

use vstd::prelude::*;
use crate::metadata::Entity;
use crate::metadata::parse_entity;
use crate::metadata::spec_id_of;
use crate::text::chars_to_string;
use crate::text::contains_char;
use crate::text::join_chars;
use crate::text::spec_join;
use crate::text::to_char_vec;

verus! {

/// The downloader arguments of a query: one metadata json object per
/// line, errors optionally ignored, then the user's input.
pub fn build_args(url: &str, ignore_errors: bool) -> (r: Vec<String>)
    ensures
        r.deep_view() == spec_query_args(url@, ignore_errors),
{
    let mut args: Vec<String> = Vec::new();
    args.push(String::from_str("-j"));
    if ignore_errors {
        args.push(String::from_str("--ignore-errors"));
    }
    args.push(String::from_str(url));
    assert(args.deep_view() =~= spec_query_args(url@, ignore_errors));
    args
}

/// The downloader arguments of a query.
pub open spec fn spec_query_args(url: Seq<char>, ignore_errors: bool) -> Seq<Seq<char>> {
    if ignore_errors {
        seq!["-j"@, "--ignore-errors"@, url]
    } else {
        seq!["-j"@, url]
    }
}

/// Splits a string at every separator. The segments are free of the
/// separator and joining them with it restores the input, which pins the
/// split down exactly.
pub fn split_chars(s: &Vec<char>, sep: char) -> (r: Vec<Vec<char>>)
    ensures
        spec_join(r.deep_view(), sep) == s@,
        r.deep_view().len() >= 1,
        forall|k: int| 0 <= k < r.deep_view().len() ==> !contains_char(#[trigger] r.deep_view()[k], sep),
{
    let mut out: Vec<Vec<char>> = Vec::new();
    let mut cur: Vec<char> = Vec::new();
    let mut i: usize = 0;
    proof {
        assert(out.deep_view().push(cur@) =~= seq![Seq::<char>::empty()]);
        assert(spec_join(seq![Seq::<char>::empty()], sep) =~= s@.take(0));
    }
    while i < s.len()
        invariant
            i <= s@.len(),
            spec_join(out.deep_view().push(cur@), sep) == s@.take(i as int),
            !contains_char(cur@, sep),
            forall|k: int| 0 <= k < out.deep_view().len()
                ==> !contains_char(#[trigger] out.deep_view()[k], sep),
        decreases s@.len() - i,
    {
        let ghost old_out = out.deep_view();
        let ghost old_cur = cur@;
        let c = s[i];
        if c == sep {
            proof {
                crate::text::lemma_join_sep_extend(old_out, old_cur, sep);
            }
            out.push(cur);
            cur = Vec::new();
            proof {
                assert(out.deep_view() =~~= old_out.push(old_cur));
                assert(out.deep_view().push(cur@) =~~= old_out.push(old_cur).push(Seq::empty()));
                assert(s@.take(i + 1) =~= s@.take(i as int).push(sep));
            }
        } else {
            proof {
                crate::text::lemma_join_last_extend(old_out, old_cur, c, sep);
            }
            cur.push(c);
            proof {
                assert(out.deep_view().push(cur@) =~~= old_out.push(old_cur.push(c)));
                assert(s@.take(i + 1) =~= s@.take(i as int).push(c));
            }
        }
        i += 1;
    }
    proof {
        assert(s@.take(i as int) =~= s@);
    }
    let ghost final_out = out.deep_view();
    let ghost final_cur = cur@;
    out.push(cur);
    proof {
        assert(out.deep_view() =~~= final_out.push(final_cur));
    }
    out
}

/// Splits a multi-line payload into its lines.
pub fn split_lines(s: &String) -> (r: Vec<Vec<char>>)
    ensures
        spec_join(r.deep_view(), '\n') == s@,
        r.deep_view().len() >= 1,
        forall|k: int| 0 <= k < r.deep_view().len() ==> !contains_char(#[trigger] r.deep_view()[k], '\n'),
{
    split_chars(&to_char_vec(s.as_str()), '\n')
}

/// The view of a list of entities: each as its id and metadata line.
pub open spec fn spec_entity_views(es: Seq<Entity>) -> Seq<(Seq<char>, Seq<char>)> {
    es.map_values(|e: Entity| (e.id@, e.metadata@))
}

/// The entities carried by a list of lines: one per line that parses as a
/// metadata object with a string id, in order; all other lines are
/// passed over, as the stream may hold warnings.
pub open spec fn spec_entities_of(lines: Seq<Seq<char>>) -> Seq<(Seq<char>, Seq<char>)>
    decreases lines.len(),
{
    if lines.len() == 0 {
        Seq::empty()
    } else {
        let rest = spec_entities_of(lines.drop_first());
        match spec_id_of(lines[0]) {
            Some(id) => seq![(id, lines[0])] + rest,
            None => rest,
        }
    }
}

/// Parses the lines of a query's output into entities, skipping the lines
/// that carry no video id.
pub fn parse_entities(lines: &Vec<String>) -> (r: Vec<Entity>)
    ensures
        spec_entity_views(r@) == spec_entities_of(lines.deep_view()),
{
    let mut out: Vec<Entity> = Vec::new();
    let mut i: usize = 0;
    proof {
        assert(lines.deep_view().len() == lines@.len());
        assert(lines.deep_view().skip(0) =~= lines.deep_view());
        assert(spec_entity_views(out@) + spec_entities_of(lines.deep_view())
            =~= spec_entities_of(lines.deep_view()));
    }
    while i < lines.len()
        invariant
            i <= lines@.len(),
            lines.deep_view().len() == lines@.len(),
            spec_entity_views(out@) + spec_entities_of(lines.deep_view().skip(i as int))
                == spec_entities_of(lines.deep_view()),
        decreases lines@.len() - i,
    {
        let ghost rest = lines.deep_view().skip(i as int);
        proof {
            assert(rest[0] == lines.deep_view()[i as int]);
            assert(rest[0] == lines@[i as int]@);
            assert(rest.drop_first() =~= lines.deep_view().skip(i + 1));
        }
        let ghost old_views = spec_entity_views(out@);
        match parse_entity(&lines[i]) {
            Some(e) => {
                out.push(e);
                proof {
                    assert(spec_entity_views(out@) =~= old_views.push((e.id@, e.metadata@)));
                    assert(old_views.push((e.id@, e.metadata@))
                        + spec_entities_of(lines.deep_view().skip(i + 1))
                        =~= old_views + (seq![(e.id@, e.metadata@)]
                            + spec_entities_of(lines.deep_view().skip(i + 1))));
                }
            },
            None => {},
        }
        i += 1;
    }
    proof {
        assert(lines.deep_view().skip(i as int) =~= Seq::<Seq<char>>::empty());
        assert(spec_entity_views(out@) + Seq::<(Seq<char>, Seq<char>)>::empty()
            =~= spec_entity_views(out@));
    }
    out
}

/// Joins the accepted metadata lines into the payload published under
/// the ConfigMap's data key.
pub fn join_info_jsonl(lines: &Vec<Vec<char>>) -> (r: String)
    ensures
        r@ == spec_join(lines.deep_view(), '\n'),
{
    chars_to_string(&join_chars(lines, '\n'))
}

} // verus!
