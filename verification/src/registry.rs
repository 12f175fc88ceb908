//! The source registry's text format: the backing store is a plain text
//! file, one source URL per line with a trailing newline. Appending a
//! source appends one line; replacing writes the whole list; listing
//! splits on newlines and discards blank lines, preserving order.
//!
//! The laws at the end relate the three: an appended source comes back as
//! the last listed element, and a replaced list comes back exactly.

use crate::text::{is_blank, is_blank_str};
use vstd::prelude::*;

verus! {

/// What splitting text on `'\n'` yields: the pieces between newlines, in
/// order, including empty pieces; splitting empty text yields one empty
/// piece.
pub open spec fn split_lines(s: Seq<char>) -> Seq<Seq<char>>
    decreases s.len(),
{
    if s.len() == 0 {
        seq![Seq::<char>::empty()]
    } else if s.last() == '\n' {
        split_lines(s.drop_last()).push(Seq::<char>::empty())
    } else {
        let r = split_lines(s.drop_last());
        r.update(r.len() - 1, r.last().push(s.last()))
    }
}

pub proof fn lemma_split_lines_len(s: Seq<char>)
    ensures
        split_lines(s).len() >= 1,
    decreases s.len(),
{
    if s.len() > 0 {
        lemma_split_lines_len(s.drop_last());
    }
}

/// The lines that survive listing: the non-blank ones, in order.
pub open spec fn keep_lines(ls: Seq<Seq<char>>) -> Seq<Seq<char>>
    decreases ls.len(),
{
    if ls.len() == 0 {
        Seq::empty()
    } else {
        keep_lines(ls.drop_last()) + if !is_blank(ls.last()) {
            seq![ls.last()]
        } else {
            Seq::empty()
        }
    }
}

/// What listing the registry returns for given backing text: split on
/// newlines, blank lines discarded, order preserved.
pub open spec fn parse_sources_spec(s: Seq<char>) -> Seq<Seq<char>> {
    keep_lines(split_lines(s))
}

/// The line appended to the backing store for one added source.
pub open spec fn source_line_spec(src: Seq<char>) -> Seq<char> {
    src.push('\n')
}

pub open spec fn cat_lines(ss: Seq<Seq<char>>) -> Seq<char>
    decreases ss.len(),
{
    if ss.len() == 0 {
        Seq::empty()
    } else {
        cat_lines(ss.drop_last()) + ss.last() + seq!['\n']
    }
}

/// The whole backing text written when the list is replaced: the sources
/// joined by newlines with a trailing newline, which for an empty list is
/// a single newline.
pub open spec fn render_sources_spec(ss: Seq<Seq<char>>) -> Seq<char> {
    if ss.len() == 0 {
        seq!['\n']
    } else {
        cat_lines(ss)
    }
}

/// A source string that the text format can carry on one line.
pub open spec fn line_safe(s: Seq<char>) -> bool {
    &&& !is_blank(s)
    &&& forall|i: int| 0 <= i < s.len() ==> s[i] != '\n'
}

/// The line to append to the backing store for one source.
pub fn source_line(source: &str) -> (r: String)
    ensures
        r@ == source_line_spec(source@),
{
    let mut r = source.to_owned();
    r.append("\n");
    proof {
        reveal_strlit("\n");
        assert(r@ =~= source@.push('\n'));
    }
    r
}

/// The full backing text for a replaced source list.
pub fn render_sources(sources: &Vec<String>) -> (r: String)
    ensures
        r@ == render_sources_spec(sources.deep_view()),
{
    if sources.len() == 0 {
        let r = "\n".to_owned();
        proof {
            reveal_strlit("\n");
            assert(r@ =~= seq!['\n']);
        }
        return r;
    }
    let mut r = String::new();
    let mut i: usize = 0;
    while i < sources.len()
        invariant
            0 <= i <= sources.len(),
            r@ == cat_lines(sources.deep_view().subrange(0, i as int)),
        decreases sources.len() - i,
    {
        r.append(sources[i].as_str());
        r.append("\n");
        proof {
            reveal_strlit("\n");
            let pre = sources.deep_view().subrange(0, i as int + 1);
            assert(pre.drop_last() =~~= sources.deep_view().subrange(0, i as int));
            assert(pre.last() == sources[i as int]@);
            assert(r@ =~= cat_lines(pre));
        }
        i += 1;
    }
    proof {
        assert(sources.deep_view().subrange(0, sources.len() as int) =~~= sources.deep_view());
    }
    r
}

/// Lists the sources in backing text: the non-blank lines, in order.
pub fn parse_sources(text: &str) -> (r: Vec<String>)
    ensures
        r.deep_view() == parse_sources_spec(text@),
{
    let n = text.unicode_len();
    let mut out: Vec<String> = Vec::new();
    let mut cur = String::new();
    let mut i: usize = 0;
    proof {
        assert(text@.subrange(0, 0) =~= Seq::<char>::empty());
    }
    while i < n
        invariant
            0 <= i <= n,
            n == text@.len(),
            cur@ == split_lines(text@.subrange(0, i as int)).last(),
            out.deep_view() == keep_lines(split_lines(text@.subrange(0, i as int)).drop_last()),
        decreases n - i,
    {
        let ghost pre = text@.subrange(0, i as int);
        let ghost post = text@.subrange(0, i as int + 1);
        proof {
            lemma_split_lines_len(pre);
            assert(post.drop_last() =~= pre);
            assert(post.last() == text@[i as int]);
        }
        let c = text.get_char(i);
        if c == '\n' {
            let ghost sp = split_lines(pre);
            proof {
                assert(split_lines(post) =~~= sp.push(Seq::<char>::empty()));
                assert(sp.push(Seq::<char>::empty()).drop_last() =~~= sp);
                assert(sp =~~= sp.drop_last().push(sp.last()));
            }
            let blank = is_blank_str(cur.as_str());
            if !blank {
                let ghost old_out = out.deep_view();
                out.push(cur);
                proof {
                    assert(out.deep_view() =~~= old_out.push(cur@));
                    assert(keep_lines(sp.drop_last().push(sp.last())) =~~= keep_lines(
                        sp.drop_last(),
                    ).push(sp.last()));
                }
            } else {
                proof {
                    assert(keep_lines(sp.drop_last().push(sp.last())) =~~= keep_lines(
                        sp.drop_last(),
                    ));
                }
            }
            cur = String::new();
        } else {
            let ghost sp = split_lines(pre);
            let piece = text.substring_char(i, i + 1);
            cur.append(piece);
            proof {
                assert(piece@ =~= seq![text@[i as int]]);
                let spost = sp.update(sp.len() - 1, sp.last().push(text@[i as int]));
                assert(split_lines(post) =~~= spost);
                assert(spost.drop_last() =~~= sp.drop_last());
                assert(cur@ =~= spost.last());
            }
        }
        i += 1;
    }
    proof {
        assert(text@.subrange(0, n as int) =~= text@);
        lemma_split_lines_len(text@);
    }
    let blank = is_blank_str(cur.as_str());
    if !blank {
        let ghost old_out = out.deep_view();
        let ghost sp = split_lines(text@);
        out.push(cur);
        proof {
            assert(out.deep_view() =~~= old_out.push(cur@));
            assert(sp =~~= sp.drop_last().push(sp.last()));
            assert(keep_lines(sp.drop_last().push(sp.last())) =~~= keep_lines(sp.drop_last()).push(
                sp.last(),
            ));
        }
    } else {
        proof {
            let sp = split_lines(text@);
            assert(sp =~~= sp.drop_last().push(sp.last()));
            assert(keep_lines(sp.drop_last().push(sp.last())) =~~= keep_lines(sp.drop_last()));
        }
    }
    out
}

/// Listing is read-only and deterministic: two reads of the same backing
/// text, with no write in between, list the same sources.
pub proof fn lemma_list_idempotent(text: Seq<char>, r1: Seq<Seq<char>>, r2: Seq<Seq<char>>)
    requires
        r1 == parse_sources_spec(text),
        r2 == parse_sources_spec(text),
    ensures
        r1 == r2,
{
}

proof fn lemma_split_append_nonl(s: Seq<char>, t: Seq<char>)
    requires
        forall|i: int| 0 <= i < t.len() ==> t[i] != '\n',
    ensures
        split_lines(s + t).len() == split_lines(s).len(),
        split_lines(s + t) == split_lines(s).update(
            split_lines(s).len() - 1,
            split_lines(s).last() + t,
        ),
    decreases t.len(),
{
    lemma_split_lines_len(s);
    let r = split_lines(s);
    if t.len() == 0 {
        assert(s + t =~= s);
        assert(r.update(r.len() - 1, r.last() + t) =~~= r);
    } else {
        let t0 = t.drop_last();
        lemma_split_append_nonl(s, t0);
        let a = s + t0;
        let ra = split_lines(a);
        assert((s + t).drop_last() =~= a);
        assert((s + t).last() == t.last());
        assert((s + t).len() > 0);
        assert(split_lines(s + t) =~~= ra.update(ra.len() - 1, ra.last().push(t.last())));
        assert(ra.last() == r.last() + t0);
        assert((r.last() + t0).push(t.last()) =~= r.last() + t);
        assert(ra.update(ra.len() - 1, r.last() + t) =~~= r.update(r.len() - 1, r.last() + t));
    }
}

proof fn lemma_split_last_empty(s: Seq<char>)
    requires
        s.len() == 0 || s.last() == '\n',
    ensures
        split_lines(s).last() == Seq::<char>::empty(),
{
}

/// Appending one line-safe source to any well-formed backing text (empty,
/// or ending in a newline) and listing again yields the old listing with
/// the new source as its last element, byte for byte.
pub proof fn lemma_add_then_list(store: Seq<char>, src: Seq<char>)
    requires
        store.len() == 0 || store.last() == '\n',
        line_safe(src),
    ensures
        parse_sources_spec(store + source_line_spec(src)) == parse_sources_spec(store).push(src),
{
    lemma_split_lines_len(store);
    let r = split_lines(store);
    let k = r.len();
    lemma_split_append_nonl(store, src);
    lemma_split_last_empty(store);
    assert(Seq::<char>::empty() + src =~= src);
    let a = store + src;
    let sa = split_lines(a);
    assert(sa =~~= r.update(k - 1, src));
    assert(store + source_line_spec(src) =~= a.push('\n'));
    assert(a.push('\n').drop_last() =~= a);
    assert(a.push('\n').len() > 0);
    assert(a.push('\n').last() == '\n');
    assert(split_lines(a.push('\n')) =~~= sa.push(Seq::<char>::empty()));
    let sb = sa.push(Seq::<char>::empty());
    assert(sb.drop_last() =~~= sa);
    assert(is_blank(Seq::<char>::empty()));
    assert(keep_lines(sb) =~~= keep_lines(sa));
    assert(sa.len() == k);
    assert(sa.last() == src);
    assert(keep_lines(sa) =~~= keep_lines(sa.drop_last()) + seq![src]);
    assert(sa.drop_last() =~~= r.drop_last());
    assert(r =~~= r.drop_last().push(r.last()));
    assert(r.last() == Seq::<char>::empty());
    assert(keep_lines(r.drop_last().push(r.last())) =~~= keep_lines(r.drop_last()));
    assert(parse_sources_spec(store) =~~= keep_lines(r.drop_last()));
    assert(parse_sources_spec(store + source_line_spec(src)) =~~= keep_lines(r.drop_last())
        + seq![src]);
    assert(keep_lines(r.drop_last()) + seq![src] =~~= keep_lines(r.drop_last()).push(src));
}

proof fn lemma_parse_cat(ss: Seq<Seq<char>>)
    requires
        forall|i: int| 0 <= i < ss.len() ==> #[trigger] line_safe(ss[i]),
    ensures
        cat_lines(ss).len() == 0 || cat_lines(ss).last() == '\n',
        parse_sources_spec(cat_lines(ss)) == ss,
    decreases ss.len(),
{
    if ss.len() == 0 {
        assert(cat_lines(ss) =~= Seq::<char>::empty());
        let sp = seq![Seq::<char>::empty()];
        assert(split_lines(Seq::<char>::empty()) =~~= sp);
        assert(sp.drop_last() =~~= Seq::<Seq<char>>::empty());
        assert(is_blank(Seq::<char>::empty()));
        assert(keep_lines(sp) =~~= keep_lines(sp.drop_last()));
        assert(parse_sources_spec(Seq::<char>::empty()) =~~= ss);
    } else {
        let d = ss.drop_last();
        lemma_parse_cat(d);
        let store = cat_lines(d);
        lemma_add_then_list(store, ss.last());
        assert(cat_lines(ss) =~= store + source_line_spec(ss.last()));
        assert(parse_sources_spec(cat_lines(ss)) =~~= d.push(ss.last()));
        assert(d.push(ss.last()) =~~= ss);
        assert(cat_lines(ss).last() == '\n');
    }
}

/// Replacing the registry's whole content with a list of line-safe
/// sources and listing again yields exactly that list, in order: a full
/// overwrite, no merge with prior content.
pub proof fn lemma_replace_then_list(ss: Seq<Seq<char>>)
    requires
        forall|i: int| 0 <= i < ss.len() ==> #[trigger] line_safe(ss[i]),
    ensures
        parse_sources_spec(render_sources_spec(ss)) == ss,
{
    if ss.len() == 0 {
        let nl = seq!['\n'];
        assert(nl.len() == 1 && nl.last() == '\n');
        assert(nl.drop_last() =~= Seq::<char>::empty());
        let se = seq![Seq::<char>::empty()];
        assert(split_lines(Seq::<char>::empty()) =~~= se);
        assert(split_lines(nl) =~~= se.push(Seq::<char>::empty()));
        let sp = se.push(Seq::<char>::empty());
        assert(sp.drop_last() =~~= se);
        assert(is_blank(Seq::<char>::empty()));
        assert(keep_lines(sp) =~~= keep_lines(se));
        assert(se.drop_last() =~~= Seq::<Seq<char>>::empty());
        assert(keep_lines(se) =~~= keep_lines(se.drop_last()));
        assert(parse_sources_spec(nl) =~~= ss);
    } else {
        lemma_parse_cat(ss);
    }
}

} // verus!
