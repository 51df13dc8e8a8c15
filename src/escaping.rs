//! What the HTML formatter guarantees: user text never reaches the output
//! as raw markup.

use vstd::prelude::*;
use crate::formatters::{
    entity_of, html_close, html_escaped, html_open, Decoration, Formatter, HtmlFormatter,
};
use crate::text::{concat_seqs, join_seqs};
use crate::ydresponse::{
    accented, explain_line, explain_lines, headline, phonetic_clause, render, render_lines,
    web_item_lines, web_lines, InnerModel, ResponseModel, WebModel,
};

verus! {

/// The characters that HTML escaping replaces by an entity.
pub open spec fn is_special(c: char) -> bool {
    c == '"' || c == '&' || c == '\'' || c == '<' || c == '>'
}

/// Whether one of the entities starts at index `i` of `t`.
pub open spec fn starts_entity(t: Seq<char>, i: int) -> bool {
    exists|c: char|
        is_special(c) && i + entity_of(c).len() <= t.len() && #[trigger] t.subrange(
            i,
            i + entity_of(c).len(),
        ) == entity_of(c)
}

/// Whether `t` is safe HTML text: no `<` or `>`, and each `&` starts an
/// entity.
pub open spec fn escaped_text(t: Seq<char>) -> bool {
    forall|i: int|
        0 <= i < t.len() ==> #[trigger] t[i] != '<' && t[i] != '>' && (t[i] == '&'
            ==> starts_entity(t, i))
}

/// Whether `p` is one of the tags that the HTML formatter inserts.
pub open spec fn is_tag(p: Seq<char>) -> bool {
    exists|d: Decoration| p == html_open(d) || p == html_close(d)
}

/// Whether `s` is made of inserted tags and safe HTML text alone.
pub open spec fn markup_safe(s: Seq<char>) -> bool {
    exists|parts: Seq<Seq<char>>|
        #[trigger] concat_seqs(parts) == s && forall|k: int|
            0 <= k < parts.len() ==> is_tag(#[trigger] parts[k]) || escaped_text(parts[k])
}

proof fn lemma_concat_seqs_append(p: Seq<Seq<char>>, q: Seq<Seq<char>>)
    ensures
        concat_seqs(p + q) == concat_seqs(p) + concat_seqs(q),
    decreases q.len(),
{
    if q.len() == 0 {
        assert(p + q =~= p);
        assert(concat_seqs(p) + concat_seqs(q) =~= concat_seqs(p));
    } else {
        assert((p + q).drop_last() =~= p + q.drop_last());
        lemma_concat_seqs_append(p, q.drop_last());
        assert(concat_seqs(p + q) =~= concat_seqs(p) + concat_seqs(q));
    }
}

proof fn lemma_escaped_concat(a: Seq<char>, b: Seq<char>)
    requires
        escaped_text(a),
        escaped_text(b),
    ensures
        escaped_text(a + b),
{
    let t = a + b;
    assert forall|i: int| 0 <= i < t.len() implies #[trigger] t[i] != '<' && t[i] != '>' && (t[i]
        == '&' ==> starts_entity(t, i)) by {
        if i < a.len() {
            assert(t[i] == a[i]);
            if a[i] == '&' {
                assert(starts_entity(a, i));
                let c = choose|c: char|
                    is_special(c) && i + entity_of(c).len() <= a.len() && #[trigger] a.subrange(
                        i,
                        i + entity_of(c).len(),
                    ) == entity_of(c);
                assert(t.subrange(i, i + entity_of(c).len()) =~= a.subrange(
                    i,
                    i + entity_of(c).len(),
                ));
            }
        } else {
            let j = i - a.len();
            assert(t[i] == b[j]);
            if b[j] == '&' {
                assert(starts_entity(b, j));
                let c = choose|c: char|
                    is_special(c) && j + entity_of(c).len() <= b.len() && #[trigger] b.subrange(
                        j,
                        j + entity_of(c).len(),
                    ) == entity_of(c);
                assert(t.subrange(i, i + entity_of(c).len()) =~= b.subrange(
                    j,
                    j + entity_of(c).len(),
                ));
            }
        }
    }
}

proof fn lemma_entity_escaped(c: char)
    ensures
        escaped_text(entity_of(c)),
{
    reveal_strlit("&quot;");
    reveal_strlit("&amp;");
    reveal_strlit("&#x27;");
    reveal_strlit("&lt;");
    reveal_strlit("&gt;");
    let e = entity_of(c);
    if is_special(c) {
        assert(e.subrange(0int, 0int + entity_of(c).len()) =~= entity_of(c));
        assert(starts_entity(e, 0));
    }
}

proof fn lemma_html_escaped(s: Seq<char>)
    ensures
        escaped_text(html_escaped(s)),
    decreases s.len(),
{
    if s.len() > 0 {
        lemma_html_escaped(s.drop_last());
        lemma_entity_escaped(s.last());
        lemma_escaped_concat(html_escaped(s.drop_last()), entity_of(s.last()));
    }
}

proof fn lemma_plain_text(t: Seq<char>)
    requires
        forall|i: int| 0 <= i < t.len() ==> #[trigger] t[i] != '<' && t[i] != '>' && t[i] != '&',
    ensures
        escaped_text(t),
{
}

proof fn lemma_safe_text(t: Seq<char>)
    requires
        escaped_text(t),
    ensures
        markup_safe(t),
{
    let parts = seq![t];
    assert(parts.drop_last() =~= Seq::<Seq<char>>::empty());
    assert(concat_seqs(Seq::<Seq<char>>::empty()) =~= Seq::<char>::empty());
    assert(concat_seqs(parts) == concat_seqs(parts.drop_last()) + parts.last());
    assert(concat_seqs(parts) =~= t);
}

proof fn lemma_safe_concat(a: Seq<char>, b: Seq<char>)
    requires
        markup_safe(a),
        markup_safe(b),
    ensures
        markup_safe(a + b),
{
    let pa = choose|parts: Seq<Seq<char>>|
        #[trigger] concat_seqs(parts) == a && forall|k: int|
            0 <= k < parts.len() ==> is_tag(#[trigger] parts[k]) || escaped_text(parts[k]);
    let pb = choose|parts: Seq<Seq<char>>|
        #[trigger] concat_seqs(parts) == b && forall|k: int|
            0 <= k < parts.len() ==> is_tag(#[trigger] parts[k]) || escaped_text(parts[k]);
    lemma_concat_seqs_append(pa, pb);
    let p = pa + pb;
    assert forall|k: int| 0 <= k < p.len() implies is_tag(#[trigger] p[k]) || escaped_text(p[k]) by {
        if k < pa.len() {
            assert(p[k] == pa[k]);
        } else {
            assert(p[k] == pb[k - pa.len()]);
        }
    }
    assert(concat_seqs(p) == a + b);
}

proof fn lemma_safe_tag(p: Seq<char>)
    requires
        is_tag(p),
    ensures
        markup_safe(p),
{
    let parts = seq![p];
    assert(parts.drop_last() =~= Seq::<Seq<char>>::empty());
    assert(concat_seqs(Seq::<Seq<char>>::empty()) =~= Seq::<char>::empty());
    assert(concat_seqs(parts) == concat_seqs(parts.drop_last()) + parts.last());
    assert(concat_seqs(parts) =~= p);
}

/// Every HTML decoration is its opening tag, the escaped text, and its
/// closing tag, and the escaped text is safe.
proof fn lemma_safe_decoration(d: Decoration, s: Seq<char>)
    ensures
        markup_safe(html_open(d) + html_escaped(s) + html_close(d)),
        escaped_text(html_escaped(s)),
{
    lemma_html_escaped(s);
    lemma_safe_text(html_escaped(s));
    assert(is_tag(html_open(d)));
    assert(is_tag(html_close(d)));
    lemma_safe_tag(html_open(d));
    lemma_safe_tag(html_close(d));
    lemma_safe_concat(html_open(d), html_escaped(s));
    lemma_safe_concat(html_open(d) + html_escaped(s), html_close(d));
}

/// The fixed text that the layout puts around decorated parts.
proof fn lemma_safe_literals()
    ensures
        markup_safe(" UK: ["@),
        markup_safe("], US: ["@),
        markup_safe("]"@),
        markup_safe("["@),
        markup_safe(" "@),
        markup_safe("     * "@),
        markup_safe("       "@),
        markup_safe("；"@),
        markup_safe("\n"@),
        markup_safe("    "@),
        markup_safe(Seq::<char>::empty()),
{
    reveal_strlit(" UK: [");
    reveal_strlit("], US: [");
    reveal_strlit("]");
    reveal_strlit("[");
    reveal_strlit(" ");
    reveal_strlit("     * ");
    reveal_strlit("       ");
    reveal_strlit("；");
    reveal_strlit("\n");
    reveal_strlit("    ");
    lemma_plain_text(" UK: ["@);
    lemma_plain_text("], US: ["@);
    lemma_plain_text("]"@);
    lemma_plain_text("["@);
    lemma_plain_text(" "@);
    lemma_plain_text("     * "@);
    lemma_plain_text("       "@);
    lemma_plain_text("；"@);
    lemma_plain_text("\n"@);
    lemma_plain_text("    "@);
    lemma_plain_text(Seq::<char>::empty());
    lemma_safe_text(" UK: ["@);
    lemma_safe_text("], US: ["@);
    lemma_safe_text("]"@);
    lemma_safe_text("["@);
    lemma_safe_text(" "@);
    lemma_safe_text("     * "@);
    lemma_safe_text("       "@);
    lemma_safe_text("；"@);
    lemma_safe_text("\n"@);
    lemma_safe_text("    "@);
    lemma_safe_text(Seq::<char>::empty());
}

proof fn lemma_safe_join(parts: Seq<Seq<char>>, sep: Seq<char>)
    requires
        forall|k: int| 0 <= k < parts.len() ==> markup_safe(#[trigger] parts[k]),
        markup_safe(sep),
    ensures
        markup_safe(join_seqs(parts, sep)),
    decreases parts.len(),
{
    if parts.len() == 0 {
        lemma_safe_literals();
    } else if parts.len() > 1 {
        lemma_safe_join(parts.drop_last(), sep);
        lemma_safe_concat(join_seqs(parts.drop_last(), sep), sep);
        lemma_safe_concat(join_seqs(parts.drop_last(), sep) + sep, parts.last());
    }
}

proof fn lemma_safe_web_lines(web: Seq<WebModel>, f: &HtmlFormatter)
    ensures
        forall|k: int|
            0 <= k < web_lines(web, f).len() ==> markup_safe(#[trigger] web_lines(web, f)[k]),
    decreases web.len(),
{
    if web.len() > 0 {
        lemma_safe_web_lines(web.drop_last(), f);
        let w = web.last();
        lemma_safe_literals();
        lemma_safe_decoration(Decoration::Yellow, w.key);
        lemma_safe_concat("     * "@, f.decorate(Decoration::Yellow, w.key));
        let acc = accented(w.value, f);
        assert forall|k: int| 0 <= k < acc.len() implies markup_safe(#[trigger] acc[k]) by {
            lemma_safe_decoration(Decoration::Purple, w.value[k]);
        }
        lemma_safe_join(acc, "；"@);
        lemma_safe_concat("       "@, join_seqs(acc, "；"@));
        let prev = web_lines(web.drop_last(), f);
        let item = web_item_lines(w, f);
        assert forall|k: int|
            0 <= k < web_lines(web, f).len() implies markup_safe(
            #[trigger] web_lines(web, f)[k],
        ) by {
            if k < prev.len() {
                assert(web_lines(web, f)[k] == prev[k]);
            } else {
                assert(web_lines(web, f)[k] == item[k - prev.len()]);
            }
        }
    }
}

proof fn lemma_safe_full_lines(query: Seq<char>, i: InnerModel, f: &HtmlFormatter)
    ensures
        forall|k: int|
            0 <= k < crate::ydresponse::full_lines(query, i, f).len() ==> markup_safe(
                #[trigger] crate::ydresponse::full_lines(query, i, f)[k],
            ),
{
    lemma_safe_literals();
    let b = i.basic;
    lemma_safe_decoration(Decoration::Underline, query);
    lemma_safe_decoration(Decoration::Default, join_seqs(i.translation, "; "@));
    match (b.us_phonetic, b.uk_phonetic) {
        (Some(us), Some(uk)) => {
            lemma_safe_decoration(Decoration::Yellow, uk);
            lemma_safe_decoration(Decoration::Yellow, us);
            lemma_safe_concat(" UK: ["@, f.decorate(Decoration::Yellow, uk));
            lemma_safe_concat(" UK: ["@ + f.decorate(Decoration::Yellow, uk), "], US: ["@);
            lemma_safe_concat(
                " UK: ["@ + f.decorate(Decoration::Yellow, uk) + "], US: ["@,
                f.decorate(Decoration::Yellow, us),
            );
            lemma_safe_concat(
                " UK: ["@ + f.decorate(Decoration::Yellow, uk) + "], US: ["@ + f.decorate(
                    Decoration::Yellow,
                    us,
                ),
                "]"@,
            );
        },
        _ => match b.phonetic {
            Some(p) => {
                lemma_safe_decoration(Decoration::Yellow, p);
                lemma_safe_concat("["@, f.decorate(Decoration::Yellow, p));
                lemma_safe_concat("["@ + f.decorate(Decoration::Yellow, p), "]"@);
            },
            None => {},
        },
    }
    let u = f.decorate(Decoration::Underline, query);
    let pc = phonetic_clause(b, f);
    lemma_safe_concat(u, " "@);
    lemma_safe_concat(u + " "@, pc);
    lemma_safe_concat(u + " "@ + pc, " "@);
    lemma_safe_concat(
        u + " "@ + pc + " "@,
        f.decorate(Decoration::Default, join_seqs(i.translation, "; "@)),
    );
    let h = headline(query, i, f);
    let el = explain_lines(b.explains, f);
    lemma_safe_decoration(Decoration::Cyan, "  Word Explanation:"@);
    lemma_safe_decoration(Decoration::Cyan, "  Web Reference:"@);
    assert forall|k: int| 0 <= k < el.len() implies markup_safe(#[trigger] el[k]) by {
        if k > 0 {
            lemma_safe_decoration(Decoration::Default, "     * "@ + b.explains[k - 1]);
            assert(el[k] == explain_line(b.explains[k - 1], f));
        }
    }
    lemma_safe_web_lines(i.web, f);
    let all = crate::ydresponse::full_lines(query, i, f);
    let wl = web_lines(i.web, f);
    assert forall|k: int| 0 <= k < all.len() implies markup_safe(#[trigger] all[k]) by {
        if k == 0 {
            assert(all[k] == h);
        } else if k < 1 + el.len() {
            assert(all[k] == el[k - 1]);
        } else if k == 1 + el.len() {
            assert(all[k] == f.decorate(Decoration::Cyan, "  Web Reference:"@));
        } else {
            assert(all[k] == wl[k - 2 - el.len()]);
        }
    }
}

/// With the HTML formatter, the rendered output is made of the inserted
/// tags and safe text alone: no `<`, `>` or `&` of the entry's own text
/// appears raw. This holds of every entry whose translations are safe text
/// where the reduced layout shows them, since that layout does not escape
/// them.
pub proof fn html_render_is_escaped(r: ResponseModel, f: &HtmlFormatter)
    requires
        r.inner is Some && r.inner->Some_0.web.len() == 0 ==> forall|k: int|
            0 <= k < r.inner->Some_0.translation.len() ==> escaped_text(
                #[trigger] r.inner->Some_0.translation[k],
            ),
    ensures
        markup_safe(render(r, f)),
{
    lemma_safe_literals();
    let lines = render_lines(r, f);
    match r.inner {
        None => {
            lemma_safe_decoration(Decoration::Red, crate::ydresponse::no_result_text());
        },
        Some(i) => {
            if i.web.len() == 0 {
                lemma_safe_decoration(Decoration::Underline, r.query);
                lemma_safe_decoration(Decoration::Cyan, "  Translation:"@);
                assert forall|k: int|
                    0 <= k < i.translation.len() implies markup_safe(
                    #[trigger] i.translation[k],
                ) by {
                    lemma_safe_text(i.translation[k]);
                }
                lemma_safe_join(i.translation, "；"@);
                lemma_safe_concat("    "@, join_seqs(i.translation, "；"@));
            } else {
                lemma_safe_full_lines(r.query, i, f);
            }
        },
    }
    assert(forall|k: int| 0 <= k < lines.len() ==> markup_safe(#[trigger] lines[k]));
    lemma_safe_join(lines, "\n"@);
}

} // verus!
