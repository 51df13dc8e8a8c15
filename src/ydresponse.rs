//! The dictionary entry extracted from a result page, and its rendering.

use vstd::prelude::*;
use crate::formatters::{Decoration, Formatter};
use crate::text::{join, join_seqs};

verus! {

/// Basic result: explanations and phonetics.
pub struct YdBasic {
    pub explains: Vec<String>,
    pub phonetic: Option<String>,
    pub us_phonetic: Option<String>,
    pub uk_phonetic: Option<String>,
}

/// One web reference: a phrase and its translations.
pub struct YdWeb {
    pub key: String,
    pub value: Vec<String>,
}

/// The payload of an entry that was found.
pub struct YdResponseInner {
    pub translation: Vec<String>,
    pub basic: YdBasic,
    pub web: Vec<YdWeb>,
}

/// A dictionary entry: the query word, and the payload unless the page said
/// that there is no result.
pub struct YdResponse {
    pub query: String,
    pub inner: Option<YdResponseInner>,
}

/// What a `YdBasic` holds, as sequences of characters.
pub struct BasicModel {
    pub explains: Seq<Seq<char>>,
    pub phonetic: Option<Seq<char>>,
    pub us_phonetic: Option<Seq<char>>,
    pub uk_phonetic: Option<Seq<char>>,
}

/// What a `YdWeb` holds.
pub struct WebModel {
    pub key: Seq<char>,
    pub value: Seq<Seq<char>>,
}

/// What a `YdResponseInner` holds.
pub struct InnerModel {
    pub translation: Seq<Seq<char>>,
    pub basic: BasicModel,
    pub web: Seq<WebModel>,
}

/// What a `YdResponse` holds.
pub struct ResponseModel {
    pub query: Seq<char>,
    pub inner: Option<InnerModel>,
}

pub open spec fn opt_view(o: Option<String>) -> Option<Seq<char>> {
    match o {
        Some(s) => Some(s@),
        None => None,
    }
}

impl View for YdBasic {
    type V = BasicModel;

    open spec fn view(&self) -> BasicModel {
        BasicModel {
            explains: self.explains.deep_view(),
            phonetic: opt_view(self.phonetic),
            us_phonetic: opt_view(self.us_phonetic),
            uk_phonetic: opt_view(self.uk_phonetic),
        }
    }
}

impl View for YdWeb {
    type V = WebModel;

    open spec fn view(&self) -> WebModel {
        WebModel { key: self.key@, value: self.value.deep_view() }
    }
}

pub open spec fn webs_view(w: Seq<YdWeb>) -> Seq<WebModel> {
    w.map_values(|x: YdWeb| x@)
}

impl View for YdResponseInner {
    type V = InnerModel;

    open spec fn view(&self) -> InnerModel {
        InnerModel {
            translation: self.translation.deep_view(),
            basic: self.basic@,
            web: webs_view(self.web@),
        }
    }
}

impl View for YdResponse {
    type V = ResponseModel;

    open spec fn view(&self) -> ResponseModel {
        ResponseModel {
            query: self.query@,
            inner: match self.inner {
                Some(i) => Some(i@),
                None => None,
            },
        }
    }
}

/// The line shown when the page had no entry, before decoration.
pub open spec fn no_result_text() -> Seq<char> {
    " -- No result for this query."@
}

/// The phonetic part of the headline: the UK and US pair when both are
/// known, else the generic phonetic, else nothing.
pub open spec fn phonetic_clause<F: Formatter>(b: BasicModel, f: &F) -> Seq<char> {
    match (b.us_phonetic, b.uk_phonetic) {
        (Some(us), Some(uk)) => " UK: ["@ + f.decorate(Decoration::Yellow, uk) + "], US: ["@
            + f.decorate(Decoration::Yellow, us) + "]"@,
        _ => match b.phonetic {
            Some(p) => "["@ + f.decorate(Decoration::Yellow, p) + "]"@,
            None => Seq::empty(),
        },
    }
}

/// The first line of the full layout.
pub open spec fn headline<F: Formatter>(query: Seq<char>, i: InnerModel, f: &F) -> Seq<char> {
    f.decorate(Decoration::Underline, query) + " "@ + phonetic_clause(i.basic, f) + " "@
        + f.decorate(Decoration::Default, join_seqs(i.translation, "; "@))
}

/// One line for an explanation.
pub open spec fn explain_line<F: Formatter>(e: Seq<char>, f: &F) -> Seq<char> {
    f.decorate(Decoration::Default, "     * "@ + e)
}

/// The explanation section: nothing when there is no explanation.
pub open spec fn explain_lines<F: Formatter>(explains: Seq<Seq<char>>, f: &F) -> Seq<Seq<char>> {
    if explains.len() == 0 {
        Seq::empty()
    } else {
        seq![f.decorate(Decoration::Cyan, "  Word Explanation:"@)] + explains.map_values(
            |e: Seq<char>| explain_line(e, f),
        )
    }
}

/// The accented values of a web reference.
pub open spec fn accented<F: Formatter>(values: Seq<Seq<char>>, f: &F) -> Seq<Seq<char>> {
    values.map_values(|v: Seq<char>| f.decorate(Decoration::Purple, v))
}

/// The two lines of one web reference: its key, then its values.
pub open spec fn web_item_lines<F: Formatter>(w: WebModel, f: &F) -> Seq<Seq<char>> {
    seq![
        "     * "@ + f.decorate(Decoration::Yellow, w.key),
        "       "@ + join_seqs(accented(w.value, f), "；"@),
    ]
}

/// The lines of all web references, in order.
pub open spec fn web_lines<F: Formatter>(web: Seq<WebModel>, f: &F) -> Seq<Seq<char>>
    decreases web.len(),
{
    if web.len() == 0 {
        Seq::empty()
    } else {
        web_lines(web.drop_last(), f) + web_item_lines(web.last(), f)
    }
}

/// The three lines of the reduced layout, used when there is no web reference.
pub open spec fn reduced_lines<F: Formatter>(query: Seq<char>, i: InnerModel, f: &F) -> Seq<
    Seq<char>,
> {
    seq![
        f.decorate(Decoration::Underline, query),
        f.decorate(Decoration::Cyan, "  Translation:"@),
        "    "@ + join_seqs(i.translation, "；"@),
    ]
}

/// The lines of the full layout.
pub open spec fn full_lines<F: Formatter>(query: Seq<char>, i: InnerModel, f: &F) -> Seq<
    Seq<char>,
> {
    seq![headline(query, i, f)] + explain_lines(i.basic.explains, f) + seq![
        f.decorate(Decoration::Cyan, "  Web Reference:"@),
    ] + web_lines(i.web, f)
}

/// The lines that render an entry.
pub open spec fn render_lines<F: Formatter>(r: ResponseModel, f: &F) -> Seq<Seq<char>> {
    match r.inner {
        None => seq![f.decorate(Decoration::Red, no_result_text())],
        Some(i) => if i.web.len() == 0 {
            reduced_lines(r.query, i, f)
        } else {
            full_lines(r.query, i, f)
        },
    }
}

/// An entry rendered with a formatter: its lines joined by newlines.
pub open spec fn render<F: Formatter>(r: ResponseModel, f: &F) -> Seq<char> {
    join_seqs(render_lines(r, f), "\n"@)
}

/// `a` followed by `b`.
fn cat(a: &str, b: &str) -> (r: String)
    ensures
        r@ == a@ + b@,
{
    String::from_str(a).concat(b)
}

/// The phonetic part of the headline.
fn phonetic_text<F: Formatter>(b: &YdBasic, fmt: &F) -> (r: String)
    ensures
        r@ == phonetic_clause(b@, fmt),
{
    match (&b.us_phonetic, &b.uk_phonetic) {
        (Some(us), Some(uk)) => {
            let r = cat(" UK: [", fmt.yellow(uk.as_str()).as_str());
            let r = r.concat("], US: [");
            let r = r.concat(fmt.yellow(us.as_str()).as_str());
            r.concat("]")
        },
        _ => match &b.phonetic {
            Some(p) => {
                let r = cat("[", fmt.yellow(p.as_str()).as_str());
                r.concat("]")
            },
            None => String::new(),
        },
    }
}

/// The values of one web reference, each accented, joined.
fn web_values_line<F: Formatter>(w: &YdWeb, fmt: &F) -> (r: String)
    ensures
        r@ == "       "@ + join_seqs(accented(w.value.deep_view(), fmt), "；"@),
{
    let mut vals: Vec<String> = Vec::new();
    let mut j: usize = 0;
    while j < w.value.len()
        invariant
            j <= w.value.len(),
            vals.deep_view() =~= accented(w.value.deep_view().take(j as int), fmt),
        decreases w.value.len() - j,
    {
        let v = fmt.purple(w.value[j].as_str());
        let ghost old_vals = vals.deep_view();
        vals.push(v);
        assert(vals.deep_view() =~= old_vals.push(v@));
        assert(w.value.deep_view().take(j + 1) =~= w.value.deep_view().take(j as int).push(
            w.value[j as int]@,
        ));
        j = j + 1;
    }
    assert(w.value.deep_view().take(j as int) =~= w.value.deep_view());
    let joined = join(&vals, "；");
    cat("       ", joined.as_str())
}

impl YdResponse {
    /// Explains the entry in text, using a formatter for the decorations.
    /// The lines are joined by newlines, with none at the end.
    pub fn explain<F: Formatter>(&self, fmt: &F) -> (r: String)
        ensures
            r@ == render(self@, fmt),
    {
        let mut result: Vec<String> = Vec::new();
        match &self.inner {
            None => {
                result.push(fmt.red(" -- No result for this query."));
                assert(result.deep_view() =~= render_lines(self@, fmt));
                return join(&result, "\n");
            },
            Some(inner) => {
                let ghost iv = inner@;
                if inner.web.len() == 0 {
                    result.push(fmt.underline(self.query.as_str()));
                    result.push(fmt.cyan("  Translation:"));
                    let t = join(&inner.translation, "；");
                    result.push(cat("    ", t.as_str()));
                    assert(result.deep_view() =~= render_lines(self@, fmt));
                    return join(&result, "\n");
                }
                let phon = phonetic_text(&inner.basic, fmt);
                let line = fmt.underline(self.query.as_str());
                let line = line.concat(" ");
                let line = line.concat(phon.as_str());
                let line = line.concat(" ");
                let trans = join(&inner.translation, "; ");
                let line = line.concat(fmt.default(trans.as_str()).as_str());
                result.push(line);
                let ghost head = seq![headline(self.query@, iv, fmt)];
                assert(result.deep_view() =~= head);
                let explains = &inner.basic.explains;
                if explains.len() > 0 {
                    result.push(fmt.cyan("  Word Explanation:"));
                    let mut k: usize = 0;
                    while k < explains.len()
                        invariant
                            k <= explains.len(),
                            explains.len() > 0,
                            explains.deep_view() == iv.basic.explains,
                            result.deep_view() =~= head + seq![
                                fmt.decorate(Decoration::Cyan, "  Word Explanation:"@),
                            ] + explains.deep_view().take(k as int).map_values(
                                |e: Seq<char>| explain_line(e, fmt),
                            ),
                        decreases explains.len() - k,
                    {
                        let s = cat("     * ", explains[k].as_str());
                        let d = fmt.default(s.as_str());
                        let ghost old_res = result.deep_view();
                        result.push(d);
                        assert(result.deep_view() =~= old_res.push(d@));
                        assert(explains.deep_view().take(k + 1) =~= explains.deep_view().take(
                            k as int,
                        ).push(explains[k as int]@));
                        k = k + 1;
                    }
                    assert(explains.deep_view().take(k as int) =~= explains.deep_view());
                }
                let ghost before = head + explain_lines(iv.basic.explains, fmt);
                assert(result.deep_view() =~= before);
                result.push(fmt.cyan("  Web Reference:"));
                let ghost before = before + seq![
                    fmt.decorate(Decoration::Cyan, "  Web Reference:"@),
                ];
                let mut i: usize = 0;
                while i < inner.web.len()
                    invariant
                        i <= inner.web.len(),
                        webs_view(inner.web@) == iv.web,
                        result.deep_view() =~= before + web_lines(
                            webs_view(inner.web@).take(i as int),
                            fmt,
                        ),
                    decreases inner.web.len() - i,
                {
                    let item = &inner.web[i];
                    let y = fmt.yellow(item.key.as_str());
                    let l1 = cat("     * ", y.as_str());
                    let l2 = web_values_line(item, fmt);
                    let ghost old_res = result.deep_view();
                    result.push(l1);
                    result.push(l2);
                    assert(result.deep_view() =~= old_res + seq![l1@, l2@]);
                    let ghost t = webs_view(inner.web@).take(i + 1);
                    assert(t.drop_last() =~= webs_view(inner.web@).take(i as int));
                    assert(t.last() == item@);
                    assert(web_item_lines(item@, fmt) =~= seq![l1@, l2@]);
                    assert(web_lines(t, fmt) == web_lines(t.drop_last(), fmt) + web_item_lines(
                        t.last(),
                        fmt,
                    ));
                    i = i + 1;
                }
                assert(webs_view(inner.web@).take(i as int) =~= webs_view(inner.web@));
                assert(result.deep_view() =~= render_lines(self@, fmt));
            },
        }
        join(&result, "\n")
    }
}

/// Rendering is a function of the entry and the formatter: two renderings of
/// the same entry with the same formatter are the same string.
pub proof fn render_is_repeatable<F: Formatter>(
    r: ResponseModel,
    f: &F,
    first: Seq<char>,
    second: Seq<char>,
)
    requires
        first == render(r, f),
        second == render(r, f),
    ensures
        first == second,
{
}

/// An entry with a payload but no web reference renders as exactly three
/// lines: the underlined query, the translation heading, and the indented
/// translations; no phonetic and no explanation appears.
pub proof fn reduced_layout_has_three_lines<F: Formatter>(r: ResponseModel, f: &F)
    requires
        r.inner matches Some(i) && i.translation.len() > 0 && i.web.len() == 0,
    ensures
        render_lines(r, f).len() == 3,
        render_lines(r, f) == seq![
            f.decorate(Decoration::Underline, r.query),
            f.decorate(Decoration::Cyan, "  Translation:"@),
            "    "@ + join_seqs(r.inner->Some_0.translation, "；"@),
        ],
{
}

impl YdResponse {
    /// A short description naming the query: `YdResponse('<query>')`.
    pub fn describe(&self) -> (r: String)
        ensures
            r@ == "YdResponse('"@ + self.query@ + "')"@,
    {
        cat("YdResponse('", self.query.as_str()).concat("')")
    }
}

} // verus!
