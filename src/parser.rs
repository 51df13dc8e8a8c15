//! Extraction of a dictionary entry from a result page.

use vstd::prelude::*;
use crate::formatters::{Decoration, Formatter};
use crate::lang::{has_cjk, is_chinese};
use crate::markup::{
    select_texts, selected_texts, NO_RESULT_BANNER, PHONETIC_BLOCK, PHONETIC_TEXT, POINT_TEXT,
    POS_LABEL, TRANSLATION_TEXT, WEB_REFERENCE_KEY, WEB_REFERENCE_VALUES,
};
use crate::text::{
    before_char, concat_all, concat_seqs, prefix_before, remove_char, split, split_of, trim, trim_of,
    without_char,
};
use crate::ydresponse::{
    no_result_text, render, render_lines, webs_view, BasicModel, InnerModel, ResponseModel, WebModel, YdBasic, YdResponse,
    YdResponseInner, YdWeb,
};

verus! {

/// Why a page could not be turned into an entry.
#[derive(Clone, Copy, Debug, PartialEq, Eq, Structural)]
pub enum ParseError {
    /// There are more web reference keys than value blocks.
    InconsistentWebBlock,
    /// A selector of the markup selector set is not valid.
    SelectorDefinition,
}

/// The text nodes of all matched elements, in document order.
pub open spec fn flatten_texts(m: Seq<Seq<Seq<char>>>) -> Seq<Seq<char>>
    decreases m.len(),
{
    if m.len() == 0 {
        Seq::empty()
    } else {
        flatten_texts(m.drop_last()) + m.last()
    }
}

/// Whether some matched element has a non-empty text node.
pub open spec fn has_text(m: Seq<Seq<Seq<char>>>) -> bool {
    exists|i: int, j: int| 0 <= i < m.len() && 0 <= j < m[i].len() && m[i][j].len() > 0
}

/// A phonetic text with its slashes taken out and its ends trimmed.
pub open spec fn token_of(t: Seq<char>) -> Seq<char> {
    trim_of(without_char(t, '/'))
}

pub open spec fn tokens_of(ts: Seq<Seq<char>>) -> Seq<Seq<char>> {
    ts.map_values(|t: Seq<char>| token_of(t))
}

/// The values of one web reference block: its text split at `" ; "`, each
/// piece trimmed.
pub open spec fn value_pieces(block: Seq<Seq<char>>) -> Seq<Seq<char>> {
    split_of(concat_seqs(block), " ; "@).map_values(|p: Seq<char>| trim_of(p))
}

/// The web references made of the first `n` keys, each paired with the value
/// block of the same index; a key whose value list is empty is dropped.
pub open spec fn kept_webs(keys: Seq<Seq<char>>, blocks: Seq<Seq<Seq<char>>>, n: int) -> Seq<
    WebModel,
>
    decreases n,
{
    if n <= 0 {
        Seq::empty()
    } else {
        let prev = kept_webs(keys, blocks, n - 1);
        let v = value_pieces(blocks[n - 1]);
        if v.len() > 0 {
            prev.push(WebModel { key: keys[n - 1], value: v })
        } else {
            prev
        }
    }
}

/// The web references of a page, given its key texts and value blocks.
pub open spec fn web_model(keys: Seq<Seq<char>>, blocks: Seq<Seq<Seq<char>>>) -> Result<
    Seq<WebModel>,
    ParseError,
> {
    if keys.len() > blocks.len() {
        Err(ParseError::InconsistentWebBlock)
    } else {
        Ok(kept_webs(keys, blocks, keys.len() as int))
    }
}

/// The token after the last `marker` among the first `n` tokens; `None` when
/// there is no such marker or nothing follows it.
pub open spec fn marker_pick(tokens: Seq<Seq<char>>, marker: Seq<char>, n: int) -> Option<
    Seq<char>,
>
    decreases n,
{
    if n <= 0 {
        None
    } else if tokens[n - 1] == marker {
        if n < tokens.len() {
            Some(tokens[n])
        } else {
            None
        }
    } else {
        marker_pick(tokens, marker, n - 1)
    }
}

pub open spec fn uk_marker() -> Seq<char> {
    "英"@
}

pub open spec fn us_marker() -> Seq<char> {
    "美"@
}

pub open spec fn uk_of(tokens: Seq<Seq<char>>) -> Option<Seq<char>> {
    marker_pick(tokens, uk_marker(), tokens.len() as int)
}

pub open spec fn us_of(tokens: Seq<Seq<char>>) -> Option<Seq<char>> {
    marker_pick(tokens, us_marker(), tokens.len() as int)
}

/// Whether no region-labelled phonetic was found among the tokens.
pub open spec fn needs_generic(tokens: Seq<Seq<char>>) -> bool {
    uk_of(tokens) is None && us_of(tokens) is None
}

/// One explanation of a foreign word: the translation, after its
/// part-of-speech label where there is one at the same index.
pub open spec fn explanation(pos: Seq<Seq<char>>, trans: Seq<Seq<char>>, i: int) -> Seq<char> {
    if i < pos.len() {
        pos[i] + " "@ + trans[i]
    } else {
        trans[i]
    }
}

/// The payload for a foreign word. `tokens` are the phonetic block tokens,
/// `extra` the phonetic text tokens, whose first is the generic phonetic
/// when no region was found.
pub open spec fn forward_inner(
    tokens: Seq<Seq<char>>,
    extra: Seq<Seq<char>>,
    pos: Seq<Seq<char>>,
    trans: Seq<Seq<char>>,
    web: Seq<WebModel>,
) -> InnerModel {
    let uk = uk_of(tokens);
    let us = us_of(tokens);
    InnerModel {
        translation: if trans.len() == 0 {
            Seq::empty()
        } else {
            seq![before_char(trans[0], '，')]
        },
        basic: BasicModel {
            explains: Seq::new(trans.len(), |i: int| explanation(pos, trans, i)),
            phonetic: if us is Some {
                us
            } else if uk is Some {
                uk
            } else if extra.len() > 0 {
                Some(extra[0])
            } else {
                None
            },
            us_phonetic: us,
            uk_phonetic: uk,
        },
        web,
    }
}

/// The payload for a Chinese word: the first translation as headline, all
/// of them as explanations, and the phonetic tokens run together.
pub open spec fn reverse_inner(
    points: Seq<Seq<char>>,
    phonetics: Seq<Seq<char>>,
    web: Seq<WebModel>,
) -> InnerModel {
    InnerModel {
        translation: if points.len() == 0 {
            Seq::empty()
        } else {
            seq![points[0]]
        },
        basic: BasicModel {
            explains: points,
            phonetic: Some(concat_seqs(tokens_of(phonetics))),
            us_phonetic: None,
            uk_phonetic: None,
        },
        web,
    }
}

/// The payload read from a page for a Chinese word.
pub open spec fn reverse_model(doc: Seq<char>) -> Result<InnerModel, ParseError> {
    match (
        selected_texts(doc, POINT_TEXT@),
        selected_texts(doc, PHONETIC_TEXT@),
        selected_texts(doc, WEB_REFERENCE_KEY@),
        selected_texts(doc, WEB_REFERENCE_VALUES@),
    ) {
        (Some(p), Some(ph), Some(k), Some(v)) => match web_model(flatten_texts(k), v) {
            Ok(w) => Ok(reverse_inner(flatten_texts(p), flatten_texts(ph), w)),
            Err(e) => Err(e),
        },
        _ => Err(ParseError::SelectorDefinition),
    }
}

/// The payload read from a page for a foreign word.
pub open spec fn forward_model(doc: Seq<char>) -> Result<InnerModel, ParseError> {
    match (
        selected_texts(doc, PHONETIC_BLOCK@),
        selected_texts(doc, POS_LABEL@),
        selected_texts(doc, TRANSLATION_TEXT@),
        selected_texts(doc, WEB_REFERENCE_KEY@),
        selected_texts(doc, WEB_REFERENCE_VALUES@),
    ) {
        (Some(pp), Some(pos), Some(tr), Some(k), Some(v)) => {
            let tokens = tokens_of(flatten_texts(pp));
            let extra = if needs_generic(tokens) {
                match selected_texts(doc, PHONETIC_TEXT@) {
                    Some(ph) => Some(tokens_of(flatten_texts(ph))),
                    None => None,
                }
            } else {
                Some(Seq::empty())
            };
            match extra {
                None => Err(ParseError::SelectorDefinition),
                Some(extra) => match web_model(flatten_texts(k), v) {
                    Ok(w) => Ok(
                        forward_inner(tokens, extra, flatten_texts(pos), flatten_texts(tr), w),
                    ),
                    Err(e) => Err(e),
                },
            }
        },
        _ => Err(ParseError::SelectorDefinition),
    }
}

/// The entry read from the page `doc` for the query `word`.
pub open spec fn parse_model(doc: Seq<char>, word: Seq<char>) -> Result<ResponseModel, ParseError> {
    match selected_texts(doc, NO_RESULT_BANNER@) {
        None => Err(ParseError::SelectorDefinition),
        Some(banner) => if has_text(banner) {
            Ok(ResponseModel { query: word, inner: None })
        } else {
            let payload = if has_cjk(word) {
                reverse_model(doc)
            } else {
                forward_model(doc)
            };
            match payload {
                Ok(i) => Ok(ResponseModel { query: word, inner: Some(i) }),
                Err(e) => Err(e),
            }
        },
    }
}

/// The text nodes of all matched elements, in document order.
pub fn text_nodes(m: &Vec<Vec<String>>) -> (r: Vec<String>)
    ensures
        r.deep_view() == flatten_texts(m.deep_view()),
{
    let mut r: Vec<String> = Vec::new();
    let mut i: usize = 0;
    while i < m.len()
        invariant
            i <= m.len(),
            r.deep_view() == flatten_texts(m.deep_view().take(i as int)),
        decreases m.len() - i,
    {
        let ghost before = r.deep_view();
        let mut j: usize = 0;
        while j < m[i].len()
            invariant
                i < m.len(),
                j <= m[i as int].len(),
                r.deep_view() =~= before + m[i as int].deep_view().take(j as int),
            decreases m[i as int].len() - j,
        {
            let t = m[i][j].clone();
            let ghost old_r = r.deep_view();
            r.push(t);
            assert(r.deep_view() =~= old_r.push(t@));
            assert(m[i as int].deep_view().take(j + 1) =~= m[i as int].deep_view().take(
                j as int,
            ).push(m[i as int][j as int]@));
            j = j + 1;
        }
        assert(m[i as int].deep_view().take(j as int) =~= m[i as int].deep_view());
        assert(m.deep_view().take(i + 1).drop_last() =~= m.deep_view().take(i as int));
        i = i + 1;
    }
    assert(m.deep_view().take(i as int) =~= m.deep_view());
    r
}

/// Whether some matched element has a non-empty text node.
pub fn has_text_node(m: &Vec<Vec<String>>) -> (r: bool)
    ensures
        r == has_text(m.deep_view()),
{
    let mut i: usize = 0;
    while i < m.len()
        invariant
            i <= m.len(),
            forall|a: int, b: int|
                0 <= a < i && 0 <= b < m[a].len() ==> (#[trigger] m[a][b])@.len() == 0,
        decreases m.len() - i,
    {
        let mut j: usize = 0;
        while j < m[i].len()
            invariant
                i < m.len(),
                j <= m[i as int].len(),
                forall|a: int, b: int|
                    0 <= a < i && 0 <= b < m[a].len() ==> (#[trigger] m[a][b])@.len() == 0,
                forall|b: int| 0 <= b < j ==> (#[trigger] m[i as int][b])@.len() == 0,
            decreases m[i as int].len() - j,
        {
            if m[i][j].unicode_len() > 0 {
                assert(m.deep_view()[i as int][j as int].len() > 0);
                return true;
            }
            j = j + 1;
        }
        i = i + 1;
    }
    assert forall|a: int, b: int|
        0 <= a < m.deep_view().len() && 0 <= b < m.deep_view()[a].len() implies m.deep_view()[a][b].len()
        == 0 by {
        assert(m.deep_view()[a][b] == m[a][b]@);
    }
    false
}

/// A phonetic text with its slashes taken out and its ends trimmed.
pub fn phonetic_token(t: &str) -> (r: String)
    ensures
        r@ == token_of(t@),
{
    let s = remove_char(t, '/');
    trim(s.as_str())
}

/// The phonetic token of each text.
pub fn phonetic_tokens(ts: &Vec<String>) -> (r: Vec<String>)
    ensures
        r.deep_view() == tokens_of(ts.deep_view()),
{
    let mut r: Vec<String> = Vec::new();
    let mut i: usize = 0;
    while i < ts.len()
        invariant
            i <= ts.len(),
            r.deep_view() =~= tokens_of(ts.deep_view().take(i as int)),
        decreases ts.len() - i,
    {
        let t = phonetic_token(ts[i].as_str());
        let ghost old_r = r.deep_view();
        r.push(t);
        assert(r.deep_view() =~= old_r.push(t@));
        assert(ts.deep_view().take(i + 1) =~= ts.deep_view().take(i as int).push(ts[i as int]@));
        i = i + 1;
    }
    assert(ts.deep_view().take(i as int) =~= ts.deep_view());
    r
}

/// The values of one web reference block: its text split at `" ; "`, each
/// piece trimmed.
pub fn web_values(block: &Vec<String>) -> (r: Vec<String>)
    ensures
        r.deep_view() == value_pieces(block.deep_view()),
{
    let whole = concat_all(block);
    let pieces = split(whole.as_str(), " ; ");
    let mut r: Vec<String> = Vec::new();
    let mut i: usize = 0;
    while i < pieces.len()
        invariant
            i <= pieces.len(),
            r.deep_view() =~= pieces.deep_view().take(i as int).map_values(
                |p: Seq<char>| trim_of(p),
            ),
        decreases pieces.len() - i,
    {
        let t = trim(pieces[i].as_str());
        let ghost old_r = r.deep_view();
        r.push(t);
        assert(r.deep_view() =~= old_r.push(t@));
        assert(pieces.deep_view().take(i + 1) =~= pieces.deep_view().take(i as int).push(
            pieces[i as int]@,
        ));
        i = i + 1;
    }
    assert(pieces.deep_view().take(i as int) =~= pieces.deep_view());
    r
}

/// Pairs each key with the value block of the same index, dropping a key
/// whose value list is empty. Fails when a key has no value block.
pub fn web_refs(keys: &Vec<String>, blocks: &Vec<Vec<String>>) -> (r: Result<
    Vec<YdWeb>,
    ParseError,
>)
    ensures
        r is Err <==> web_model(keys.deep_view(), blocks.deep_view()) is Err,
        r matches Ok(w) ==> web_model(keys.deep_view(), blocks.deep_view()) == Ok::<
            Seq<WebModel>,
            ParseError,
        >(webs_view(w@)),
        r matches Err(e) ==> web_model(keys.deep_view(), blocks.deep_view()) == Err::<
            Seq<WebModel>,
            ParseError,
        >(e),
{
    if keys.len() > blocks.len() {
        return Err(ParseError::InconsistentWebBlock);
    }
    let mut webs: Vec<YdWeb> = Vec::new();
    let mut i: usize = 0;
    while i < keys.len()
        invariant
            i <= keys.len() <= blocks.len(),
            webs_view(webs@) =~= kept_webs(keys.deep_view(), blocks.deep_view(), i as int),
        decreases keys.len() - i,
    {
        let value = web_values(&blocks[i]);
        assert(blocks.deep_view()[i as int] == blocks[i as int].deep_view());
        if value.len() > 0 {
            let key = keys[i].clone();
            let ghost old_w = webs@;
            let item = YdWeb { key, value };
            webs.push(item);
            assert(webs@ == old_w.push(item));
            assert(webs_view(webs@) =~= webs_view(old_w).push(item@));
        }
        i = i + 1;
    }
    Ok(webs)
}

/// The token after the last `marker`; `None` when there is no marker or
/// nothing follows the last one.
pub fn region_phonetic(tokens: &Vec<String>, marker: &str) -> (r: Option<String>)
    ensures
        crate::ydresponse::opt_view(r) == marker_pick(
            tokens.deep_view(),
            marker@,
            tokens.len() as int,
        ),
{
    let m = String::from_str(marker);
    let mut r: Option<String> = None;
    let mut i: usize = 0;
    while i < tokens.len()
        invariant
            i <= tokens.len(),
            m@ == marker@,
            crate::ydresponse::opt_view(r) == marker_pick(tokens.deep_view(), marker@, i as int),
        decreases tokens.len() - i,
    {
        if tokens[i] == m {
            if i + 1 < tokens.len() {
                r = Some(tokens[i + 1].clone());
            } else {
                r = None;
            }
        }
        i = i + 1;
    }
    r
}

/// Assembles the payload for a foreign word from the phonetic block tokens,
/// the phonetic text tokens (`extra`, read only when the block names no
/// region), the part-of-speech labels, the translations and the web
/// references.
pub fn forward_entry(
    tokens: &Vec<String>,
    extra: &Vec<String>,
    pos: &Vec<String>,
    trans: &Vec<String>,
    web: Vec<YdWeb>,
) -> (r: YdResponseInner)
    ensures
        r@ == forward_inner(
            tokens.deep_view(),
            extra.deep_view(),
            pos.deep_view(),
            trans.deep_view(),
            webs_view(web@),
        ),
{
    let uk = region_phonetic(tokens, "英");
    let us = region_phonetic(tokens, "美");
    let phonetic = match &us {
        Some(p) => Some(p.clone()),
        None => match &uk {
            Some(p) => Some(p.clone()),
            None => if extra.len() > 0 {
                Some(extra[0].clone())
            } else {
                None
            },
        },
    };
    let mut explains: Vec<String> = Vec::new();
    let mut i: usize = 0;
    while i < trans.len()
        invariant
            i <= trans.len(),
            explains.deep_view() =~= Seq::new(
                i as nat,
                |k: int| explanation(pos.deep_view(), trans.deep_view(), k),
            ),
        decreases trans.len() - i,
    {
        let e = if i < pos.len() {
            let e = String::from_str(pos[i].as_str()).concat(" ");
            e.concat(trans[i].as_str())
        } else {
            trans[i].clone()
        };
        let ghost old_e = explains.deep_view();
        explains.push(e);
        assert(explains.deep_view() =~= old_e.push(e@));
        i = i + 1;
    }
    let mut translation: Vec<String> = Vec::new();
    if trans.len() > 0 {
        translation.push(prefix_before(trans[0].as_str(), '，'));
    }
    let r = YdResponseInner {
        translation,
        basic: YdBasic { explains, phonetic, us_phonetic: us, uk_phonetic: uk },
        web,
    };
    assert(r@.translation =~= forward_inner(
        tokens.deep_view(),
        extra.deep_view(),
        pos.deep_view(),
        trans.deep_view(),
        webs_view(web@),
    ).translation);
    r
}

/// Assembles the payload for a Chinese word from the translation points,
/// the phonetic texts and the web references.
pub fn reverse_entry(points: Vec<String>, phonetics: &Vec<String>, web: Vec<YdWeb>) -> (r:
    YdResponseInner)
    ensures
        r@ == reverse_inner(points.deep_view(), phonetics.deep_view(), webs_view(web@)),
{
    let tokens = phonetic_tokens(phonetics);
    let phonetic = concat_all(&tokens);
    let mut translation: Vec<String> = Vec::new();
    if points.len() > 0 {
        translation.push(points[0].clone());
    }
    let r = YdResponseInner {
        translation,
        basic: YdBasic {
            explains: points,
            phonetic: Some(phonetic),
            us_phonetic: None,
            uk_phonetic: None,
        },
        web,
    };
    assert(r@.translation =~= reverse_inner(
        points.deep_view(),
        phonetics.deep_view(),
        webs_view(web@),
    ).translation);
    r
}

/// The text nodes that `sel` finds in `doc`, per element.
fn select(doc: &str, sel: &str) -> (r: Result<Vec<Vec<String>>, ParseError>)
    ensures
        r is Err <==> selected_texts(doc@, sel@) is None,
        r matches Err(e) ==> e == ParseError::SelectorDefinition,
        r matches Ok(v) ==> selected_texts(doc@, sel@) == Some(v.deep_view()),
{
    match select_texts(doc, sel) {
        Some(v) => Ok(v),
        None => Err(ParseError::SelectorDefinition),
    }
}

impl YdResponse {
    /// Reads the entry for `word` from a result page.
    ///
    /// A page with the no-result banner gives an entry without payload. A
    /// word with a Chinese character is read as a Chinese-to-English lookup,
    /// any other word as an English-to-Chinese one.
    pub fn from_html(body: &str, word: &str) -> (r: Result<YdResponse, ParseError>)
        ensures
            r is Err <==> parse_model(body@, word@) is Err,
            r matches Ok(v) ==> parse_model(body@, word@) == Ok::<ResponseModel, ParseError>(v@),
            r matches Err(e) ==> parse_model(body@, word@) == Err::<ResponseModel, ParseError>(e),
    {
        let banner = select(body, NO_RESULT_BANNER)?;
        if has_text_node(&banner) {
            return Ok(YdResponse { query: String::from_str(word), inner: None });
        }
        let inner = if is_chinese(word) {
            Self::zh2en(body)
        } else {
            Self::en2zh(body)
        };
        match inner {
            Ok(i) => Ok(YdResponse { query: String::from_str(word), inner: Some(i) }),
            Err(e) => Err(e),
        }
    }

    /// Reads the payload of a Chinese-to-English lookup.
    fn zh2en(body: &str) -> (r: Result<YdResponseInner, ParseError>)
        ensures
            r is Err <==> reverse_model(body@) is Err,
            r matches Ok(v) ==> reverse_model(body@) == Ok::<InnerModel, ParseError>(v@),
            r matches Err(e) ==> reverse_model(body@) == Err::<InnerModel, ParseError>(e),
    {
        let points = select(body, POINT_TEXT)?;
        let phonetics = select(body, PHONETIC_TEXT)?;
        let keys = select(body, WEB_REFERENCE_KEY)?;
        let blocks = select(body, WEB_REFERENCE_VALUES)?;
        let web = web_refs(&text_nodes(&keys), &blocks)?;
        Ok(reverse_entry(text_nodes(&points), &text_nodes(&phonetics), web))
    }

    /// Reads the payload of an English-to-Chinese lookup.
    fn en2zh(body: &str) -> (r: Result<YdResponseInner, ParseError>)
        ensures
            r is Err <==> forward_model(body@) is Err,
            r matches Ok(v) ==> forward_model(body@) == Ok::<InnerModel, ParseError>(v@),
            r matches Err(e) ==> forward_model(body@) == Err::<InnerModel, ParseError>(e),
    {
        let blocks_phone = select(body, PHONETIC_BLOCK)?;
        let pos = select(body, POS_LABEL)?;
        let trans = select(body, TRANSLATION_TEXT)?;
        let keys = select(body, WEB_REFERENCE_KEY)?;
        let blocks = select(body, WEB_REFERENCE_VALUES)?;
        let tokens = phonetic_tokens(&text_nodes(&blocks_phone));
        let uk = region_phonetic(&tokens, "英");
        let us = region_phonetic(&tokens, "美");
        let extra = if uk.is_none() && us.is_none() {
            let ph = select(body, PHONETIC_TEXT)?;
            phonetic_tokens(&text_nodes(&ph))
        } else {
            Vec::new()
        };
        let web = web_refs(&text_nodes(&keys), &blocks)?;
        Ok(forward_entry(&tokens, &extra, &text_nodes(&pos), &text_nodes(&trans), web))
    }
}

/// How many of the first `n` keys have a value block with at least one value.
pub open spec fn keys_with_values(blocks: Seq<Seq<Seq<char>>>, n: int) -> nat
    decreases n,
{
    if n <= 0 {
        0
    } else {
        keys_with_values(blocks, n - 1) + if value_pieces(blocks[n - 1]).len() > 0 {
            1nat
        } else {
            0nat
        }
    }
}

proof fn lemma_kept_webs(keys: Seq<Seq<char>>, blocks: Seq<Seq<Seq<char>>>, n: int)
    requires
        0 <= n <= keys.len() <= blocks.len(),
    ensures
        kept_webs(keys, blocks, n).len() == keys_with_values(blocks, n),
        forall|i: int|
            0 <= i < kept_webs(keys, blocks, n).len() ==> (#[trigger] kept_webs(
                keys,
                blocks,
                n,
            )[i]).value.len() > 0,
    decreases n,
{
    if n > 0 {
        lemma_kept_webs(keys, blocks, n - 1);
    }
}

/// The web references of a page are exactly its keys that have a non-empty
/// value list: their number is the number of such keys, and none of them
/// has an empty value list.
pub proof fn web_references_keep_nonempty(keys: Seq<Seq<char>>, blocks: Seq<Seq<Seq<char>>>)
    requires
        keys.len() <= blocks.len(),
    ensures
        web_model(keys, blocks) is Ok,
        web_model(keys, blocks)->Ok_0.len() == keys_with_values(blocks, keys.len() as int),
        forall|i: int|
            0 <= i < web_model(keys, blocks)->Ok_0.len() ==> (#[trigger] web_model(
                keys,
                blocks,
            )->Ok_0[i]).value.len() > 0,
{
    lemma_kept_webs(keys, blocks, keys.len() as int);
}

/// A page that shows the no-result banner gives, whatever the word, an entry
/// without payload, and that entry renders under any formatter as the one
/// error-decorated no-result line.
pub proof fn no_result_banner_renders_one_line<F: Formatter>(
    doc: Seq<char>,
    word: Seq<char>,
    f: &F,
)
    requires
        selected_texts(doc, NO_RESULT_BANNER@) matches Some(b) && has_text(b),
    ensures
        parse_model(doc, word) == Ok::<ResponseModel, ParseError>(
            ResponseModel { query: word, inner: None },
        ),
        render_lines(ResponseModel { query: word, inner: None }, f) == seq![
            f.decorate(Decoration::Red, no_result_text()),
        ],
        render(ResponseModel { query: word, inner: None }, f) == f.decorate(
            Decoration::Red,
            no_result_text(),
        ),
{
}

} // verus!
