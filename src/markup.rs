//! The markup selector set, and the one query made on a result page.

use vstd::prelude::*;

verus! {

/// Banner shown when the dictionary has no entry for the word.
pub const NO_RESULT_BANNER: &'static str = ".no-data-prompt";

/// Phonetic blocks, with their region markers.
pub const PHONETIC_BLOCK: &'static str = ".phone_con .per-phone";

/// Phonetic spellings alone.
pub const PHONETIC_TEXT: &'static str = ".phone_con .per-phone .phonetic";

/// Translations of a Chinese word.
pub const POINT_TEXT: &'static str = ".basic .col2 .word-exp .point";

/// Part-of-speech labels of a foreign word's senses.
pub const POS_LABEL: &'static str = ".basic .word-exp .pos";

/// Translations of a foreign word's senses.
pub const TRANSLATION_TEXT: &'static str = ".basic .word-exp .trans";

/// Keys of the web references.
pub const WEB_REFERENCE_KEY: &'static str = ".web_trans .col2 .point";

/// Values of the web references.
pub const WEB_REFERENCE_VALUES: &'static str = ".web_trans .col2 .sen-phrase";

/// What scraper finds for the CSS selector `sel` in the page `doc`: for each
/// matching element in document order, its text nodes in order; `None` where
/// `sel` is no valid selector.
pub uninterp spec fn selected_texts(doc: Seq<char>, sel: Seq<char>) -> Option<
    Seq<Seq<Seq<char>>>,
>;

/// Relies on scraper: `Selector::parse` of `sel` (`None` where it fails),
/// `Html::parse_document` of `doc`, `Html::select` for the matching elements
/// and `ElementRef::text` for the text nodes of each. These make one query,
/// whose result is named by `selected_texts`.
#[verifier::external_body]
pub(crate) fn select_texts(doc: &str, sel: &str) -> (r: Option<Vec<Vec<String>>>)
    ensures
        r is None <==> selected_texts(doc@, sel@) is None,
        r matches Some(v) ==> selected_texts(doc@, sel@) == Some(v.deep_view()),
{
    let selector = scraper::Selector::parse(sel).ok()?;
    let html = scraper::Html::parse_document(doc);
    Some(html.select(&selector).map(|e| e.text().map(|t| t.to_string()).collect()).collect())
}

} // verus!
