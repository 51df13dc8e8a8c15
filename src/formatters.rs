//! Formatters: the text decorations that `YdResponse::explain` applies.
//!
//! Delivery of a rendered entry (printing it, or showing a desktop
//! notification) is left to the caller; a formatter here only decorates.

use vstd::prelude::*;

verus! {

/// The six decorations a formatter offers.
#[derive(Clone, Copy, Debug, PartialEq, Eq, Structural)]
pub enum Decoration {
    /// Emphasis for errors.
    Red,
    /// Highlight: phonetics, web reference keys.
    Yellow,
    /// Accent: web reference values.
    Purple,
    /// Section headings.
    Cyan,
    /// The query word.
    Underline,
    /// Running text.
    Default,
}

/// Base trait for formatters.
///
/// `decorate` states what each decoration turns a string into.
pub trait Formatter {
    spec fn decorate(&self, d: Decoration, s: Seq<char>) -> Seq<char>;

    fn red(&self, s: &str) -> (r: String)
        ensures
            r@ == self.decorate(Decoration::Red, s@),
    ;

    fn yellow(&self, s: &str) -> (r: String)
        ensures
            r@ == self.decorate(Decoration::Yellow, s@),
    ;

    fn purple(&self, s: &str) -> (r: String)
        ensures
            r@ == self.decorate(Decoration::Purple, s@),
    ;

    fn cyan(&self, s: &str) -> (r: String)
        ensures
            r@ == self.decorate(Decoration::Cyan, s@),
    ;

    fn underline(&self, s: &str) -> (r: String)
        ensures
            r@ == self.decorate(Decoration::Underline, s@),
    ;

    fn default(&self, s: &str) -> (r: String)
        ensures
            r@ == self.decorate(Decoration::Default, s@),
    ;
}

/// The string unchanged: the decoration of the plain formatters.
fn pass(s: &str) -> (r: String)
    ensures
        r@ == s@,
{
    s.to_owned()
}

/// `s` between `open` and `close`.
fn wrap(open: &str, s: &str, close: &str) -> (r: String)
    ensures
        r@ == open@ + s@ + close@,
{
    let r = String::from_str(open);
    let r = r.concat(s);
    r.concat(close)
}

/// Plain text formatter: no decoration at all.
pub struct PlainFormatter;

impl PlainFormatter {
    pub fn new(_notify: bool) -> (r: PlainFormatter) {
        PlainFormatter {  }
    }
}

impl Formatter for PlainFormatter {
    open spec fn decorate(&self, d: Decoration, s: Seq<char>) -> Seq<char> {
        s
    }

    fn red(&self, s: &str) -> (r: String) {
        pass(s)
    }

    fn yellow(&self, s: &str) -> (r: String) {
        pass(s)
    }

    fn purple(&self, s: &str) -> (r: String) {
        pass(s)
    }

    fn cyan(&self, s: &str) -> (r: String) {
        pass(s)
    }

    fn underline(&self, s: &str) -> (r: String) {
        pass(s)
    }

    fn default(&self, s: &str) -> (r: String) {
        pass(s)
    }
}

/// Formatter for native Windows notifications: no colours, and accents are
/// left out, so that as little as possible is shown.
pub struct WinFormatter {
    /// Whether the rendered entry goes to a notification rather than stdout.
    pub notify: bool,
}

impl WinFormatter {
    pub fn new(notify: bool) -> (r: WinFormatter)
        ensures
            r.notify == notify,
    {
        WinFormatter { notify }
    }
}

impl Formatter for WinFormatter {
    open spec fn decorate(&self, d: Decoration, s: Seq<char>) -> Seq<char> {
        if d == Decoration::Purple {
            Seq::empty()
        } else {
            s
        }
    }

    fn red(&self, s: &str) -> (r: String) {
        pass(s)
    }

    fn yellow(&self, s: &str) -> (r: String) {
        pass(s)
    }

    fn purple(&self, s: &str) -> (r: String) {
        String::new()
    }

    fn cyan(&self, s: &str) -> (r: String) {
        pass(s)
    }

    fn underline(&self, s: &str) -> (r: String) {
        pass(s)
    }

    fn default(&self, s: &str) -> (r: String) {
        pass(s)
    }
}

/// The ANSI SGR code of each decoration; none for `Default`.
pub open spec fn ansi_code(d: Decoration) -> Seq<char> {
    match d {
        Decoration::Red => "31"@,
        Decoration::Yellow => "33"@,
        Decoration::Purple => "35"@,
        Decoration::Cyan => "36"@,
        Decoration::Underline => "4"@,
        Decoration::Default => Seq::empty(),
    }
}

/// ANSI escaped coloured formatter, for terminals.
pub struct AnsiFormatter;

impl AnsiFormatter {
    pub fn new(_notify: bool) -> (r: AnsiFormatter) {
        AnsiFormatter {  }
    }
}

impl Formatter for AnsiFormatter {
    open spec fn decorate(&self, d: Decoration, s: Seq<char>) -> Seq<char> {
        if d == Decoration::Default {
            s
        } else {
            "\x1b["@ + ansi_code(d) + "m"@ + s + "\x1b[0m"@
        }
    }

    fn red(&self, s: &str) -> (r: String) {
        let r = wrap("\x1b[31m", s, "\x1b[0m");
        proof {
            reveal_strlit("\x1b[31m");
            reveal_strlit("\x1b[");
            reveal_strlit("31");
            reveal_strlit("m");
            assert("\x1b[31m"@ =~= "\x1b["@ + "31"@ + "m"@);
        }
        r
    }

    fn yellow(&self, s: &str) -> (r: String) {
        let r = wrap("\x1b[33m", s, "\x1b[0m");
        proof {
            reveal_strlit("\x1b[33m");
            reveal_strlit("\x1b[");
            reveal_strlit("33");
            reveal_strlit("m");
            assert("\x1b[33m"@ =~= "\x1b["@ + "33"@ + "m"@);
        }
        r
    }

    fn purple(&self, s: &str) -> (r: String) {
        let r = wrap("\x1b[35m", s, "\x1b[0m");
        proof {
            reveal_strlit("\x1b[35m");
            reveal_strlit("\x1b[");
            reveal_strlit("35");
            reveal_strlit("m");
            assert("\x1b[35m"@ =~= "\x1b["@ + "35"@ + "m"@);
        }
        r
    }

    fn cyan(&self, s: &str) -> (r: String) {
        let r = wrap("\x1b[36m", s, "\x1b[0m");
        proof {
            reveal_strlit("\x1b[36m");
            reveal_strlit("\x1b[");
            reveal_strlit("36");
            reveal_strlit("m");
            assert("\x1b[36m"@ =~= "\x1b["@ + "36"@ + "m"@);
        }
        r
    }

    fn underline(&self, s: &str) -> (r: String) {
        let r = wrap("\x1b[4m", s, "\x1b[0m");
        proof {
            reveal_strlit("\x1b[4m");
            reveal_strlit("\x1b[");
            reveal_strlit("4");
            reveal_strlit("m");
            assert("\x1b[4m"@ =~= "\x1b["@ + "4"@ + "m"@);
        }
        r
    }

    fn default(&self, s: &str) -> (r: String) {
        pass(s)
    }
}

/// The entity that `c` is written as in HTML text, or `c` itself.
pub open spec fn entity_of(c: char) -> Seq<char> {
    if c == '"' {
        "&quot;"@
    } else if c == '&' {
        "&amp;"@
    } else if c == '\'' {
        "&#x27;"@
    } else if c == '<' {
        "&lt;"@
    } else if c == '>' {
        "&gt;"@
    } else {
        seq![c]
    }
}

/// `s` with each of `"`, `&`, `'`, `<`, `>` replaced by its entity.
pub open spec fn html_escaped(s: Seq<char>) -> Seq<char>
    decreases s.len(),
{
    if s.len() == 0 {
        s
    } else {
        html_escaped(s.drop_last()) + entity_of(s.last())
    }
}

/// Relies on `htmlescape::encode_minimal`: each character of `s` in turn,
/// with `"`, `&`, `'`, `<` and `>` written as their entities.
#[verifier::external_body]
fn encode_minimal(s: &str) -> (r: String)
    ensures
        r@ == html_escaped(s@),
{
    htmlescape::encode_minimal(s)
}

/// The tag that opens each HTML decoration; none for `Default`.
pub open spec fn html_open(d: Decoration) -> Seq<char> {
    match d {
        Decoration::Red => "<span color=\"red\">"@,
        Decoration::Yellow => "<span color=\"goldenrod\">"@,
        Decoration::Purple => "<span color=\"purple\">"@,
        Decoration::Cyan => "<span color=\"navy\">"@,
        Decoration::Underline => "<u>"@,
        Decoration::Default => Seq::empty(),
    }
}

/// The tag that closes each HTML decoration; none for `Default`.
pub open spec fn html_close(d: Decoration) -> Seq<char> {
    match d {
        Decoration::Underline => "</u>"@,
        Decoration::Default => Seq::empty(),
        _ => "</span>"@,
    }
}

/// HTML-style formatter, suitable for desktop notifications. Every string is
/// entity-escaped before it is wrapped in markup.
pub struct HtmlFormatter {
    /// Whether the rendered entry goes to a notification rather than stdout.
    pub notify: bool,
    /// How long a notification stays, in milliseconds.
    pub timeout: i32,
}

impl HtmlFormatter {
    pub fn new(notify: bool) -> (r: HtmlFormatter)
        ensures
            r.notify == notify,
            r.timeout == 30000,
    {
        HtmlFormatter { notify, timeout: 30000 }
    }

    pub fn set_timeout(&mut self, timeout: i32)
        ensures
            final(self).timeout == timeout,
            final(self).notify == old(self).notify,
    {
        self.timeout = timeout;
    }
}

impl Formatter for HtmlFormatter {
    open spec fn decorate(&self, d: Decoration, s: Seq<char>) -> Seq<char> {
        html_open(d) + html_escaped(s) + html_close(d)
    }

    fn red(&self, s: &str) -> (r: String) {
        let e = encode_minimal(s);
        wrap("<span color=\"red\">", e.as_str(), "</span>")
    }

    fn yellow(&self, s: &str) -> (r: String) {
        let e = encode_minimal(s);
        wrap("<span color=\"goldenrod\">", e.as_str(), "</span>")
    }

    fn purple(&self, s: &str) -> (r: String) {
        let e = encode_minimal(s);
        wrap("<span color=\"purple\">", e.as_str(), "</span>")
    }

    fn cyan(&self, s: &str) -> (r: String) {
        let e = encode_minimal(s);
        wrap("<span color=\"navy\">", e.as_str(), "</span>")
    }

    fn underline(&self, s: &str) -> (r: String) {
        let e = encode_minimal(s);
        wrap("<u>", e.as_str(), "</u>")
    }

    fn default(&self, s: &str) -> (r: String) {
        let r = encode_minimal(s);
        assert(r@ =~= Seq::<char>::empty() + html_escaped(s@) + Seq::<char>::empty());
        r
    }
}

} // verus!
