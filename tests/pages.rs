use ydcv::formatters::{AnsiFormatter, Formatter, HtmlFormatter, PlainFormatter, WinFormatter};
use ydcv::lang::is_chinese;
use ydcv::parser::{
    has_text_node, phonetic_token, phonetic_tokens, region_phonetic, text_nodes, web_refs,
    web_values, ParseError,
};
use ydcv::text::{concat_all, join, prefix_before, remove_char};
use ydcv::ydresponse::{YdBasic, YdResponse, YdResponseInner, YdWeb};

const NO_RESULT_PAGE: &str = "<html><body><div class=\"no-data-prompt\">\
    <p>No result</p></div></body></html>";

const COMMENT_PAGE: &str = "<html><body>\
<div class=\"phone_con\"><div class=\"per-phone\"><span>英</span><span class=\"phonetic\">/ ˈkɒment /</span></div>\
<div class=\"per-phone\"><span>美</span><span class=\"phonetic\">/ ˈkɑːment /</span></div></div>\
<div class=\"basic\"><ul>\
<li class=\"word-exp\"><span class=\"pos\">n.</span><span class=\"trans\">评论，意见；批评，指责；说明，写照；&lt;旧&gt;解说，注释；（计算机）注解</span></li>\
<li class=\"word-exp\"><span class=\"pos\">v.</span><span class=\"trans\">评论，发表意见；（计算机）注解，把（部分程序）转成注解</span></li>\
<li class=\"word-exp\"><span class=\"pos\">【名】</span><span class=\"trans\">（Comment）（美、瑞、法）科门特（人名）</span></li>\
</ul></div>\
<div class=\"web_trans\"><div class=\"col2\">\
<div class=\"point\">No Comment</div><div class=\"sen-phrase\">不予置评 ; 无可奉告 ; 不予回答 ; 无意见</div>\
<div class=\"point\">Fair comment</div><div class=\"sen-phrase\">公正评论 ; 公允评论 ; 合理评论 ; 公正的评论</div>\
<div class=\"point\">conditional comment</div><div class=\"sen-phrase\">条件注释</div>\
</div></div></body></html>";

const ZANSHI_PAGE: &str = "<html><body>\
<div class=\"phone_con\"><div class=\"per-phone\"><span class=\"phonetic\">/zàn shí/</span></div></div>\
<div class=\"basic\"><div class=\"col2\"><ul>\
<li class=\"word-exp\"><span class=\"point\">for the time being</span></li>\
<li class=\"word-exp\"><span class=\"point\">for the moment</span></li>\
</ul></div></div>\
<div class=\"web_trans\"><div class=\"col2\">\
<div class=\"point\">暂时的</div><div class=\"sen-phrase\">科技  temporary ; interim ; provisional ; 科技  temporal</div>\
<div class=\"point\">今天暂时停止</div><div class=\"sen-phrase\">Groundhog Day ; Groundhog Day Phil Connors ; The Groundhug Day</div>\
<div class=\"point\">暂时性</div><div class=\"sen-phrase\">Temporary ; caducity ; transiency ; transient</div>\
</div></div></body></html>";

const ZANSHI_SHORT_PAGE: &str = "<html><body>\
<div class=\"basic\"><div class=\"col2\"><ul>\
<li class=\"word-exp\"><span class=\"point\">for the time being</span></li>\
</ul></div></div></body></html>";

const PLAIN_WORD_PAGE: &str = "<html><body>\
<div class=\"phone_con\"><div class=\"per-phone\"><span class=\"phonetic\">/həˈləʊ/</span></div></div>\
<div class=\"basic\"><ul><li class=\"word-exp\"><span class=\"trans\">你好，喂</span></li></ul></div>\
<div class=\"web_trans\"><div class=\"col2\">\
<div class=\"point\">hello world</div><div class=\"sen-phrase\">你好世界</div>\
</div></div></body></html>";

fn strings(v: &[&str]) -> Vec<String> {
    v.iter().map(|s| s.to_string()).collect()
}

#[test]
fn test_explain_html_1() {
    let result = format!(
        "\n{}\n",
        YdResponse::from_html(NO_RESULT_PAGE, "hakunamatata")
            .unwrap()
            .explain(&HtmlFormatter::new(false))
    );
    assert_eq!(
        r#"
<span color="red"> -- No result for this query.</span>
"#,
        result
    );
}

#[test]
fn test_explain_html_2() {
    let result = format!(
        "\n{}\n",
        YdResponse::from_html(COMMENT_PAGE, "comment")
            .unwrap()
            .explain(&HtmlFormatter::new(false))
    );
    assert_eq!(
        r#"
<u>comment</u>  UK: [<span color="goldenrod">ˈkɒment</span>], US: [<span color="goldenrod">ˈkɑːment</span>] 评论
<span color="navy">  Word Explanation:</span>
     * n. 评论，意见；批评，指责；说明，写照；&lt;旧&gt;解说，注释；（计算机）注解
     * v. 评论，发表意见；（计算机）注解，把（部分程序）转成注解
     * 【名】 （Comment）（美、瑞、法）科门特（人名）
<span color="navy">  Web Reference:</span>
     * <span color="goldenrod">No Comment</span>
       <span color="purple">不予置评</span>；<span color="purple">无可奉告</span>；<span color="purple">不予回答</span>；<span color="purple">无意见</span>
     * <span color="goldenrod">Fair comment</span>
       <span color="purple">公正评论</span>；<span color="purple">公允评论</span>；<span color="purple">合理评论</span>；<span color="purple">公正的评论</span>
     * <span color="goldenrod">conditional comment</span>
       <span color="purple">条件注释</span>
"#,
        result
    );
}

#[test]
fn test_explain_html_3() {
    let result = format!(
        "\n{}\n",
        YdResponse::from_html(ZANSHI_PAGE, "暂时")
            .unwrap()
            .explain(&HtmlFormatter::new(false))
    );
    assert_eq!(
        r#"
<u>暂时</u> [<span color="goldenrod">zàn shí</span>] for the time being
<span color="navy">  Word Explanation:</span>
     * for the time being
     * for the moment
<span color="navy">  Web Reference:</span>
     * <span color="goldenrod">暂时的</span>
       <span color="purple">科技  temporary</span>；<span color="purple">interim</span>；<span color="purple">provisional</span>；<span color="purple">科技  temporal</span>
     * <span color="goldenrod">今天暂时停止</span>
       <span color="purple">Groundhog Day</span>；<span color="purple">Groundhog Day Phil Connors</span>；<span color="purple">The Groundhug Day</span>
     * <span color="goldenrod">暂时性</span>
       <span color="purple">Temporary</span>；<span color="purple">caducity</span>；<span color="purple">transiency</span>；<span color="purple">transient</span>
"#,
        result
    );
}

#[test]
fn test_lookup_word_0() {
    assert_eq!(
        "YdResponse('hello')",
        YdResponse::from_html(PLAIN_WORD_PAGE, "hello").unwrap().describe()
    );
}

#[test]
fn test_lookup_word_1() {
    assert_eq!(
        "YdResponse('world')",
        YdResponse::from_html(PLAIN_WORD_PAGE, "world").unwrap().describe()
    );
}

#[test]
fn test_lookup_word_2() {
    assert_eq!(
        "YdResponse('<+*>?_')",
        YdResponse::from_html(NO_RESULT_PAGE, "<+*>?_").unwrap().describe()
    );
}

#[test]
fn forward_lookup_fields() {
    let r = YdResponse::from_html(COMMENT_PAGE, "comment").unwrap();
    assert_eq!(r.query, "comment");
    let inner = r.inner.unwrap();
    assert_eq!(inner.translation, strings(&["评论"]));
    assert_eq!(inner.basic.explains.len(), 3);
    assert!(inner.basic.explains[0].starts_with("n. 评论"));
    assert!(inner.basic.explains[1].starts_with("v. 评论"));
    assert_eq!(inner.basic.uk_phonetic, Some("ˈkɒment".to_string()));
    assert_eq!(inner.basic.us_phonetic, Some("ˈkɑːment".to_string()));
    assert_eq!(inner.basic.phonetic, Some("ˈkɑːment".to_string()));
    assert_eq!(inner.web.len(), 3);
    assert_eq!(inner.web[0].key, "No Comment");
    assert_eq!(inner.web[0].value, strings(&["不予置评", "无可奉告", "不予回答", "无意见"]));
}

#[test]
fn forward_lookup_plain_headline() {
    let r = YdResponse::from_html(COMMENT_PAGE, "comment").unwrap();
    let out = r.explain(&PlainFormatter::new(false));
    let lines: Vec<&str> = out.split('\n').collect();
    assert!(lines[0].starts_with("comment  UK: [ˈkɒment], US: [ˈkɑːment] 评论"));
    assert_eq!(lines[1], "  Word Explanation:");
    assert_eq!(lines[5], "  Web Reference:");
    assert_eq!(lines[6], "     * No Comment");
    assert_eq!(lines[7], "       不予置评；无可奉告；不予回答；无意见");
    assert!(!out.ends_with('\n'));
}

#[test]
fn reverse_lookup_fields() {
    let r = YdResponse::from_html(ZANSHI_PAGE, "暂时").unwrap();
    let inner = r.inner.unwrap();
    assert_eq!(inner.translation, strings(&["for the time being"]));
    assert_eq!(inner.basic.explains, strings(&["for the time being", "for the moment"]));
    assert_eq!(inner.basic.phonetic, Some("zàn shí".to_string()));
    assert_eq!(inner.basic.uk_phonetic, None);
    assert_eq!(inner.basic.us_phonetic, None);
}

#[test]
fn reverse_lookup_reduced_layout() {
    let r = YdResponse::from_html(ZANSHI_SHORT_PAGE, "暂时").unwrap();
    assert_eq!(
        r.explain(&HtmlFormatter::new(false)),
        "<u>暂时</u>\n<span color=\"navy\">  Translation:</span>\n    for the time being"
    );
    assert_eq!(
        r.explain(&PlainFormatter::new(false)),
        "暂时\n  Translation:\n    for the time being"
    );
}

#[test]
fn no_result_plain_and_ansi() {
    let r = YdResponse::from_html(NO_RESULT_PAGE, "hakunamatata").unwrap();
    assert!(r.inner.is_none());
    assert_eq!(r.explain(&PlainFormatter::new(false)), " -- No result for this query.");
    assert_eq!(
        r.explain(&AnsiFormatter::new(false)),
        "\x1b[31m -- No result for this query.\x1b[0m"
    );
    let r = YdResponse::from_html(NO_RESULT_PAGE, "暂时").unwrap();
    assert!(r.inner.is_none());
}

#[test]
fn render_twice_is_same() {
    let r = YdResponse::from_html(COMMENT_PAGE, "comment").unwrap();
    let f = HtmlFormatter::new(false);
    assert_eq!(r.explain(&f), r.explain(&f));
}

#[test]
fn html_escapes_user_text() {
    let f = HtmlFormatter::new(false);
    assert_eq!(f.default("a<b>&\"c'"), "a&lt;b&gt;&amp;&quot;c&#x27;");
    assert_eq!(f.underline("<x>"), "<u>&lt;x&gt;</u>");
    assert_eq!(f.red("&"), "<span color=\"red\">&amp;</span>");
    assert_eq!(f.yellow("y"), "<span color=\"goldenrod\">y</span>");
    assert_eq!(f.purple("p"), "<span color=\"purple\">p</span>");
    assert_eq!(f.cyan("c"), "<span color=\"navy\">c</span>");
    let r = YdResponse {
        query: "a<b".to_string(),
        inner: Some(YdResponseInner {
            translation: strings(&["x&y"]),
            basic: YdBasic {
                explains: strings(&["<e>"]),
                phonetic: Some(">p".to_string()),
                us_phonetic: None,
                uk_phonetic: None,
            },
            web: vec![YdWeb { key: "<k>".to_string(), value: strings(&["v&"]) }],
        }),
    };
    let out = r.explain(&f);
    let stripped = out
        .replace("<u>", "")
        .replace("</u>", "")
        .replace("</span>", "")
        .replace("<span color=\"goldenrod\">", "")
        .replace("<span color=\"navy\">", "")
        .replace("<span color=\"purple\">", "");
    assert!(!stripped.contains('<'));
    assert!(!stripped.contains('>'));
    assert_eq!(
        out,
        "<u>a&lt;b</u> [<span color=\"goldenrod\">&gt;p</span>] x&amp;y\n\
         <span color=\"navy\">  Word Explanation:</span>\n     * &lt;e&gt;\n\
         <span color=\"navy\">  Web Reference:</span>\n     * <span color=\"goldenrod\">&lt;k&gt;</span>\n\
         \x20      <span color=\"purple\">v&amp;</span>"
    );
}

#[test]
fn ansi_decorations() {
    let f = AnsiFormatter::new(true);
    assert_eq!(f.red("r"), "\x1b[31mr\x1b[0m");
    assert_eq!(f.yellow("y"), "\x1b[33my\x1b[0m");
    assert_eq!(f.purple("p"), "\x1b[35mp\x1b[0m");
    assert_eq!(f.cyan("c"), "\x1b[36mc\x1b[0m");
    assert_eq!(f.underline("u"), "\x1b[4mu\x1b[0m");
    assert_eq!(f.default("<d>"), "<d>");
}

#[test]
fn plain_and_win_decorations() {
    let p = PlainFormatter::new(false);
    assert_eq!(p.red("<r>"), "<r>");
    assert_eq!(p.cyan("c"), "c");
    let w = WinFormatter::new(true);
    assert!(w.notify);
    assert_eq!(w.red("r"), "r");
    assert_eq!(w.cyan("c"), "c");
    assert_eq!(w.purple("p"), "");
}

#[test]
fn html_formatter_timeout() {
    let mut f = HtmlFormatter::new(true);
    assert!(f.notify);
    assert_eq!(f.timeout, 30000);
    f.set_timeout(5000);
    assert_eq!(f.timeout, 5000);
    assert!(f.notify);
}

#[test]
fn chinese_detection() {
    assert!(is_chinese("暂时"));
    assert!(is_chinese("a暂"));
    assert!(!is_chinese("comment"));
    assert!(!is_chinese(""));
    assert!(!is_chinese("ˈkɒment"));
}

#[test]
fn web_block_mismatch_is_an_error() {
    let keys = strings(&["a", "b"]);
    let blocks = vec![strings(&["x ; y"])];
    assert!(matches!(web_refs(&keys, &blocks), Err(ParseError::InconsistentWebBlock)));
}

#[test]
fn web_refs_pair_keys_and_values() {
    let keys = strings(&["a", "b"]);
    let blocks = vec![strings(&["x ", "; y ;  z"]), strings(&["w"]), strings(&["extra"])];
    let web = web_refs(&keys, &blocks).unwrap();
    assert_eq!(web.len(), 2);
    assert_eq!(web[0].key, "a");
    assert_eq!(web[0].value, strings(&["x", "y", "z"]));
    assert_eq!(web[1].value, strings(&["w"]));
}

#[test]
fn web_values_split_and_trim() {
    assert_eq!(web_values(&strings(&["  a ; b", " ; c "])), strings(&["a", "b", "c"]));
    assert_eq!(web_values(&strings(&["one"])), strings(&["one"]));
}

#[test]
fn region_marker_lookahead() {
    let tokens = strings(&["英", "uk", "美", "us"]);
    assert_eq!(region_phonetic(&tokens, "英"), Some("uk".to_string()));
    assert_eq!(region_phonetic(&tokens, "美"), Some("us".to_string()));
    let tokens = strings(&["美", "us", "英"]);
    assert_eq!(region_phonetic(&tokens, "英"), None);
    assert_eq!(region_phonetic(&tokens, "美"), Some("us".to_string()));
}

#[test]
fn phonetic_tokens_strip_slashes() {
    assert_eq!(phonetic_token(" / ˈkɒment / "), "ˈkɒment");
    assert_eq!(phonetic_tokens(&strings(&["/a/", "b"])), strings(&["a", "b"]));
}

#[test]
fn generic_phonetic_fallback() {
    let r = YdResponse::from_html(PLAIN_WORD_PAGE, "hello").unwrap();
    let inner = r.inner.as_ref().unwrap();
    assert_eq!(inner.basic.phonetic, Some("həˈləʊ".to_string()));
    assert_eq!(inner.translation, strings(&["你好"]));
    assert_eq!(inner.basic.explains, strings(&["你好，喂"]));
    let out = r.explain(&PlainFormatter::new(false));
    assert!(out.starts_with("hello [həˈləʊ] 你好\n"));
}

#[test]
fn text_helpers() {
    assert_eq!(join(&strings(&["a", "b", "c"]), "; "), "a; b; c");
    assert_eq!(join(&strings(&[]), "; "), "");
    assert_eq!(concat_all(&strings(&["a", "b"])), "ab");
    assert_eq!(remove_char("/a/b/", '/'), "ab");
    assert_eq!(prefix_before("评论，意见", '，'), "评论");
    assert_eq!(prefix_before("评论", '，'), "评论");
    let m = vec![strings(&["a", "b"]), strings(&[]), strings(&["c"])];
    assert_eq!(text_nodes(&m), strings(&["a", "b", "c"]));
    assert!(has_text_node(&m));
    assert!(!has_text_node(&vec![strings(&[""])]));
}

#[test]
fn generic_phonetic_is_first_phonetic_text() {
    let page = "<html><body>\
<div class=\"phone_con\"><div class=\"per-phone\"><span>label</span><span class=\"phonetic\">/ˈwɜːld/</span></div></div>\
<div class=\"basic\"><ul><li class=\"word-exp\"><span class=\"pos\">n.</span><span class=\"trans\">世界</span></li></ul></div>\
</body></html>";
    let r = YdResponse::from_html(page, "world").unwrap();
    let inner = r.inner.as_ref().unwrap();
    assert_eq!(inner.basic.phonetic, Some("ˈwɜːld".to_string()));
    assert_eq!(inner.basic.explains, strings(&["n. 世界"]));
    assert!(inner.web.is_empty());
    assert_eq!(
        r.explain(&PlainFormatter::new(false)),
        "world\n  Translation:\n    世界"
    );
}
