use monots_docgen::ast::ParsedSource;
use monots_docgen::js_doc::{find_doc_comment, js_doc_for, JsDoc, JsDocTag};
use monots_docgen::source::get_location;

fn source(text: &str) -> ParsedSource {
    ParsedSource { specifier: "file:///a.ts".to_string(), text: text.chars().collect() }
}

fn start_of(text: &str, needle: &str) -> usize {
    let at = text.find(needle).unwrap();
    text[..at].chars().count()
}

fn doc_before(text: &str, needle: &str) -> Option<JsDoc> {
    js_doc_for(&source(text), start_of(text, needle))
}

#[test]
fn one_line_comment_is_the_description() {
    let text = "/** Hello */\nfunction f() {}";
    assert_eq!(
        doc_before(text, "function"),
        Some(JsDoc { doc: Some("Hello".to_string()), tags: vec![] })
    );
}

#[test]
fn lines_lose_their_decoration() {
    let text = "/**\n * First line.\n *   Indented.\n *\n * Last.\n */\nclass A {}";
    assert_eq!(
        doc_before(text, "class"),
        Some(JsDoc {
            doc: Some("First line.\n  Indented.\n\nLast.".to_string()),
            tags: vec![]
        })
    );
}

#[test]
fn known_tags_are_read_into_their_fields() {
    let text = "/**\n * Adds.\n * @param a the first\n *   number\n * @param b\n * @returns the sum\n * @deprecated use plus\n * @example\n * add(1, 2)\n */\nfunction add(a, b) {}";
    assert_eq!(
        doc_before(text, "function"),
        Some(JsDoc {
            doc: Some("Adds.".to_string()),
            tags: vec![
                JsDocTag::Param {
                    name: "a".to_string(),
                    doc: Some("the first\n  number".to_string())
                },
                JsDocTag::Param { name: "b".to_string(), doc: None },
                JsDocTag::Return { doc: Some("the sum".to_string()) },
                JsDocTag::Deprecated { doc: Some("use plus".to_string()) },
                JsDocTag::Example { doc: Some("add(1, 2)".to_string()) },
            ]
        })
    );
}

#[test]
fn unknown_tags_are_kept_as_written() {
    let text = "/** @since 1.2  beta\n * @internal */ let x;";
    assert_eq!(
        doc_before(text, "let"),
        Some(JsDoc {
            doc: None,
            tags: vec![
                JsDocTag::Unsupported {
                    name: "since".to_string(),
                    value: "1.2  beta".to_string()
                },
                JsDocTag::Unsupported { name: "internal".to_string(), value: "".to_string() },
            ]
        })
    );
}

#[test]
fn return_is_read_like_returns() {
    let text = "/** @return x */f";
    assert_eq!(
        doc_before(text, "f"),
        Some(JsDoc { doc: None, tags: vec![JsDocTag::Return { doc: Some("x".to_string()) }] })
    );
}

#[test]
fn blank_line_parts_comment_and_declaration() {
    let text = "/** Hello */\n\nfunction f() {}";
    assert_eq!(doc_before(text, "function"), None);
    let text = "/** Hello */\n  \t\nfunction f() {}";
    assert_eq!(doc_before(text, "function"), None);
}

#[test]
fn whitespace_and_one_line_break_are_allowed() {
    let text = "/** Hello */ \r\n\t function f() {}";
    assert_eq!(
        doc_before(text, "function"),
        Some(JsDoc { doc: Some("Hello".to_string()), tags: vec![] })
    );
}

#[test]
fn plain_block_comment_is_no_documentation() {
    assert_eq!(doc_before("/* Hello */\nfunction f() {}", "function"), None);
    assert_eq!(doc_before("/**/\nfunction f() {}", "function"), None);
    assert_eq!(doc_before("// Hello\nfunction f() {}", "function"), None);
}

#[test]
fn empty_documentation_comment_is_found_empty() {
    assert_eq!(
        doc_before("/***/function f() {}", "function"),
        Some(JsDoc { doc: None, tags: vec![] })
    );
}

#[test]
fn other_text_between_comment_and_declaration_breaks_the_link() {
    assert_eq!(doc_before("/** a */ x; function f() {}", "function"), None);
    assert_eq!(doc_before("function f() {}", "function"), None);
}

#[test]
fn nearest_comment_is_taken() {
    let text = "/** one */\n/** two */\nfunction f() {}";
    assert_eq!(
        doc_before(text, "function"),
        Some(JsDoc { doc: Some("two".to_string()), tags: vec![] })
    );
}

#[test]
fn start_past_the_text_finds_nothing() {
    let text = "/** a */";
    assert_eq!(js_doc_for(&source(text), 100), None);
    assert_eq!(find_doc_comment(&text.chars().collect(), 8), Some((3, 6)));
}

#[test]
fn comment_range_is_counted_in_characters() {
    let text = "é /** ü */ f";
    assert_eq!(find_doc_comment(&text.chars().collect(), 11), Some((5, 8)));
    assert_eq!(
        js_doc_for(&source(text), 11),
        Some(JsDoc { doc: Some("ü".to_string()), tags: vec![] })
    );
}

#[test]
fn location_counts_lines_from_one_and_columns_from_zero() {
    let src = source("ab\ncd\n\nef");
    let at = |pos: usize| {
        let l = get_location(&src, pos);
        (l.filename, l.line, l.col)
    };
    assert_eq!(at(0), ("file:///a.ts".to_string(), 1, 0));
    assert_eq!(at(1), ("file:///a.ts".to_string(), 1, 1));
    assert_eq!(at(2), ("file:///a.ts".to_string(), 1, 2));
    assert_eq!(at(3), ("file:///a.ts".to_string(), 2, 0));
    assert_eq!(at(6), ("file:///a.ts".to_string(), 3, 0));
    assert_eq!(at(7), ("file:///a.ts".to_string(), 4, 0));
    assert_eq!(at(9), ("file:///a.ts".to_string(), 4, 2));
    assert_eq!(at(500), ("file:///a.ts".to_string(), 4, 2));
}
