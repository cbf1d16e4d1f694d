use key_shortcuts::document::{find_node, find_section, parse_document, ConfigNode};
use key_shortcuts::screen::is_admitted;

fn leaf(name: &str, values: Vec<Option<&str>>) -> ConfigNode {
    ConfigNode {
        name: name.to_string(),
        values: values.into_iter().map(|v| v.map(|s| s.to_string())).collect(),
        children: None,
    }
}

fn block(name: &str, children: Vec<ConfigNode>) -> ConfigNode {
    ConfigNode { name: name.to_string(), values: Vec::new(), children: Some(children) }
}

#[test]
fn an_empty_text_is_an_empty_document() {
    assert_eq!(parse_document(""), Some(Vec::new()));
}

#[test]
fn nodes_come_out_in_order_with_their_values() {
    let text = "first \"a\" \"b\"\nsecond\nthird \"c\"\n";
    assert_eq!(
        parse_document(text),
        Some(vec![
            leaf("first", vec![Some("a"), Some("b")]),
            leaf("second", vec![]),
            leaf("third", vec![Some("c")]),
        ])
    );
}

#[test]
fn children_blocks_nest() {
    let text = "outer {\n    inner {\n        entry \"x\"\n    }\n    empty {\n    }\n}\n";
    assert_eq!(
        parse_document(text),
        Some(vec![block(
            "outer",
            vec![block("inner", vec![leaf("entry", vec![Some("x")])]), block("empty", vec![])]
        )])
    );
}

#[test]
fn a_value_that_is_no_string_is_kept_as_none() {
    let text = "entry \"a\" 1 true null \"b\"\n";
    assert_eq!(
        parse_document(text),
        Some(vec![leaf("entry", vec![Some("a"), None, None, None, Some("b")])])
    );
}

#[test]
fn escaped_and_raw_strings_give_their_text() {
    let text = "entry \"\\\"W\\\"\" r#\"\"A\"\"#\n";
    assert_eq!(
        parse_document(text),
        Some(vec![leaf("entry", vec![Some("\"W\""), Some("\"A\"")])])
    );
}

#[test]
fn a_property_counts_by_its_value() {
    let text = "entry \"a\" key=\"b\"\n";
    assert_eq!(parse_document(text), Some(vec![leaf("entry", vec![Some("a"), Some("b")])]));
}

#[test]
fn text_that_is_not_kdl_gives_nothing() {
    assert_eq!(parse_document("outer {"), None);
    assert_eq!(parse_document("entry \"unterminated"), None);
    assert_eq!(parse_document("}"), None);
}

#[test]
fn find_node_gives_the_first_of_that_name() {
    let nodes = vec![
        leaf("a", vec![Some("1")]),
        leaf("b", vec![Some("2")]),
        leaf("a", vec![Some("3")]),
    ];
    assert_eq!(find_node(&nodes, "a"), Some(&nodes[0]));
    assert_eq!(find_node(&nodes, "b"), Some(&nodes[1]));
    assert_eq!(find_node(&nodes, "c"), None);
    assert_eq!(find_node(&Vec::new(), "a"), None);
}

#[test]
fn find_node_compares_whole_names() {
    let nodes = vec![leaf("Movement", vec![])];
    assert_eq!(find_node(&nodes, "Move"), None);
    assert_eq!(find_node(&nodes, "Movements"), None);
    assert_eq!(find_node(&nodes, "movement"), None);
    assert_eq!(find_node(&nodes, "Movement"), Some(&nodes[0]));
}

#[test]
fn find_section_gives_the_children_of_the_first_of_that_name() {
    let inner = vec![leaf("x", vec![])];
    let nodes = vec![block("s", vec![leaf("x", vec![])]), block("s", vec![])];
    assert_eq!(find_section(&nodes, "s"), Some(&inner));
}

#[test]
fn a_node_without_a_block_is_no_section() {
    let nodes = vec![leaf("s", vec![Some("v")]), block("s", vec![])];
    assert_eq!(find_section(&nodes, "s"), None);
    assert_eq!(find_section(&nodes, "t"), None);
}

#[test]
fn an_empty_block_is_an_empty_section() {
    let nodes = vec![block("s", vec![])];
    assert_eq!(find_section(&nodes, "s"), Some(&Vec::new()));
}

#[test]
fn a_reserved_word_as_annotation_gives_nothing() {
    assert_eq!(parse_document("(true)"), None);
    assert_eq!(parse_document("(null)"), None);
    assert_eq!(parse_document("(false)"), None);
    assert_eq!(parse_document("a (false)x"), None);
    assert_eq!(parse_document("a (true)\u{e9}\u{e9}\u{e9}"), None);
    assert_eq!(parse_document("a {\n    b key=(null)1\n}\n"), None);
    assert_eq!(parse_document("node (true"), None);
    assert_eq!(parse_document("node (null\u{3000}"), None);
    assert_eq!(parse_document("a \"x\" /-(false)1\n"), None);
}

#[test]
fn a_reserved_word_as_annotation_is_not_admitted() {
    assert!(!is_admitted("(true)"));
    assert!(!is_admitted("a (false)x"));
    assert!(!is_admitted("(null"));
    assert!(!is_admitted("a \"s\" (true)1"));
    assert!(!is_admitted("a r#\"s\"# (true)1"));
    assert!(!is_admitted("/* c */(true)a"));
    assert!(!is_admitted("// c\n(true)a"));
    assert!(!is_admitted("// c\u{2028}(true)a"));
    assert!(!is_admitted("// c\u{85}(true)a"));
}

#[test]
fn a_reserved_word_elsewhere_is_admitted() {
    assert!(is_admitted(""));
    assert!(is_admitted("true false null"));
    assert!(is_admitted("(tru)e"));
    assert!(is_admitted("( true)"));
    assert!(is_admitted("(nul"));
    assert!(is_admitted("(truely)node"));
    assert!(is_admitted("(true\u{e9})node"));
    assert!(is_admitted("(\"true\")node"));
    assert!(is_admitted("// a remark (true)\nnode\n"));
    assert!(is_admitted("/* (null) */ node\n"));
    assert!(is_admitted("node \"(false)\" r#\"(true)\"#\n"));
    assert!(is_admitted("node \"a\\\"(true)\"\n"));
}

#[test]
fn annotations_that_are_no_reserved_words_are_read() {
    assert_eq!(
        parse_document("(kind)node (text)\"a\"\n"),
        Some(vec![leaf("node", vec![Some("a")])])
    );
    assert_eq!(parse_document("(truely)node\n"), Some(vec![leaf("node", vec![])]));
    assert_eq!(parse_document("(nullable)node (falsey)\"x\"\n"), Some(vec![leaf("node", vec![Some("x")])]));
    assert_eq!(parse_document("(\"true\")node\n"), Some(vec![leaf("node", vec![])]));
}

#[test]
fn what_stands_in_strings_and_comments_is_not_screened() {
    assert_eq!(
        parse_document("node \"(nullable) (true) { /- /* \" r#\"(null) \" { /-\"# // (true) {\n"),
        Some(vec![leaf("node", vec![Some("(nullable) (true) { /- /* "), Some("(null) \" { /-")])])
    );
    assert_eq!(
        parse_document("/* (true) { /- \" */ node \"a\\\"(false)\"\n"),
        Some(vec![leaf("node", vec![Some("a\"(false)")])])
    );
    let mut lines = String::new();
    for _ in 0..200 {
        lines.push_str("//- a remark * with / signs { and (true)\n");
    }
    let text = format!("/* first */\n{lines}node\n");
    assert!(is_admitted(&text));
    assert_eq!(parse_document(&text), Some(vec![leaf("node", vec![])]));
}

fn nested_blocks(depth: usize) -> String {
    let mut text = String::new();
    for _ in 0..depth {
        text.push_str("a {\n");
    }
    for _ in 0..depth {
        text.push_str("}\n");
    }
    text
}

fn starred_comment(stars: usize) -> String {
    let mut text = String::from("/*");
    for _ in 0..stars {
        text.push_str("* ");
    }
    text.push_str("*/\nnode\n");
    text
}

fn nested_comments(depth: usize) -> String {
    let mut text = String::new();
    for _ in 0..depth {
        text.push_str("/*");
    }
    for _ in 0..depth {
        text.push_str("*/");
    }
    text.push_str("\nnode\n");
    text
}

fn slashdashed_blocks(depth: usize) -> String {
    let mut text = String::new();
    for _ in 0..depth {
        text.push_str("a /-{\n");
    }
    for _ in 0..depth {
        text.push_str("}\n");
    }
    text
}

fn slashdashed_nodes(depth: usize) -> String {
    let mut text = String::new();
    for _ in 0..depth {
        text.push_str("/-a {\n");
    }
    for _ in 0..depth {
        text.push_str("}\n");
    }
    text.push_str("node\n");
    text
}

#[test]
fn blocks_nest_up_to_the_limit() {
    assert!(is_admitted(&nested_blocks(24)));
    let mut expected = block("a", vec![]);
    for _ in 1..24 {
        expected = block("a", vec![expected]);
    }
    assert_eq!(parse_document(&nested_blocks(24)), Some(vec![expected]));
}

#[test]
fn blocks_nested_beyond_the_limit_give_nothing() {
    assert!(!is_admitted(&nested_blocks(25)));
    assert_eq!(parse_document(&nested_blocks(25)), None);
    assert_eq!(parse_document(&nested_blocks(5000)), None);
}

#[test]
fn blocks_side_by_side_are_not_limited() {
    let mut text = String::new();
    for _ in 0..500 {
        text.push_str("a {\n    b {\n    }\n}\n");
    }
    assert!(is_admitted(&text));
    assert_eq!(parse_document(&text).map(|nodes| nodes.len()), Some(500));
}

#[test]
fn braces_in_strings_and_comments_do_not_count_as_blocks() {
    let mut text = String::from("a \"");
    for _ in 0..100 {
        text.push('{');
    }
    text.push_str("\" /* {{{{{{{{{{{{{{{{{{{{{{{{{{{{{{ */ // {{{{{{{{{{{{{{{{{{{{{{{{{{{{{{\n");
    assert!(is_admitted(&text));
    assert_eq!(parse_document(&text).map(|nodes| nodes.len()), Some(1));
}

#[test]
fn a_block_comment_is_read_up_to_the_limit() {
    assert!(is_admitted(&starred_comment(127)));
    assert_eq!(parse_document(&starred_comment(127)), Some(vec![leaf("node", vec![])]));
    assert!(!is_admitted(&starred_comment(128)));
    assert_eq!(parse_document(&starred_comment(128)), None);
    assert_eq!(parse_document(&starred_comment(100000)), None);
}

#[test]
fn block_comments_nest_up_to_the_limit() {
    assert!(is_admitted(&nested_comments(86)));
    assert_eq!(parse_document(&nested_comments(86)), Some(vec![leaf("node", vec![])]));
    assert!(!is_admitted(&nested_comments(87)));
    assert_eq!(parse_document(&nested_comments(87)), None);
    assert_eq!(parse_document(&nested_comments(100000)), None);
}

#[test]
fn block_comments_one_after_another_are_not_limited() {
    let mut text = String::new();
    for _ in 0..500 {
        text.push_str("/* a * remark / here */\n");
    }
    text.push_str("node /* one */ \"x\" /* two */\n");
    assert!(is_admitted(&text));
    assert_eq!(parse_document(&text), Some(vec![leaf("node", vec![Some("x")])]));
}

#[test]
fn slashdashes_one_after_another_are_not_limited() {
    let mut text = String::new();
    for _ in 0..200 {
        text.push_str("/-gone \"x\" {\n    /-inner\n}\n");
    }
    text.push_str("kept /-\"a\" /-b=1 /-\"c\" /-\"d\" /-\"e\" /-\"f\" \"z\" /-{\n    child\n}\n");
    assert!(is_admitted(&text));
    assert_eq!(parse_document(&text), Some(vec![leaf("kept", vec![Some("z")])]));
    assert_eq!(
        parse_document("/-a\n/-b\n/-c\n/-d\n/-e\nnode\n"),
        Some(vec![leaf("node", vec![])])
    );
}

#[test]
fn slashdashes_nest_up_to_the_limit() {
    assert!(is_admitted(&slashdashed_blocks(4)));
    assert!(parse_document(&slashdashed_blocks(4)).is_some());
    assert!(is_admitted(&slashdashed_nodes(4)));
    assert_eq!(parse_document(&slashdashed_nodes(4)), Some(vec![leaf("node", vec![])]));
}

#[test]
fn slashdashes_nested_beyond_the_limit_give_nothing() {
    assert!(!is_admitted(&slashdashed_blocks(5)));
    assert_eq!(parse_document(&slashdashed_blocks(5)), None);
    assert_eq!(parse_document(&slashdashed_blocks(40)), None);
    assert!(!is_admitted(&slashdashed_nodes(5)));
    assert_eq!(parse_document(&slashdashed_nodes(5)), None);
    assert_eq!(parse_document(&slashdashed_nodes(40)), None);
    assert!(!is_admitted("/-\n/-\n/-\n/-\n/-\na\nb\nc\nd\ne\nf\n"));
    assert!(!is_admitted("a /- \\\n /- \\\n /- \\\n /- \\\n /- 1 2 3 4 5\n"));
}

#[test]
fn everything_at_its_limit_at_once_is_read() {
    let mut text = String::new();
    for _ in 0..4 {
        text.push_str("/-a {\n");
    }
    for _ in 0..20 {
        text.push_str("a {\n");
    }
    text.push_str("/*");
    for _ in 0..127 {
        text.push_str("* ");
    }
    text.push_str("*/ b \"x\"\n");
    for _ in 0..24 {
        text.push_str("}\n");
    }
    text.push_str("node\n");
    assert!(is_admitted(&text));
    assert_eq!(parse_document(&text), Some(vec![leaf("node", vec![])]));
}

/// A text in which `depth` slash-dashed constructs stand inside one another:
/// each level opens with `open`, which ends in an opening brace.
fn nested_in(open: &str, depth: usize) -> String {
    let mut text = String::new();
    for _ in 0..depth {
        text.push_str(open);
    }
    text.push_str("leaf\n");
    for _ in 0..depth {
        text.push_str("}\n");
    }
    text.push_str("node\n");
    text
}

const OPENINGS: [&str; 12] = [
    "/-a {\n",
    "a /-{\n",
    "/-\n\n  a {\n",
    "/-a \\\r\n {\n",
    "/-a \\ // on\n {\n",
    "/-a /* c */ {\n",
    "/-(t)a \"x\" k=1 {\n",
    "/-\"a\" {\n",
    "/-r#\"a\"# {\n",
    "a \"x\" /- /* c */ {\n",
    "a \\\n /-{\n",
    "/-a\u{3000}{\r\n",
];

#[test]
fn slashdashes_nest_up_to_the_limit_in_every_form() {
    for open in OPENINGS {
        let text = nested_in(open, 4);
        assert!(is_admitted(&text), "{:?}", open);
        let nodes = parse_document(&text).unwrap();
        assert_eq!(nodes.last(), Some(&leaf("node", vec![])), "{:?}", open);
    }
}

#[test]
fn slashdashes_nested_beyond_the_limit_are_refused_in_every_form() {
    for open in OPENINGS {
        assert!(!is_admitted(&nested_in(open, 5)), "{:?}", open);
        assert_eq!(parse_document(&nested_in(open, 30)), None, "{:?}", open);
    }
    for first in OPENINGS {
        for second in OPENINGS {
            let mut text = String::new();
            for _ in 0..3 {
                text.push_str(first);
                text.push_str(second);
            }
            text.push_str("leaf\n}\n}\n}\n}\n}\n}\nnode\n");
            assert!(!is_admitted(&text), "{:?} {:?}", first, second);
        }
    }
}

#[test]
fn a_slashdash_in_a_slashdashed_entry_list_counts_as_nested() {
    assert!(is_admitted("a /- /- /- /-\"w\" \"x\" \"y\" \"z\" \"kept\"\n"));
    assert!(!is_admitted("a /- /- /- /- /-\"v\" \"w\" \"x\" \"y\" \"z\" \"kept\"\n"));
    assert!(!is_admitted("/-/-/-/-/-a\nb\nc\nd\ne\nf\n"));
}

#[test]
fn line_breaks_of_every_kind_end_a_line_comment() {
    for end in ["\n", "\r", "\r\n", "\u{c}", "\u{85}", "\u{2028}", "\u{2029}"] {
        let text = format!("// remark {{ \"{end}node \"x\"{end}");
        assert!(is_admitted(&text), "{:?}", end);
        assert_eq!(parse_document(&text), Some(vec![leaf("node", vec![Some("x")])]), "{:?}", end);
        assert!(!is_admitted(&format!("// remark{end}(true)node\n")), "{:?}", end);
    }
}
