use xml2gpui::events::RawEvent;
use xml2gpui::tree::{build_tree, parse_xml, Component, ParseError};

fn no_attrs() -> Vec<(String, String)> {
    Vec::new()
}

#[test]
fn parse_simple_nesting() {
    let c = parse_xml("<div><span></span><p></p></div>".to_string()).unwrap();
    assert_eq!(c.elem, "div");
    assert_eq!(c.children.len(), 2);
    assert_eq!(c.children[0].elem, "span");
    assert_eq!(c.children[1].elem, "p");
}

#[test]
fn parse_preserves_sibling_order_at_depth() {
    let c = parse_xml("<div><a><b></b><c></c></a><d></d></div>".to_string()).unwrap();
    assert_eq!(c.children.len(), 2);
    assert_eq!(c.children[0].elem, "a");
    assert_eq!(c.children[0].children[0].elem, "b");
    assert_eq!(c.children[0].children[1].elem, "c");
    assert_eq!(c.children[1].elem, "d");
}

#[test]
fn parse_lowercases_tags() {
    let c = parse_xml("<DIV><IMG src=\"a.png\"/></DIV>".to_string()).unwrap();
    assert_eq!(c.elem, "div");
    assert_eq!(c.children[0].elem, "img");
}

#[test]
fn parse_attributes_in_document_order() {
    let c = parse_xml("<div b=\"2\" a=\"1\" c=\"3\"></div>".to_string()).unwrap();
    assert_eq!(
        c.attributes,
        vec![
            ("b".to_string(), "2".to_string()),
            ("a".to_string(), "1".to_string()),
            ("c".to_string(), "3".to_string()),
        ],
    );
}

#[test]
fn parse_duplicate_attribute_becomes_error_pair() {
    // The reader rejects a repeated attribute name; the pair is kept as a
    // diagnostic instead of aborting the parse.
    let c = parse_xml("<div a=\"1\" b=\"2\" a=\"3\"></div>".to_string()).unwrap();
    assert_eq!(
        c.attributes,
        vec![
            ("a".to_string(), "1".to_string()),
            ("b".to_string(), "2".to_string()),
            ("error".to_string(), "error".to_string()),
        ],
    );
}

#[test]
fn build_allows_duplicate_attributes() {
    let events = vec![RawEvent::Open {
        tag: "div".to_string(),
        attributes: vec![
            ("a".to_string(), "1".to_string()),
            ("a".to_string(), "3".to_string()),
        ],
    }];
    let c = build_tree(&events);
    assert_eq!(c.attributes.len(), 2);
}

#[test]
fn parse_text_is_trimmed_and_unescaped() {
    let c = parse_xml("<div> a &amp; b </div>".to_string()).unwrap();
    assert_eq!(c.text, Some("a & b".to_string()));
}

#[test]
fn parse_attribute_values_unescaped() {
    let c = parse_xml("<img src=\"a&amp;b.png\"/>".to_string()).unwrap();
    assert_eq!(c.attributes, vec![("src".to_string(), "a&b.png".to_string())]);
}

#[test]
fn parse_last_text_run_wins() {
    let c = parse_xml("<div>one<b></b>two</div>".to_string()).unwrap();
    assert_eq!(c.text, Some("two".to_string()));
    assert_eq!(c.children.len(), 1);
}

#[test]
fn parse_empty_document_yields_sentinel() {
    let c = parse_xml("".to_string()).unwrap();
    assert_eq!(c.elem, "error");
    assert_eq!(c.text, Some("error".to_string()));
    assert_eq!(c.children.len(), 0);
}

#[test]
fn parse_lone_self_closing_element_is_root() {
    let c = parse_xml("<img src=\"a.png\"/>".to_string()).unwrap();
    assert_eq!(c.elem, "img");
    assert_eq!(c.attributes, vec![("src".to_string(), "a.png".to_string())]);
}

#[test]
fn parse_mismatched_end_tag_is_fatal() {
    assert_eq!(parse_xml("<a></b>".to_string()), Err(ParseError));
}

#[test]
fn parse_bad_entity_is_fatal() {
    assert_eq!(parse_xml("<div>a &unknown; b</div>".to_string()), Err(ParseError));
}

#[test]
fn build_ignores_root_level_close() {
    let events = vec![
        RawEvent::Open { tag: "div".to_string(), attributes: no_attrs() },
        RawEvent::Close,
        RawEvent::Close,
    ];
    let c = build_tree(&events);
    assert_eq!(c.elem, "div");
    assert_eq!(c.children.len(), 0);
}

#[test]
fn build_unclosed_nesting_pops_innermost() {
    let events = vec![
        RawEvent::Open { tag: "a".to_string(), attributes: no_attrs() },
        RawEvent::Open { tag: "b".to_string(), attributes: no_attrs() },
    ];
    let c = build_tree(&events);
    assert_eq!(c.elem, "b");
}

#[test]
fn build_last_candidate_root_wins() {
    let events = vec![
        RawEvent::SelfClosing { tag: "a".to_string(), attributes: no_attrs() },
        RawEvent::SelfClosing { tag: "b".to_string(), attributes: no_attrs() },
    ];
    let c = build_tree(&events);
    assert_eq!(c.elem, "b");
}

#[test]
fn build_text_outside_elements_is_dropped() {
    let events = vec![
        RawEvent::Text("stray".to_string()),
        RawEvent::Open { tag: "div".to_string(), attributes: no_attrs() },
    ];
    let c = build_tree(&events);
    assert_eq!(c.elem, "div");
    assert_eq!(c.text, None);
}

#[test]
fn build_lowercases_mixed_case_tags() {
    let events = vec![RawEvent::Open { tag: "DiV9-x".to_string(), attributes: no_attrs() }];
    let c = build_tree(&events);
    assert_eq!(c.elem, "div9-x");
}

#[test]
fn parse_skips_comments_and_cdata() {
    let c = parse_xml("<div><!-- note --><b></b></div>".to_string()).unwrap();
    assert_eq!(c.elem, "div");
    assert_eq!(c.children.len(), 1);
    assert_eq!(c.children[0].elem, "b");
}

#[test]
fn parse_matches_build_on_same_events() {
    let parsed = parse_xml("<div><img src=\"x\"/></div>".to_string()).unwrap();
    let built = build_tree(&vec![
        RawEvent::Open { tag: "div".to_string(), attributes: no_attrs() },
        RawEvent::SelfClosing {
            tag: "img".to_string(),
            attributes: vec![("src".to_string(), "x".to_string())],
        },
        RawEvent::Close,
    ]);
    let expected = Component {
        elem: "div".to_string(),
        text: None,
        attributes: Vec::new(),
        children: vec![Component {
            elem: "img".to_string(),
            text: None,
            attributes: vec![("src".to_string(), "x".to_string())],
            children: Vec::new(),
        }],
    };
    assert_eq!(parsed, expected);
    assert_eq!(built, expected);
}
