use xml2gpui::chars::lower_string;
use xml2gpui::render::{render_component, root_element, ComponentType, DivChild};
use xml2gpui::style::{BoxSide, LayoutFlag, ScaleStep, SizeTarget, StyleMutation};
use xml2gpui::tree::{parse_xml, Component};

fn node(elem: &str, attrs: Vec<(&str, &str)>) -> Component {
    Component {
        elem: elem.to_string(),
        text: None,
        attributes: attrs
            .into_iter()
            .map(|(k, v)| (k.to_string(), v.to_string()))
            .collect(),
        children: Vec::new(),
    }
}

#[test]
fn img_without_src_renders_diagnostic_container() {
    let n = node("img", vec![("class", "w-10")]);
    match render_component(&n) {
        ComponentType::Div(d) => {
            assert_eq!(d.style.font, None);
            assert_eq!(d.style.mutations, vec![]);
            assert_eq!(
                d.children,
                vec![DivChild::Text(
                    "Error: img element must have src attribute".to_string()
                )],
            );
        }
        _ => panic!("expected a container"),
    }
}

#[test]
fn svg_without_path_renders_diagnostic_container() {
    let n = node("svg", vec![]);
    match render_component(&n) {
        ComponentType::Div(d) => {
            assert_eq!(d.children.len(), 1);
            assert!(matches!(d.children[0], DivChild::Text(_)));
        }
        _ => panic!("expected a container"),
    }
}

#[test]
fn svg_with_path_renders_vector_graphic() {
    let n = node("svg", vec![("path", "m.svg")]);
    match render_component(&n) {
        ComponentType::Svg(s) => assert_eq!(s.path, "m.svg"),
        _ => panic!("expected a vector graphic"),
    }
}

#[test]
fn unknown_tag_renders_empty_container() {
    let n = node("marquee", vec![("class", "flex")]);
    match render_component(&n) {
        ComponentType::Div(d) => {
            assert_eq!(d.children, vec![]);
            assert_eq!(d.style.mutations, vec![]);
        }
        _ => panic!("expected a container"),
    }
}

#[test]
fn rendering_twice_is_structurally_identical() {
    let c = parse_xml(
        "<div class=\"flex p-4\"><img src=\"a.png\"/><svg path=\"p\"/>tail</div>".to_string(),
    )
    .unwrap();
    let first = render_component(&c);
    let second = render_component(&c);
    assert_eq!(first, second);
}

#[test]
fn end_to_end_scenario() {
    let input = "<div class=\"flex flex-col p-4\">\
                 <img src=\"a.png\" class=\"w-10 h-10\"/>hello</div>";
    let c = parse_xml(input.to_string()).unwrap();
    assert_eq!(c.elem, "div");
    assert_eq!(c.children.len(), 1);
    assert_eq!(c.text, Some("hello".to_string()));
    let img = &c.children[0];
    assert_eq!(img.elem, "img");
    assert!(img.attributes.contains(&("src".to_string(), "a.png".to_string())));

    match render_component(&c) {
        ComponentType::Div(d) => {
            assert_eq!(
                d.style.mutations,
                vec![
                    StyleMutation::Layout(LayoutFlag::Flex),
                    StyleMutation::Layout(LayoutFlag::FlexCol),
                    StyleMutation::Padding(BoxSide::All, ScaleStep::S4),
                ],
            );
            assert_eq!(d.children.len(), 2);
            match &d.children[0] {
                DivChild::Element(ComponentType::Img(im)) => {
                    assert_eq!(im.src, "a.png");
                    assert_eq!(
                        im.style.mutations,
                        vec![
                            StyleMutation::Sizing(SizeTarget::Width, ScaleStep::S10),
                            StyleMutation::Sizing(SizeTarget::Height, ScaleStep::S10),
                        ],
                    );
                }
                other => panic!("expected an image child, got {:?}", other),
            }
            assert_eq!(d.children[1], DivChild::Text("hello".to_string()));
        }
        _ => panic!("expected a container"),
    }
}

#[test]
fn container_children_keep_document_order() {
    let c = parse_xml("<div><a></a><b></b><c></c></div>".to_string()).unwrap();
    match render_component(&c) {
        ComponentType::Div(d) => {
            assert_eq!(d.children.len(), 3);
            for child in &d.children {
                assert!(matches!(child, DivChild::Element(ComponentType::Div(_))));
            }
        }
        _ => panic!("expected a container"),
    }
}

#[test]
fn font_attribute_passes_through() {
    let n = node("div", vec![("font", "Zed Mono")]);
    match render_component(&n) {
        ComponentType::Div(d) => assert_eq!(d.style.font, Some("Zed Mono".to_string())),
        _ => panic!("expected a container"),
    }
}

#[test]
fn lowercasing_helper_folds_ascii_only() {
    assert_eq!(lower_string("DiV"), "div");
    assert_eq!(lower_string("abc-09"), "abc-09");
}

#[test]
fn non_container_root_is_replaced() {
    let c = parse_xml("<img src=\"a.png\"/>".to_string()).unwrap();
    match root_element(render_component(&c)) {
        ComponentType::Div(d) => {
            assert_eq!(
                d.children,
                vec![DivChild::Text("Error: root element must be a div!".to_string())],
            );
            assert_eq!(d.style.mutations, vec![]);
        }
        _ => panic!("expected a container"),
    }
}

#[test]
fn container_root_passes_through() {
    let c = parse_xml("<div class=\"flex\"></div>".to_string()).unwrap();
    let rendered = render_component(&c);
    let expected = render_component(&c);
    assert_eq!(root_element(rendered), expected);
}
