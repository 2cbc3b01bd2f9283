//! The element renderer.
//!
//! Walks the node tree depth-first and produces one visual element per
//! node: a container for `div` (children in document order, direct text as
//! a trailing literal child), an image for `img`, a vector graphic for
//! `svg`.  A missing required attribute yields a container with a
//! diagnostic text child instead of a failure; an unknown tag yields an
//! empty, unstyled container.

use crate::chars::str_eq;
use crate::style::{
    find_attr, set_attributes, spec_apply_attrs, spec_empty_style, spec_find_attr, ElementStyle,
    StyleModel,
};
use crate::tree::{Component, NodeModel};
use vstd::prelude::*;

verus! {

/// A container element: style state plus ordered children.
#[derive(Debug, PartialEq)]
pub struct Div {
    pub style: ElementStyle,
    pub children: Vec<DivChild>,
}

/// An image element: style state plus its source.
#[derive(Debug, PartialEq)]
pub struct Img {
    pub style: ElementStyle,
    pub src: String,
}

/// A vector-graphic element: style state plus its path.
#[derive(Debug, PartialEq)]
pub struct Svg {
    pub style: ElementStyle,
    pub path: String,
}

/// One child of a container: a nested element or a literal text run.
#[derive(Debug, PartialEq)]
pub enum DivChild {
    Element(ComponentType),
    Text(String),
}

/// One visual element, of a closed set of variants.
#[derive(Debug, PartialEq)]
pub enum ComponentType {
    Div(Div),
    Img(Img),
    Svg(Svg),
}

/// The model of a visual element.
#[verifier::ext_equal]
pub ghost enum ElementModel {
    Div { style: StyleModel, children: Seq<ChildModel> },
    Img { style: StyleModel, src: Seq<char> },
    Svg { style: StyleModel, path: Seq<char> },
}

/// The model of one container child.
#[verifier::ext_equal]
pub ghost enum ChildModel {
    Element(ElementModel),
    Text(Seq<char>),
}

/// The model of a visual element, children included.
pub open spec fn element_view(e: ComponentType) -> ElementModel
    decreases e,
{
    match e {
        ComponentType::Div(d) => ElementModel::Div {
            style: d.style@,
            children: Seq::new(
                d.children@.len(),
                |i: int|
                    if 0 <= i < d.children@.len() {
                        child_view(d.children@[i])
                    } else {
                        ChildModel::Text(Seq::empty())
                    },
            ),
        },
        ComponentType::Img(im) => ElementModel::Img { style: im.style@, src: im.src@ },
        ComponentType::Svg(sv) => ElementModel::Svg { style: sv.style@, path: sv.path@ },
    }
}

/// The model of one container child.
pub open spec fn child_view(c: DivChild) -> ChildModel
    decreases c,
{
    match c {
        DivChild::Element(e) => ChildModel::Element(element_view(e)),
        DivChild::Text(t) => ChildModel::Text(t@),
    }
}

impl View for ComponentType {
    type V = ElementModel;

    open spec fn view(&self) -> ElementModel {
        element_view(*self)
    }
}

impl View for DivChild {
    type V = ChildModel;

    open spec fn view(&self) -> ChildModel {
        child_view(*self)
    }
}

/// The models of a sequence of container children.
pub open spec fn children_views(s: Seq<DivChild>) -> Seq<ChildModel> {
    s.map_values(|c: DivChild| child_view(c))
}

proof fn lemma_children_views_push(s: Seq<DivChild>, x: DivChild)
    ensures
        children_views(s.push(x)) =~= children_views(s).push(child_view(x)),
{
    assert forall|j: int| 0 <= j < s.len() + 1 implies children_views(s.push(x))[j]
        == children_views(s).push(child_view(x))[j] by {
        if j < s.len() {
            assert(s.push(x)[j] == s[j]);
        } else {
            assert(s.push(x)[j] == x);
        }
    }
}

proof fn lemma_div_children_view(d: Div)
    ensures
        element_view(ComponentType::Div(d)) matches ElementModel::Div { style, children }
            && style == d.style@ && children =~= children_views(d.children@),
{
}

/// An unstyled container holding one diagnostic text child.
pub open spec fn diagnostic_div(msg: Seq<char>) -> ElementModel {
    ElementModel::Div { style: spec_empty_style(), children: seq![ChildModel::Text(msg)] }
}

/// The element rendered for a node: dispatch on the tag, children first and
/// in document order, then the node's attributes applied to the style.
pub open spec fn spec_render(n: NodeModel) -> ElementModel
    decreases n,
{
    if n.elem == "div"@ {
        let elems = Seq::new(
            n.children.len(),
            |i: int|
                if 0 <= i < n.children.len() {
                    ChildModel::Element(spec_render(n.children[i]))
                } else {
                    ChildModel::Text(Seq::empty())
                },
        );
        let kids = match n.text {
            Some(t) => elems.push(ChildModel::Text(t)),
            None => elems,
        };
        ElementModel::Div {
            style: spec_apply_attrs(spec_empty_style(), n.attributes),
            children: kids,
        }
    } else if n.elem == "img"@ {
        match spec_find_attr(n.attributes, "src"@) {
            Some(v) => ElementModel::Img {
                style: spec_apply_attrs(spec_empty_style(), n.attributes),
                src: v,
            },
            None => diagnostic_div("Error: img element must have src attribute"@),
        }
    } else if n.elem == "svg"@ {
        match spec_find_attr(n.attributes, "path"@) {
            Some(v) => ElementModel::Svg {
                style: spec_apply_attrs(spec_empty_style(), n.attributes),
                path: v,
            },
            None => diagnostic_div("Error: svg element must have path attribute"@),
        }
    } else {
        ElementModel::Div { style: spec_empty_style(), children: Seq::empty() }
    }
}

/// Renders one node tree into a visual element tree.
#[verifier::rlimit(60)]
pub fn render_component(component: &Component) -> (e: ComponentType)
    ensures
        e@ == spec_render(component@),
    decreases *component,
{
    let ghost nm = component@;
    if str_eq(component.elem.as_str(), "div") {
        let mut children: Vec<DivChild> = Vec::new();
        let n = component.children.len();
        let mut i: usize = 0;
        while i < n
            invariant
                0 <= i <= n,
                n == component.children@.len(),
                nm == component@,
                nm.children.len() == n,
                children_views(children@) =~= Seq::new(
                    i as nat,
                    |j: int|
                        if 0 <= j < i {
                            ChildModel::Element(spec_render(nm.children[j]))
                        } else {
                            ChildModel::Text(Seq::empty())
                        },
                ),
            decreases n - i,
        {
            proof {
                assert(nm.children[i as int] == component.children@[i as int]@);
            }
            let ce = render_component(&component.children[i]);
            let ghost prekids = children@;
            children.push(DivChild::Element(ce));
            i = i + 1;
            proof {
                lemma_children_views_push(prekids, DivChild::Element(ce));
                assert(children_views(children@) =~= Seq::new(
                    i as nat,
                    |j: int|
                        if 0 <= j < i {
                            ChildModel::Element(spec_render(nm.children[j]))
                        } else {
                            ChildModel::Text(Seq::empty())
                        },
                ));
            }
        }
        let ghost elems = Seq::new(
            nm.children.len(),
            |j: int|
                if 0 <= j < nm.children.len() {
                    ChildModel::Element(spec_render(nm.children[j]))
                } else {
                    ChildModel::Text(Seq::empty())
                },
        );
        proof {
            assert(children_views(children@) =~= elems);
        }
        match &component.text {
            Some(t) => {
                let ghost prekids = children@;
                let tc = t.clone();
                children.push(DivChild::Text(tc));
                proof {
                    lemma_children_views_push(prekids, DivChild::Text(tc));
                }
            },
            None => {},
        }
        let mut style = ElementStyle::new();
        set_attributes(&mut style, &component.attributes);
        let e = ComponentType::Div(Div { style, children });
        proof {
            lemma_div_children_view(e->Div_0);
            assert(e@ is Div && spec_render(nm) is Div);
            assert(e@->Div_style =~= spec_render(nm)->Div_style);
            assert(e@->Div_children =~= spec_render(nm)->Div_children);
            assert(e@ =~= spec_render(nm));
        }
        e
    } else if str_eq(component.elem.as_str(), "img") {
        match find_attr(&component.attributes, "src") {
            Some(src) => {
                let mut style = ElementStyle::new();
                set_attributes(&mut style, &component.attributes);
                let e = ComponentType::Img(Img { style, src });
                proof {
                    assert(e@ =~= spec_render(nm));
                }
                e
            },
            None => {
                let mut kids: Vec<DivChild> = Vec::new();
                let msg = "Error: img element must have src attribute".to_owned();
                kids.push(DivChild::Text(msg));
                let e = ComponentType::Div(Div { style: ElementStyle::new(), children: kids });
                proof {
                    lemma_div_children_view(e->Div_0);
                    assert(e@ is Div && spec_render(nm) is Div);
                    assert(e@->Div_style =~= spec_render(nm)->Div_style);
                    assert(e@->Div_children =~= spec_render(nm)->Div_children);
                    assert(e@ =~= spec_render(nm));
                }
                e
            },
        }
    } else if str_eq(component.elem.as_str(), "svg") {
        match find_attr(&component.attributes, "path") {
            Some(path) => {
                let mut style = ElementStyle::new();
                set_attributes(&mut style, &component.attributes);
                let e = ComponentType::Svg(Svg { style, path });
                proof {
                    assert(e@ =~= spec_render(nm));
                }
                e
            },
            None => {
                let mut kids: Vec<DivChild> = Vec::new();
                let msg = "Error: svg element must have path attribute".to_owned();
                kids.push(DivChild::Text(msg));
                let e = ComponentType::Div(Div { style: ElementStyle::new(), children: kids });
                proof {
                    lemma_div_children_view(e->Div_0);
                    assert(e@ is Div && spec_render(nm) is Div);
                    assert(e@->Div_style =~= spec_render(nm)->Div_style);
                    assert(e@->Div_children =~= spec_render(nm)->Div_children);
                    assert(e@ =~= spec_render(nm));
                }
                e
            },
        }
    } else {
        let e = ComponentType::Div(
            Div { style: ElementStyle::new(), children: Vec::new() },
        );
        proof {
            lemma_div_children_view(e->Div_0);
            assert(e@ is Div && spec_render(nm) is Div);
            assert(e@->Div_style =~= spec_render(nm)->Div_style);
            assert(e@->Div_children =~= spec_render(nm)->Div_children);
            assert(e@ =~= spec_render(nm));
        }
        e
    }
}

/// The number of elements in a rendered tree; literal text children are
/// not elements.
pub open spec fn element_count(e: ElementModel) -> nat
    decreases e, 0int,
{
    match e {
        ElementModel::Div { children, .. } => 1 + count_child_elements(
            children,
            children.len() as int,
        ),
        _ => 1,
    }
}

/// The elements among the first `i` children of `s`, nested ones included.
pub open spec fn count_child_elements(s: Seq<ChildModel>, i: int) -> nat
    decreases s, i,
{
    if i <= 0 || i > s.len() {
        0
    } else {
        count_child_elements(s, i - 1) + (match s[i - 1] {
            ChildModel::Element(e) => element_count(e),
            ChildModel::Text(_) => 0nat,
        })
    }
}

proof fn lemma_count_child_agree(s1: Seq<ChildModel>, s2: Seq<ChildModel>, i: int)
    requires
        i <= s1.len(),
        i <= s2.len(),
        forall|j: int| 0 <= j < i ==> s1[j] == s2[j],
    ensures
        count_child_elements(s1, i) == count_child_elements(s2, i),
    decreases i,
{
    if i > 0 {
        lemma_count_child_agree(s1, s2, i - 1);
    }
}

proof fn lemma_render_children_count(children: Seq<NodeModel>, elems: Seq<ChildModel>, i: int)
    requires
        0 <= i <= children.len(),
        i <= elems.len(),
        forall|j: int| 0 <= j < i ==> elems[j] == ChildModel::Element(spec_render(children[j])),
    ensures
        count_child_elements(elems, i) <= crate::tree::count_nodes(children, i),
    decreases children, i,
{
    if i > 0 {
        lemma_render_children_count(children, elems, i - 1);
        lemma_render_count(children[i - 1]);
    }
}

/// Rendering never multiplies elements: the element tree holds at most one
/// element per node of the source tree.
pub proof fn lemma_render_count(n: NodeModel)
    ensures
        element_count(spec_render(n)) <= crate::tree::node_count(n),
    decreases n, 1int,
{
    if n.elem == "div"@ {
        let elems = Seq::new(
            n.children.len(),
            |i: int|
                if 0 <= i < n.children.len() {
                    ChildModel::Element(spec_render(n.children[i]))
                } else {
                    ChildModel::Text(Seq::empty())
                },
        );
        lemma_render_children_count(n.children, elems, n.children.len() as int);
        let r = spec_render(n);
        match n.text {
            Some(t) => {
                let kids = elems.push(ChildModel::Text(t));
                assert(r->Div_children =~= kids);
                lemma_count_child_agree(kids, elems, elems.len() as int);
                assert(kids[elems.len() as int] == ChildModel::Text(t));
            },
            None => {
                assert(r->Div_children =~= elems);
            },
        }
    } else if n.elem == "img"@ {
        match spec_find_attr(n.attributes, "src"@) {
            Some(_) => {},
            None => {
                let kids = seq![
                    ChildModel::Text("Error: img element must have src attribute"@),
                ];
                assert(kids.len() == 1);
                assert(kids[0] is Text);
                assert(count_child_elements(kids, 0) == 0);
                assert(count_child_elements(kids, 1) == 0);
            },
        }
    } else if n.elem == "svg"@ {
        match spec_find_attr(n.attributes, "path"@) {
            Some(_) => {},
            None => {
                let kids = seq![
                    ChildModel::Text("Error: svg element must have path attribute"@),
                ];
                assert(kids.len() == 1);
                assert(kids[0] is Text);
                assert(count_child_elements(kids, 0) == 0);
                assert(count_child_elements(kids, 1) == 0);
            },
        }
    }
}

/// Parsing then rendering a well-formed document — one that opens at least
/// one element — terminates and yields an element tree with at most one
/// element per element-open or self-closing event of the source.
pub proof fn lemma_parse_render_bound(evs: Seq<crate::events::EventModel>)
    requires
        crate::tree::open_count(evs) >= 1,
    ensures
        element_count(spec_render(crate::tree::spec_build(evs))) <= crate::tree::open_count(evs),
{
    crate::tree::lemma_node_count_bounded(evs);
    lemma_render_count(crate::tree::spec_build(evs));
}

/// The host's root policy: the root element must be a container; any
/// other root is replaced by an unstyled container holding a diagnostic
/// text child.
pub open spec fn spec_root_element(e: ElementModel) -> ElementModel {
    if e is Div {
        e
    } else {
        diagnostic_div("Error: root element must be a div!"@)
    }
}

/// Applies the root policy to a rendered element tree.
pub fn root_element(e: ComponentType) -> (r: ComponentType)
    ensures
        r@ == spec_root_element(e@),
{
    let ghost orig = e@;
    match e {
        ComponentType::Div(d) => ComponentType::Div(d),
        _ => {
            let mut kids: Vec<DivChild> = Vec::new();
            let msg = "Error: root element must be a div!".to_owned();
            kids.push(DivChild::Text(msg));
            let r = ComponentType::Div(Div { style: ElementStyle::new(), children: kids });
            proof {
                lemma_div_children_view(r->Div_0);
                assert(r@ is Div && spec_root_element(orig) is Div);
                assert(r@->Div_style =~= spec_root_element(orig)->Div_style);
                assert(r@->Div_children =~= spec_root_element(orig)->Div_children);
                assert(r@ =~= spec_root_element(orig));
            }
            r
        },
    }
}

/// Rendering is a pure function of the node tree: any two elements rendered
/// from the same tree are structurally identical.
pub proof fn lemma_render_deterministic(n: NodeModel, e1: ElementModel, e2: ElementModel)
    requires
        e1 == spec_render(n),
        e2 == spec_render(n),
    ensures
        e1 == e2,
{
}

/// The children of a rendered container appear in exactly the document
/// order of the source node's children, one rendered element per child,
/// followed by the node's text, if any, as a trailing literal child.
pub proof fn lemma_children_in_order(n: NodeModel)
    requires
        n.elem == "div"@,
    ensures
        spec_render(n) matches ElementModel::Div { style: st, children: kids }
            && kids.len() == n.children.len() + (match n.text {
            Some(_) => 1int,
            None => 0int,
        }) && (forall|i: int|
            0 <= i < n.children.len() ==> kids[i] == ChildModel::Element(spec_render(n.children[i]))),
{
}

/// An `img` node without a `src` attribute renders as an unstyled container
/// holding exactly one diagnostic text child — never a failure.
pub proof fn lemma_img_missing_src(n: NodeModel)
    requires
        n.elem == "img"@,
        spec_find_attr(n.attributes, "src"@) is None,
    ensures
        spec_render(n) == diagnostic_div("Error: img element must have src attribute"@),
        spec_render(n) matches ElementModel::Div { style: st, children: kids } && kids.len() == 1
            && kids[0] is Text,
{
    reveal_strlit("div");
    reveal_strlit("img");
    assert(n.elem != "div"@) by {
        assert("div"@.len() == 3);
        assert("img"@.len() == 3);
        assert("div"@[0] == 'd');
        assert("img"@[0] == 'i');
    }
}

} // verus!
