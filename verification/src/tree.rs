//! The node tree and its stack-based builder.
//!
//! The builder consumes structural events in document order.  An open event
//! pushes a fresh in-progress node; a close event pops the innermost nested
//! node and attaches it to its parent, but never pops the final frame — the
//! root is finalized at end-of-document, so a root-level close is a no-op.
//! A self-closing element attaches in place, or becomes a candidate root
//! when nothing is open.  A text run sets the text of the innermost open
//! node, last run winning.  An empty result yields a sentinel error node
//! instead of a failure.

use crate::chars::spec_lower;
use crate::chars::lower_string;
use crate::events::{events_views, EventModel, RawEvent};
use crate::style::spec_attrs_views;
use vstd::prelude::*;

verus! {

/// One parsed markup element: its (lower-cased) tag, its direct text, its
/// attributes in document order (duplicates allowed), and its children in
/// document order.
#[derive(Debug, PartialEq)]
pub struct Component {
    pub elem: String,
    pub text: Option<String>,
    pub attributes: Vec<(String, String)>,
    pub children: Vec<Component>,
}

/// The model of a node.
#[verifier::ext_equal]
pub ghost struct NodeModel {
    pub elem: Seq<char>,
    pub text: Option<Seq<char>>,
    pub attributes: Seq<(Seq<char>, Seq<char>)>,
    pub children: Seq<NodeModel>,
}

/// The model of a component, children included.
pub open spec fn node_view(c: Component) -> NodeModel
    decreases c,
{
    NodeModel {
        elem: c.elem@,
        text: match c.text {
            Some(t) => Some(t@),
            None => None,
        },
        attributes: spec_attrs_views(c.attributes@),
        children: Seq::new(
            c.children@.len(),
            |i: int|
                if 0 <= i < c.children@.len() {
                    node_view(c.children@[i])
                } else {
                    NodeModel {
                        elem: Seq::empty(),
                        text: None,
                        attributes: Seq::empty(),
                        children: Seq::empty(),
                    }
                },
        ),
    }
}

impl View for Component {
    type V = NodeModel;

    open spec fn view(&self) -> NodeModel {
        node_view(*self)
    }
}

/// The models of a stack of components.
pub open spec fn stack_views(s: Seq<Component>) -> Seq<NodeModel> {
    s.map_values(|c: Component| node_view(c))
}

/// The in-progress state of the builder: the open ancestors, innermost
/// last, and the candidate root left by a top-level self-closing element.
#[verifier::ext_equal]
pub ghost struct BuildState {
    pub stack: Seq<NodeModel>,
    pub root: Option<NodeModel>,
}

/// A fresh node for an element-open or self-closing event.
pub open spec fn spec_new_node(tag: Seq<char>, attrs: Seq<(Seq<char>, Seq<char>)>) -> NodeModel {
    NodeModel { elem: spec_lower(tag), text: None, attributes: attrs, children: Seq::empty() }
}

/// `parent` with `child` appended as its last child.
pub open spec fn spec_append_child(parent: NodeModel, child: NodeModel) -> NodeModel {
    NodeModel {
        elem: parent.elem,
        text: parent.text,
        attributes: parent.attributes,
        children: parent.children.push(child),
    }
}

/// One step of the builder.
pub open spec fn apply_event(st: BuildState, ev: EventModel) -> BuildState {
    match ev {
        EventModel::Open { tag, attributes } => BuildState {
            stack: st.stack.push(spec_new_node(tag, attributes)),
            root: st.root,
        },
        EventModel::SelfClosing { tag, attributes } => {
            let node = spec_new_node(tag, attributes);
            if st.stack.len() > 0 {
                BuildState {
                    stack: st.stack.update(
                        st.stack.len() - 1,
                        spec_append_child(st.stack.last(), node),
                    ),
                    root: st.root,
                }
            } else {
                BuildState { stack: st.stack, root: Some(node) }
            }
        },
        EventModel::Close => {
            if st.stack.len() > 1 {
                let top = st.stack.last();
                let rest = st.stack.drop_last();
                BuildState {
                    stack: rest.update(rest.len() - 1, spec_append_child(rest.last(), top)),
                    root: st.root,
                }
            } else {
                st
            }
        },
        EventModel::Text(t) => {
            if st.stack.len() > 0 {
                let top = st.stack.last();
                BuildState {
                    stack: st.stack.update(
                        st.stack.len() - 1,
                        NodeModel {
                            elem: top.elem,
                            text: Some(t),
                            attributes: top.attributes,
                            children: top.children,
                        },
                    ),
                    root: st.root,
                }
            } else {
                st
            }
        },
    }
}

/// The builder state after consuming all of `evs`, in order.
pub open spec fn run_events(evs: Seq<EventModel>) -> BuildState
    decreases evs.len(),
{
    if evs.len() == 0 {
        BuildState { stack: Seq::empty(), root: None }
    } else {
        apply_event(run_events(evs.drop_last()), evs.last())
    }
}

/// The sentinel node returned for an empty or degenerate document.
pub open spec fn sentinel_node() -> NodeModel {
    NodeModel {
        elem: "error"@,
        text: Some("error"@),
        attributes: Seq::empty(),
        children: Seq::empty(),
    }
}

/// The result at end-of-document: the innermost open node if any remains,
/// else the candidate root, else the sentinel.
pub open spec fn finish(st: BuildState) -> NodeModel {
    if st.stack.len() > 0 {
        st.stack.last()
    } else {
        match st.root {
            Some(r) => r,
            None => sentinel_node(),
        }
    }
}

/// The tree built from a complete event sequence.
pub open spec fn spec_build(evs: Seq<EventModel>) -> NodeModel {
    finish(run_events(evs))
}

fn clone_attrs(a: &Vec<(String, String)>) -> (r: Vec<(String, String)>)
    ensures
        r@ == a@,
{
    let mut r: Vec<(String, String)> = Vec::new();
    let mut i: usize = 0;
    while i < a.len()
        invariant
            0 <= i <= a@.len(),
            r@ == a@.take(i as int),
        decreases a@.len() - i,
    {
        r.push((a[i].0.clone(), a[i].1.clone()));
        i = i + 1;
        proof {
            assert(r@ =~= a@.take(i as int));
        }
    }
    proof {
        assert(a@.take(a@.len() as int) =~= a@);
    }
    r
}

fn new_component(tag: &String, attributes: &Vec<(String, String)>) -> (c: Component)
    ensures
        c@ == spec_new_node(tag@, spec_attrs_views(attributes@)),
{
    let c = Component {
        elem: lower_string(tag.as_str()),
        text: None,
        attributes: clone_attrs(attributes),
        children: Vec::new(),
    };
    proof {
        assert(c@.children =~= Seq::<NodeModel>::empty());
        assert(c@ =~= spec_new_node(tag@, spec_attrs_views(attributes@)));
    }
    c
}

/// Builds the node tree from a complete, ordered event sequence.
pub fn build_tree(events: &Vec<RawEvent>) -> (c: Component)
    ensures
        c@ == spec_build(events_views(events@)),
{
    let ghost eviews = events_views(events@);
    let n = events.len();
    let mut stack: Vec<Component> = Vec::new();
    let mut root: Option<Component> = None;
    let mut i: usize = 0;
    proof {
        assert(eviews.take(0) =~= Seq::<EventModel>::empty());
        assert(stack_views(stack@) =~= Seq::<NodeModel>::empty());
    }
    while i < n
        invariant
            0 <= i <= n,
            n == events@.len(),
            eviews == events_views(events@),
            eviews.len() == n,
            stack_views(stack@) == run_events(eviews.take(i as int)).stack,
            (match root {
                Some(r) => Some(r@),
                None => None,
            }) == run_events(eviews.take(i as int)).root,
        decreases n - i,
    {
        let ghost st = run_events(eviews.take(i as int));
        proof {
            assert(eviews.take(i as int + 1).drop_last() =~= eviews.take(i as int));
            assert(eviews.take(i as int + 1).last() == eviews[i as int]);
            assert(eviews[i as int] == events@[i as int]@);
        }
        let ev = &events[i];
        match ev {
            RawEvent::Open { tag, attributes } => {
                let c = new_component(tag, attributes);
                stack.push(c);
                proof {
                    assert(stack_views(stack@) =~= st.stack.push(c@));
                }
            },
            RawEvent::SelfClosing { tag, attributes } => {
                let c = new_component(tag, attributes);
                if stack.len() > 0 {
                    let mut top = stack.pop().unwrap();
                    let ghost topv = top@;
                    top.children.push(c);
                    proof {
                        assert(top@.children =~= topv.children.push(c@));
                        assert(top@ =~= spec_append_child(topv, c@));
                    }
                    stack.push(top);
                    proof {
                        assert(stack_views(stack@) =~= st.stack.update(
                            st.stack.len() - 1,
                            spec_append_child(st.stack.last(), c@),
                        ));
                    }
                } else {
                    root = Some(c);
                }
            },
            RawEvent::Close => {
                if stack.len() > 1 {
                    let top = stack.pop().unwrap();
                    let mut parent = stack.pop().unwrap();
                    let ghost parentv = parent@;
                    parent.children.push(top);
                    proof {
                        assert(parent@.children =~= parentv.children.push(
                            st.stack.last(),
                        ));
                        assert(parent@ =~= spec_append_child(parentv, st.stack.last()));
                    }
                    stack.push(parent);
                    proof {
                        let rest = st.stack.drop_last();
                        assert(stack_views(stack@) =~= rest.update(
                            rest.len() - 1,
                            spec_append_child(rest.last(), st.stack.last()),
                        ));
                    }
                }
            },
            RawEvent::Text(t) => {
                if stack.len() > 0 {
                    let mut top = stack.pop().unwrap();
                    let ghost topv = top@;
                    top.text = Some(t.clone());
                    proof {
                        assert(top@ =~= (NodeModel {
                            elem: topv.elem,
                            text: Some(t@),
                            attributes: topv.attributes,
                            children: topv.children,
                        }));
                    }
                    stack.push(top);
                    proof {
                        assert(stack_views(stack@) =~= st.stack.update(
                            st.stack.len() - 1,
                            NodeModel {
                                elem: st.stack.last().elem,
                                text: Some(t@),
                                attributes: st.stack.last().attributes,
                                children: st.stack.last().children,
                            },
                        ));
                    }
                }
            },
        }
        i = i + 1;
    }
    proof {
        assert(eviews.take(n as int) =~= eviews);
    }
    if stack.len() > 0 {
        let r = stack.pop().unwrap();
        proof {
            assert(r@ == run_events(eviews).stack.last());
        }
        r
    } else {
        match root {
            Some(r) => r,
            None => {
                let s = Component {
                    elem: "error".to_owned(),
                    text: Some("error".to_owned()),
                    attributes: Vec::new(),
                    children: Vec::new(),
                };
                proof {
                    assert(s@.children =~= Seq::<NodeModel>::empty());
                    assert(s@.attributes =~= Seq::<(Seq<char>, Seq<char>)>::empty());
                    assert(s@ =~= sentinel_node());
                }
                s
            },
        }
    }
}

/// The number of element-open and self-closing events in `evs`.
pub open spec fn open_count(evs: Seq<EventModel>) -> nat
    decreases evs.len(),
{
    if evs.len() == 0 {
        0
    } else {
        open_count(evs.drop_last()) + (match evs.last() {
            EventModel::Open { .. } => 1nat,
            EventModel::SelfClosing { .. } => 1nat,
            _ => 0nat,
        })
    }
}

/// The number of nodes in a tree.
pub open spec fn node_count(n: NodeModel) -> nat
    decreases n, 0int,
{
    1 + count_nodes(n.children, n.children.len() as int)
}

/// The nodes in the first `i` trees of `s`.
pub open spec fn count_nodes(s: Seq<NodeModel>, i: int) -> nat
    decreases s, i,
{
    if i <= 0 || i > s.len() {
        0
    } else {
        count_nodes(s, i - 1) + node_count(s[i - 1])
    }
}

proof fn lemma_count_nodes_agree(s1: Seq<NodeModel>, s2: Seq<NodeModel>, i: int)
    requires
        i <= s1.len(),
        i <= s2.len(),
        forall|j: int| 0 <= j < i ==> s1[j] == s2[j],
    ensures
        count_nodes(s1, i) == count_nodes(s2, i),
    decreases i,
{
    if i > 0 {
        lemma_count_nodes_agree(s1, s2, i - 1);
    }
}

proof fn lemma_append_child_count(p: NodeModel, c: NodeModel)
    ensures
        node_count(spec_append_child(p, c)) == node_count(p) + node_count(c),
{
    let q = spec_append_child(p, c);
    lemma_count_nodes_agree(q.children, p.children, p.children.len() as int);
    assert(q.children[p.children.len() as int] == c);
}

proof fn lemma_count_update_last(s: Seq<NodeModel>, x: NodeModel)
    requires
        s.len() > 0,
    ensures
        count_nodes(s.update(s.len() - 1, x), s.len() as int) + node_count(s.last())
            == count_nodes(s, s.len() as int) + node_count(x),
{
    let u = s.update(s.len() - 1, x);
    lemma_count_nodes_agree(u, s, s.len() - 1);
    assert(u[s.len() - 1] == x);
}

/// The total node count carried by a builder state.
pub open spec fn state_count(st: BuildState) -> nat {
    count_nodes(st.stack, st.stack.len() as int) + (match st.root {
        Some(r) => node_count(r),
        None => 0nat,
    })
}

proof fn lemma_run_events_count(evs: Seq<EventModel>)
    ensures
        state_count(run_events(evs)) <= open_count(evs),
        open_count(evs) >= 1 ==> (run_events(evs).stack.len() > 0 || run_events(evs).root
            is Some),
    decreases evs.len(),
{
    if evs.len() != 0 {
        lemma_run_events_count(evs.drop_last());
        let st = run_events(evs.drop_last());
        let ev = evs.last();
        match ev {
            EventModel::Open { tag, attributes } => {
                let nn = spec_new_node(tag, attributes);
                assert(node_count(nn) == 1);
                lemma_count_nodes_agree(st.stack.push(nn), st.stack, st.stack.len() as int);
                assert(st.stack.push(nn)[st.stack.len() as int] == nn);
            },
            EventModel::SelfClosing { tag, attributes } => {
                let nn = spec_new_node(tag, attributes);
                assert(node_count(nn) == 1);
                if st.stack.len() > 0 {
                    lemma_count_update_last(st.stack, spec_append_child(st.stack.last(), nn));
                    lemma_append_child_count(st.stack.last(), nn);
                }
            },
            EventModel::Close => {
                if st.stack.len() > 1 {
                    let top = st.stack.last();
                    let rest = st.stack.drop_last();
                    lemma_count_nodes_agree(st.stack, rest, rest.len() as int);
                    assert(count_nodes(st.stack, st.stack.len() as int) == count_nodes(
                        rest,
                        rest.len() as int,
                    ) + node_count(top));
                    lemma_count_update_last(rest, spec_append_child(rest.last(), top));
                    lemma_append_child_count(rest.last(), top);
                }
            },
            EventModel::Text(t) => {
                if st.stack.len() > 0 {
                    let top = st.stack.last();
                    let tn = NodeModel {
                        elem: top.elem,
                        text: Some(t),
                        attributes: top.attributes,
                        children: top.children,
                    };
                    assert(node_count(tn) == node_count(top));
                    lemma_count_update_last(st.stack, tn);
                }
            },
        }
    }
}

/// Building a well-formed document — one that opens at least one element —
/// yields a tree with at most one node per element-open or self-closing
/// event: closing events never add nodes.
pub proof fn lemma_node_count_bounded(evs: Seq<EventModel>)
    requires
        open_count(evs) >= 1,
    ensures
        node_count(spec_build(evs)) <= open_count(evs),
{
    lemma_run_events_count(evs);
    let st = run_events(evs);
    if st.stack.len() > 0 {
        assert(count_nodes(st.stack, st.stack.len() as int) == count_nodes(
            st.stack,
            st.stack.len() - 1,
        ) + node_count(st.stack.last()));
    }
}

/// A fatal structural parse failure: malformed markup or malformed bytes
/// surfaced by the event-stream reader.
#[derive(Debug, Clone, Copy, PartialEq, Eq, Structural)]
pub struct ParseError;

/// Parses a whole document into a node tree.
///
/// The reader decides how the text divides into structural events — the
/// stream named by `doc_delivers` — and the builder is exact: on success
/// the result is precisely the tree `spec_build` assigns to the
/// document's event stream.  A structural failure (malformed markup, a
/// bad entity, or an element name or attribute value that does not
/// decode) is fatal and is reported exactly when the document delivers
/// no stream; an empty document succeeds with the sentinel node.
pub fn parse_xml(xml: String) -> (res: Result<Component, ParseError>)
    ensures
        res matches Ok(c) ==> (crate::reader::doc_delivers(xml@) matches Some(evs) && c@
            == spec_build(evs)),
        res is Err ==> crate::reader::doc_delivers(xml@) is None,
{
    let n = xml.as_str().unicode_len();
    let mut reader = crate::reader::new_reader(xml.as_str());
    let ghost s = xml@;
    let ghost steps = crate::reader::doc_steps(s);
    let mut events: Vec<RawEvent> = Vec::new();
    proof {
        assert(events_views(events@) =~= crate::reader::steps_events(steps.take(0)));
    }
    loop
        invariant
            s == xml@,
            steps == crate::reader::doc_steps(s),
            reader.spec_doc() == s,
            s.len() == n,
            !reader.spec_done(),
            0 <= reader.spec_consumed() <= steps.len(),
            reader.spec_calls() <= s.len(),
            forall|i: int| 0 <= i < reader.spec_consumed() ==> crate::reader::step_ok(steps[i]),
            events_views(events@) == crate::reader::steps_events(
                steps.take(reader.spec_consumed()),
            ),
        decreases s.len() + 1 - reader.spec_calls(),
    {
        let ghost k = reader.spec_consumed();
        match crate::reader::next_event(&mut reader) {
            crate::reader::Pulled::Event(ev) => {
                let ghost pre = events@;
                events.push(ev);
                proof {
                    assert(events_views(events@) =~= events_views(pre).push(ev@));
                    assert(steps.take(k + 1) =~= steps.take(k).push(steps[k]));
                    assert(crate::reader::steps_events(steps.take(k).push(steps[k])) =~= crate::reader::steps_events(
                        steps.take(k),
                    ).push(crate::reader::step_event(steps[k])));
                }
            },
            crate::reader::Pulled::Skipped => {},
            crate::reader::Pulled::End => {
                proof {
                    assert(steps.take(steps.len() as int) =~= steps);
                    assert(crate::reader::all_steps_ok(steps));
                }
                let c = build_tree(&events);
                return Ok(c);
            },
            crate::reader::Pulled::Failed => {
                proof {
                    assert(crate::reader::doc_delivers(s) is None);
                }
                return Err(ParseError);
            },
        }
    }
}

} // verus!
