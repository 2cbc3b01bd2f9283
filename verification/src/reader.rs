//! The event-stream reader.
//!
//! A thin boundary around quick_xml's streaming reader.  The reader is
//! configured to trim text runs and to check end-element names, so that
//! mismatched nesting surfaces as a structural failure.  The reader parses
//! an owned in-memory copy of the document, so everything it delivers is a
//! function of the document text alone; the names `doc_steps` and `doc_ok`
//! stand for that delivery, and each trusted call is specified against
//! them through a ghost cursor.  Element headers are held pending so that
//! their name and attributes can be pulled one piece at a time and
//! assembled by verified code.

use crate::events::{EventModel, RawEvent};
use quick_xml::events::Event;
use vstd::prelude::*;

verus! {

#[verifier::external_type_specification]
#[verifier::external_body]
#[verifier::reject_recursive_types(R)]
pub struct ExReader<R>(quick_xml::reader::Reader<R>);

#[verifier::external_type_specification]
#[verifier::external_body]
#[verifier::reject_recursive_types(T)]
pub struct ExCursor<T>(std::io::Cursor<T>);

#[verifier::external_type_specification]
#[verifier::external_body]
pub struct ExBytesStart<'a>(quick_xml::events::BytesStart<'a>);

/// The model of one attribute as the reader reports it: a decoded
/// name/value pair; one the attribute iterator rejects (a repeated name,
/// for instance), which downstream becomes a diagnostic `error` pair; or
/// one whose name or value does not decode, a structural failure.
#[verifier::ext_equal]
pub ghost enum AttrModel {
    Pair(Seq<char>, Seq<char>),
    ErrPair,
    Bad,
}

/// The model of a pending element header: its name, when the name bytes
/// are valid UTF-8, and its attributes in document order.
#[verifier::ext_equal]
pub ghost struct HeaderModel {
    pub tag: Option<Seq<char>>,
    pub attrs: Seq<AttrModel>,
}

/// The model of one delivered reader step.
#[verifier::ext_equal]
pub ghost enum StepModel {
    Open(HeaderModel),
    SelfClosing(HeaderModel),
    Close,
    Text(Seq<char>),
}

/// The structural steps the reader delivers for a document, in order, up
/// to end-of-document or the first reader failure.
pub uninterp spec fn doc_steps(s: Seq<char>) -> Seq<StepModel>;

/// Whether, after the last delivered step, the reader reaches
/// end-of-document cleanly rather than reporting malformed markup or a
/// bad entity.
pub uninterp spec fn doc_ok(s: Seq<char>) -> bool;

/// The header carried by an element step, if it is one.
pub open spec fn step_header(st: StepModel) -> Option<HeaderModel> {
    match st {
        StepModel::Open(h) => Some(h),
        StepModel::SelfClosing(h) => Some(h),
        _ => None,
    }
}

/// A step all of whose parts decode: a deliverable event.
pub open spec fn step_ok(st: StepModel) -> bool {
    match step_header(st) {
        Some(h) => h.tag is Some && (forall|i: int|
            0 <= i < h.attrs.len() ==> !(h.attrs[i] is Bad)),
        None => true,
    }
}

/// The attribute pairs of a header, in order; a rejected attribute
/// becomes the diagnostic `error` pair.
pub open spec fn attrs_pairs(attrs: Seq<AttrModel>) -> Seq<(Seq<char>, Seq<char>)>
    decreases attrs.len(),
{
    if attrs.len() == 0 {
        Seq::empty()
    } else {
        attrs_pairs(attrs.drop_last()).push(
            match attrs.last() {
                AttrModel::Pair(k, v) => (k, v),
                _ => ("error"@, "error"@),
            },
        )
    }
}

/// The element name of a header; meaningful only for a deliverable step.
pub open spec fn header_tag(h: HeaderModel) -> Seq<char> {
    match h.tag {
        Some(t) => t,
        None => Seq::empty(),
    }
}

/// The event a deliverable step denotes.
pub open spec fn step_event(st: StepModel) -> EventModel {
    match st {
        StepModel::Open(h) => EventModel::Open {
            tag: header_tag(h),
            attributes: attrs_pairs(h.attrs),
        },
        StepModel::SelfClosing(h) => EventModel::SelfClosing {
            tag: header_tag(h),
            attributes: attrs_pairs(h.attrs),
        },
        StepModel::Close => EventModel::Close,
        StepModel::Text(t) => EventModel::Text(t),
    }
}

/// The events of a step sequence.
pub open spec fn steps_events(steps: Seq<StepModel>) -> Seq<EventModel> {
    steps.map_values(|st: StepModel| step_event(st))
}

/// Every step of the sequence decodes.
pub open spec fn all_steps_ok(steps: Seq<StepModel>) -> bool {
    forall|i: int| 0 <= i < steps.len() ==> step_ok(steps[i])
}

/// The complete event stream of a document: the events of its steps when
/// the reader reaches end-of-document cleanly and every step decodes,
/// and nothing otherwise.
pub open spec fn doc_delivers(s: Seq<char>) -> Option<Seq<EventModel>> {
    if doc_ok(s) && all_steps_ok(doc_steps(s)) {
        Some(steps_events(doc_steps(s)))
    } else {
        None
    }
}

/// An element step's attribute count is strictly below the document
/// length: every attribute spans at least one character of the element's
/// markup, which also holds its name and brackets.
pub open spec fn step_attrs_bounded(st: StepModel, s: Seq<char>) -> bool {
    match step_header(st) {
        Some(h) => h.attrs.len() < s.len(),
        None => true,
    }
}

/// The streaming reader over an owned copy of the document, its event
/// buffer, the pending element header between an element step and the
/// pulls that follow it, and the ghost cursor tying each call to the
/// named step stream.
pub struct XmlReader {
    inner: quick_xml::reader::Reader<std::io::Cursor<Vec<u8>>>,
    buf: Vec<u8>,
    pending: Option<quick_xml::events::BytesStart<'static>>,
    attr_idx: usize,
    doc: Ghost<Seq<char>>,
    consumed: Ghost<int>,
    calls: Ghost<int>,
    done: Ghost<bool>,
    pending_step: Ghost<Option<StepModel>>,
}

impl XmlReader {
    /// The document this reader was built over.
    pub closed spec fn spec_doc(&self) -> Seq<char> {
        self.doc@
    }

    /// How many steps of the stream have been delivered.
    pub closed spec fn spec_consumed(&self) -> int {
        self.consumed@
    }

    /// How many times the reader has been stepped.
    pub closed spec fn spec_calls(&self) -> int {
        self.calls@
    }

    /// The stream has ended (end-of-document or failure was returned).
    pub closed spec fn spec_done(&self) -> bool {
        self.done@
    }

    /// The header of the element step just delivered, while its name and
    /// attributes are being pulled.
    pub closed spec fn spec_pending(&self) -> Option<StepModel> {
        self.pending_step@
    }
}

/// One coarse step of the reader; element headers stay pending.
enum ReadStep {
    Open,
    SelfClosing,
    Close,
    Text(String),
    Skip,
    Eof,
    Fail,
}

/// One attribute pull from the pending element header.
enum AttrPull {
    Pair(String, String),
    ErrPair,
    Bad,
    Done,
}

/// One pull from the reader, as the tree builder consumes it.
pub enum Pulled {
    Event(RawEvent),
    Skipped,
    End,
    Failed,
}

/// Relies on `Reader::from_reader`, `Reader::trim_text` and
/// `Reader::check_end_names`: a streaming reader over an owned copy of the
/// document, trimming text runs and checking end-element names.
#[verifier::external_body]
fn new_raw_reader(xml: &str) -> quick_xml::reader::Reader<std::io::Cursor<Vec<u8>>> {
    let mut r = quick_xml::reader::Reader::from_reader(
        std::io::Cursor::new(xml.as_bytes().to_vec()),
    );
    r.trim_text(true).check_end_names(true);
    r
}

/// Relies on `Reader::read_event_into`: pulls and classifies the next
/// event of the stream the names describe.  An element header is stashed
/// for the pulls that follow; a text run is unescaped; trimmed-empty text
/// is never emitted and every delivered or skipped item spans at least
/// one character of input, which grounds the progress clause; a reader
/// error (malformed markup, bad entity) is the end of the stream.
#[verifier::external_body]
fn read_step(r: &mut XmlReader) -> (step: ReadStep)
    ensures
        final(r).spec_doc() == old(r).spec_doc(),
        final(r).spec_calls() == old(r).spec_calls() + 1,
        final(r).attr_idx == 0,
        final(r).spec_done() == (old(r).spec_done() || step is Eof || step is Fail),
        !old(r).spec_done() ==> ({
            let s = old(r).spec_doc();
            let steps = doc_steps(s);
            let k = old(r).spec_consumed();
            &&& (step is Skip ==> final(r).spec_consumed() == k)
            &&& (step is Open ==> 0 <= k < steps.len() && steps[k] is Open && final(r).spec_pending() == Some(steps[k]) && step_attrs_bounded(steps[k], s) && final(r).spec_consumed() == k + 1)
            &&& (step is SelfClosing ==> 0 <= k < steps.len() && steps[k] is SelfClosing
                && final(r).spec_pending() == Some(steps[k]) && step_attrs_bounded(steps[k], s)
                && final(r).spec_consumed() == k + 1)
            &&& (step is Close ==> 0 <= k < steps.len() && steps[k] is Close && final(r).spec_consumed() == k + 1)
            &&& (step matches ReadStep::Text(t) ==> 0 <= k < steps.len() && steps[k]
                == StepModel::Text(t@) && final(r).spec_consumed() == k + 1)
            &&& (step is Eof ==> doc_ok(s) && k == steps.len() && final(r).spec_consumed() == k)
            &&& (step is Fail ==> !doc_ok(s) && k == steps.len() && final(r).spec_consumed()
                == k)
            &&& (old(r).spec_calls() >= s.len() ==> (step is Eof || step is Fail))
        }),
{
    r.buf.clear();
    r.pending = None;
    r.attr_idx = 0;
    match r.inner.read_event_into(&mut r.buf) {
        Ok(Event::Start(e)) => { r.pending = Some(e.into_owned()); ReadStep::Open },
        Ok(Event::Empty(e)) => { r.pending = Some(e.into_owned()); ReadStep::SelfClosing },
        Ok(Event::End(_)) => ReadStep::Close,
        Ok(Event::Text(t)) => match t.unescape() {
            Ok(s) => ReadStep::Text(s.into_owned()),
            Err(_) => ReadStep::Fail,
        },
        Ok(Event::Eof) => ReadStep::Eof,
        Ok(_) => ReadStep::Skip,
        Err(_) => ReadStep::Fail,
    }
}

/// Relies on `BytesStart::local_name`: the pending element's unqualified
/// name as UTF-8 — the name the pending step's model carries; `None`
/// exactly when the name bytes are not valid UTF-8.
#[verifier::external_body]
fn pending_tag(r: &XmlReader) -> (res: Option<String>)
    ensures
        r.spec_pending() matches Some(st) ==> (step_header(st) matches Some(h) ==> ((res
            is Some) == (h.tag is Some)) && (res matches Some(t) ==> Some(t@) == h.tag)),
{
    match &r.pending {
        Some(e) => String::from_utf8(e.local_name().as_ref().to_vec()).ok(),
        None => None,
    }
}

/// Relies on `BytesStart::html_attributes`, `QName::local_name` and
/// `Attribute::decode_and_unescape_value`: the next attribute of the
/// pending element header, as the pending step's model lists them — a
/// decoded pair, an iterator-rejected one (a repeated attribute name is
/// reported this way, not yielded as a pair), one that does not decode,
/// or the end of the list.
#[verifier::external_body]
fn next_attr(r: &mut XmlReader) -> (res: AttrPull)
    requires
        old(r).attr_idx < usize::MAX,
    ensures
        final(r).spec_doc() == old(r).spec_doc(),
        final(r).spec_consumed() == old(r).spec_consumed(),
        final(r).spec_calls() == old(r).spec_calls(),
        final(r).spec_done() == old(r).spec_done(),
        final(r).spec_pending() == old(r).spec_pending(),
        final(r).attr_idx == old(r).attr_idx + 1,
        old(r).spec_pending() matches Some(st) ==> (step_header(st) matches Some(h) ==> ({
            let j = old(r).attr_idx as int;
            &&& (j < h.attrs.len() ==> match h.attrs[j] {
                AttrModel::Pair(k, v) => res matches AttrPull::Pair(ks, vs) && ks@ == k && vs@
                    == v,
                AttrModel::ErrPair => res is ErrPair,
                AttrModel::Bad => res is Bad,
            })
            &&& (j >= h.attrs.len() ==> res is Done)
        })),
{
    let j = r.attr_idx;
    r.attr_idx = j + 1;
    let e = match &r.pending { Some(e) => e, None => return AttrPull::Done };
    match e.html_attributes().nth(j) {
        None => AttrPull::Done,
        Some(Err(_)) => AttrPull::ErrPair,
        Some(Ok(a)) => match (
            String::from_utf8(a.key.local_name().as_ref().to_vec()),
            a.decode_and_unescape_value(&r.inner),
        ) {
            (Ok(k), Ok(v)) => AttrPull::Pair(k, v.into_owned()),
            _ => AttrPull::Bad,
        },
    }
}

/// A fresh reader over a document.
pub fn new_reader(xml: &str) -> (r: XmlReader)
    ensures
        r.spec_doc() == xml@,
        r.spec_consumed() == 0,
        r.spec_calls() == 0,
        !r.spec_done(),
{
    XmlReader {
        inner: new_raw_reader(xml),
        buf: Vec::new(),
        pending: Option::None,
        attr_idx: 0,
        doc: Ghost(xml@),
        consumed: Ghost(0int),
        calls: Ghost(0int),
        done: Ghost(false),
        pending_step: Ghost(Option::None),
    }
}

/// Assembles the event for the element step just delivered: its name,
/// then its attributes one by one, in document order.  An undecodable
/// name or value is a structural failure.
fn assemble_element(r: &mut XmlReader, is_open: bool) -> (p: Pulled)
    requires
        old(r).spec_doc().len() <= usize::MAX,
        old(r).attr_idx == 0,
        old(r).spec_pending() matches Some(st) && step_header(st) is Some && (st is Open
            <==> is_open) && step_attrs_bounded(st, old(r).spec_doc()) && (st is Open || st
            is SelfClosing),
    ensures
        final(r).spec_doc() == old(r).spec_doc(),
        final(r).spec_consumed() == old(r).spec_consumed(),
        final(r).spec_calls() == old(r).spec_calls(),
        final(r).spec_done() == old(r).spec_done(),
        old(r).spec_pending() matches Some(st) ==> ({
            &&& (p matches Pulled::Event(ev) ==> step_ok(st) && ev@ == step_event(st))
            &&& (p is Failed ==> !step_ok(st))
            &&& (p matches Pulled::Event(ev) || p is Failed)
        }),
{
    let ghost st = old(r).spec_pending()->Some_0;
    let ghost h = step_header(st)->Some_0;
    let tag = match pending_tag(r) {
        Some(t) => t,
        None => {
            return Pulled::Failed;
        },
    };
    let mut attributes: Vec<(String, String)> = Vec::new();
    proof {
        assert(h.attrs.take(0) =~= Seq::<AttrModel>::empty());
    }
    loop
        invariant_except_break
            0 <= r.attr_idx <= h.attrs.len(),
            forall|i: int| 0 <= i < r.attr_idx ==> !(h.attrs[i] is Bad),
            crate::style::spec_attrs_views(attributes@) == attrs_pairs(
                h.attrs.take(r.attr_idx as int),
            ),
        invariant
            r.spec_doc() == old(r).spec_doc(),
            r.spec_consumed() == old(r).spec_consumed(),
            r.spec_calls() == old(r).spec_calls(),
            r.spec_done() == old(r).spec_done(),
            r.spec_pending() == old(r).spec_pending(),
            old(r).spec_pending() == Some(st),
            step_header(st) == Some(h),
            h.tag matches Some(t) && tag@ == t,
            h.attrs.len() < old(r).spec_doc().len() <= usize::MAX,
        ensures
            forall|i: int| 0 <= i < h.attrs.len() ==> !(h.attrs[i] is Bad),
            crate::style::spec_attrs_views(attributes@) == attrs_pairs(h.attrs),
        decreases h.attrs.len() - r.attr_idx,
    {
        let ghost j = r.attr_idx as int;
        match next_attr(r) {
            AttrPull::Pair(k, v) => {
                let ghost pre = attributes@;
                attributes.push((k, v));
                proof {
                    assert(h.attrs.take(j + 1).drop_last() =~= h.attrs.take(j));
                    assert(crate::style::spec_attrs_views(attributes@) =~= crate::style::spec_attrs_views(
                        pre,
                    ).push((k@, v@)));
                }
            },
            AttrPull::ErrPair => {
                let ghost pre = attributes@;
                attributes.push(("error".to_owned(), "error".to_owned()));
                proof {
                    assert(h.attrs.take(j + 1).drop_last() =~= h.attrs.take(j));
                    assert(crate::style::spec_attrs_views(attributes@) =~= crate::style::spec_attrs_views(
                        pre,
                    ).push(("error"@, "error"@)));
                }
            },
            AttrPull::Bad => {
                return Pulled::Failed;
            },
            AttrPull::Done => {
                proof {
                    assert(j >= h.attrs.len());
                    assert(h.attrs.take(h.attrs.len() as int) =~= h.attrs);
                }
                break;
            },
        }
    }
    let ev = if is_open {
        RawEvent::Open { tag, attributes }
    } else {
        RawEvent::SelfClosing { tag, attributes }
    };
    proof {
        assert(ev@ =~= step_event(st));
    }
    Pulled::Event(ev)
}

/// Pulls one structural event from the reader: the next entry of the
/// named step stream, a skipped non-structural item, the end of the
/// document, or a failure.
pub fn next_event(r: &mut XmlReader) -> (p: Pulled)
    requires
        old(r).spec_doc().len() <= usize::MAX,
        !old(r).spec_done(),
    ensures
        final(r).spec_doc() == old(r).spec_doc(),
        final(r).spec_calls() == old(r).spec_calls() + 1,
        ({
            let s = old(r).spec_doc();
            let steps = doc_steps(s);
            let k = old(r).spec_consumed();
            &&& (p matches Pulled::Event(ev) ==> 0 <= k < steps.len() && step_ok(steps[k])
                && ev@ == step_event(steps[k]) && final(r).spec_consumed() == k + 1 && !final(r).spec_done())
            &&& (p is Skipped ==> final(r).spec_consumed() == k && !final(r).spec_done())
            &&& (p is End ==> doc_ok(s) && k == steps.len())
            &&& (p is Failed ==> ((!doc_ok(s) && k == steps.len()) || (0 <= k < steps.len()
                && !step_ok(steps[k]))))
            &&& ((p matches Pulled::Event(ev) || p is Skipped) ==> old(r).spec_calls()
                < s.len())
        }),
{
    match read_step(r) {
        ReadStep::Open => assemble_element(r, true),
        ReadStep::SelfClosing => assemble_element(r, false),
        ReadStep::Close => Pulled::Event(RawEvent::Close),
        ReadStep::Text(t) => Pulled::Event(RawEvent::Text(t)),
        ReadStep::Skip => Pulled::Skipped,
        ReadStep::Eof => Pulled::End,
        ReadStep::Fail => Pulled::Failed,
    }
}

} // verus!
