//! XML documents: the event stream of a text, the element tree built from it,
//! and the lookups that decoders are made of.
use vstd::prelude::*;
use xml::reader::XmlEvent as ReaderEvent;
use crate::client::ProtocolError;
use crate::text::{push_str, str_eq};
use crate::datetime::{parse_iso8601, parse_utc, UtcDateTime};

verus! {

/// One event of an XML text: a start tag with its local name and attributes
/// (local name, value), an end tag with its local name, character data, or
/// anything else (declaration, processing instruction, white space).
#[derive(Debug)]
pub enum XmlEvent {
    Start(String, Vec<(String, String)>),
    End(String),
    Text(String),
    Other,
}

/// The value of an event.
pub ghost enum EventView {
    Start(Seq<char>, Seq<(Seq<char>, Seq<char>)>),
    End(Seq<char>),
    Text(Seq<char>),
    Other,
}

impl View for XmlEvent {
    type V = EventView;

    open spec fn view(&self) -> EventView {
        match self {
            XmlEvent::Start(n, a) => EventView::Start(n@, a@.map_values(|p: (String, String)| (p.0@, p.1@))),
            XmlEvent::End(n) => EventView::End(n@),
            XmlEvent::Text(t) => EventView::Text(t@),
            XmlEvent::Other => EventView::Other,
        }
    }
}

/// The events that xml-rs reads from a text (white space trimmed, CDATA as
/// character data), or `None` when the text is not well-formed XML.
pub uninterp spec fn xml_events_of(text: Seq<char>) -> Option<Seq<EventView>>;

/// Relies on xml-rs's `EventReader`: every event of the text in order up to
/// the end of the document, or the parser's message for the first error.
#[verifier::external_body]
fn read_events(text: &str) -> (r: Result<Vec<XmlEvent>, String>)
    ensures
        r is Ok <==> xml_events_of(text@) is Some,
        r matches Ok(v) ==> xml_events_of(text@) == Some(v@.map_values(|e: XmlEvent| e@)),
{
    let config = xml::ParserConfig::new().trim_whitespace(true).cdata_to_characters(true);
    let events: Result<Vec<ReaderEvent>, xml::reader::Error> = config.create_reader(text.as_bytes()).into_iter().collect();
    events.map_err(|e| e.msg().to_string()).map(|v| v.into_iter().map(|e| match e {
        ReaderEvent::StartElement { name, attributes, .. } =>
            XmlEvent::Start(name.local_name, attributes.into_iter().map(|a| (a.name.local_name, a.value)).collect()),
        ReaderEvent::EndElement { name } => XmlEvent::End(name.local_name),
        ReaderEvent::Characters(t) => XmlEvent::Text(t),
        _ => XmlEvent::Other,
    }).collect())
}

/// The element tree of a document, one entry per element in document order.
/// Element 0 is the root; every other element's parent comes before it.
pub struct Document {
    names: Vec<String>,
    attributes: Vec<Vec<(String, String)>>,
    texts: Vec<String>,
    parents: Vec<usize>,
}

/// The element tree as values: per element its local name, attributes,
/// character data and parent, and the elements still open.
pub ghost struct TreeState {
    pub names: Seq<Seq<char>>,
    pub attrs: Seq<Seq<(Seq<char>, Seq<char>)>>,
    pub texts: Seq<Seq<char>>,
    pub parents: Seq<int>,
    pub open: Seq<int>,
}

impl TreeState {
    pub open spec fn len(&self) -> nat {
        self.names.len()
    }

    pub open spec fn name(&self, i: int) -> Seq<char> {
        self.names[i]
    }

    pub open spec fn text(&self, i: int) -> Seq<char> {
        self.texts[i]
    }

    pub open spec fn attrs(&self, i: int) -> Seq<(Seq<char>, Seq<char>)> {
        self.attrs[i]
    }

    pub open spec fn parent(&self, i: int) -> int {
        self.parents[i]
    }
}

/// The tree before any event.
pub open spec fn empty_tree() -> TreeState {
    TreeState { names: Seq::empty(), attrs: Seq::empty(), texts: Seq::empty(), parents: Seq::empty(), open: Seq::empty() }
}

/// What one event does to the tree: a start tag adds an element under the
/// innermost open one (a second root is refused), an end tag closes the
/// innermost open element and must carry its name, character data is
/// appended to the innermost open element; anything else changes nothing.
pub open spec fn tree_step(s: TreeState, e: EventView) -> Option<TreeState> {
    match e {
        EventView::Start(name, attrs) => {
            if s.open.len() == 0 && s.names.len() > 0 {
                None
            } else {
                let parent = if s.open.len() > 0 { s.open.last() } else { 0 };
                Some(TreeState {
                    names: s.names.push(name),
                    attrs: s.attrs.push(attrs),
                    texts: s.texts.push(Seq::empty()),
                    parents: s.parents.push(parent),
                    open: s.open.push(s.names.len() as int),
                })
            }
        },
        EventView::End(name) => {
            if s.open.len() == 0 || s.names[s.open.last()] != name {
                None
            } else {
                Some(TreeState { open: s.open.drop_last(), ..s })
            }
        },
        EventView::Text(t) => {
            if s.open.len() > 0 {
                Some(TreeState { texts: s.texts.update(s.open.last(), s.texts[s.open.last()] + t), ..s })
            } else {
                Some(s)
            }
        },
        EventView::Other => Some(s),
    }
}

/// The tree after a sequence of events, `None` once an event is refused.
pub open spec fn tree_run(events: Seq<EventView>) -> Option<TreeState>
    decreases events.len(),
{
    if events.len() == 0 {
        Some(empty_tree())
    } else {
        match tree_run(events.drop_last()) {
            Some(s) => tree_step(s, events.last()),
            None => None,
        }
    }
}

/// The tree of a whole event stream: every element closed, exactly one root.
pub open spec fn tree_of(events: Seq<EventView>) -> Option<TreeState> {
    match tree_run(events) {
        Some(s) => if s.names.len() > 0 && s.open.len() == 0 { Some(s) } else { None },
        None => None,
    }
}

proof fn lemma_run_refused_stays_refused(events: Seq<EventView>, i: int)
    requires
        0 <= i <= events.len(),
        tree_run(events.subrange(0, i)) is None,
    ensures
        tree_run(events) is None,
    decreases events.len() - i,
{
    if i < events.len() {
        assert(events.subrange(0, i + 1).drop_last() =~= events.subrange(0, i));
        lemma_run_refused_stays_refused(events, i + 1);
    } else {
        assert(events.subrange(0, i) =~= events);
    }
}

impl Document {
    /// The tree that the document holds.
    pub closed spec fn tree(&self) -> TreeState {
        TreeState {
            names: self.names@.map_values(|s: String| s@),
            attrs: self.attributes@.map_values(|a: Vec<(String, String)>| a@.map_values(|p: (String, String)| (p.0@, p.1@))),
            texts: self.texts@.map_values(|s: String| s@),
            parents: self.parents@.map_values(|p: usize| p as int),
            open: Seq::empty(),
        }
    }

    pub open spec fn len(&self) -> nat {
        self.tree().names.len()
    }

    /// The local name of an element.
    pub open spec fn name(&self, i: int) -> Seq<char> {
        self.tree().names[i]
    }

    /// The character data directly inside an element, in order.
    pub open spec fn text(&self, i: int) -> Seq<char> {
        self.tree().texts[i]
    }

    /// The attributes of an element, as (local name, value).
    pub open spec fn attrs(&self, i: int) -> Seq<(Seq<char>, Seq<char>)> {
        self.tree().attrs[i]
    }

    /// The parent of an element (the root is its own).
    pub open spec fn parent(&self, i: int) -> int {
        self.tree().parents[i]
    }

    pub closed spec fn wf(&self) -> bool {
        &&& self.names@.len() > 0
        &&& self.attributes@.len() == self.names@.len()
        &&& self.texts@.len() == self.names@.len()
        &&& self.parents@.len() == self.names@.len()
        &&& self.parents@[0] == 0
        &&& forall|i: int| 0 < i < self.names@.len() ==> #[trigger] self.parents@[i] < i
    }

    /// The root element.
    pub fn root(&self) -> (r: usize)
        requires
            self.wf(),
        ensures
            r == 0,
            (r as int) < self.len(),
    {
        0
    }

    /// The local name of element `i`.
    pub fn name_of(&self, i: usize) -> (r: &str)
        requires
            self.wf(),
            i < self.len(),
        ensures
            r@ == self.name(i as int),
    {
        self.names[i].as_str()
    }

    /// Builds the element tree of an XML text. Fails on text that is not
    /// well-formed XML, and on event streams whose tags do not nest properly or
    /// that hold no element or more than one root.
    pub fn parse(text: &str) -> (r: Result<Document, ProtocolError>)
        ensures
            r is Ok <==> (xml_events_of(text@) matches Some(ev) && tree_of(ev) is Some),
            r matches Ok(d) ==> d.wf() && (xml_events_of(text@) matches Some(ev) && tree_of(ev) == Some(d.tree())),
    {
        match read_events(text) {
            Ok(events) => Document::from_events(&events),
            Err(msg) => Err(ProtocolError::MalformedXml(msg)),
        }
    }

    /// Builds the element tree of an event stream; fails when the tags do not
    /// nest properly, or when there is no element or more than one root.
    pub fn from_events(events: &Vec<XmlEvent>) -> (r: Result<Document, ProtocolError>)
        ensures
            r is Ok <==> tree_of(events@.map_values(|e: XmlEvent| e@)) is Some,
            r matches Ok(d) ==> d.wf() && tree_of(events@.map_values(|e: XmlEvent| e@)) == Some(d.tree()),
    {
        let ghost ev = events@.map_values(|e: XmlEvent| e@);
        let mut names: Vec<String> = Vec::new();
        let mut attributes: Vec<Vec<(String, String)>> = Vec::new();
        let mut texts: Vec<String> = Vec::new();
        let mut parents: Vec<usize> = Vec::new();
        let mut open: Vec<usize> = Vec::new();
        let mut i: usize = 0;
        assert(ev.subrange(0, 0) =~= Seq::<EventView>::empty());
        assert(names@.map_values(|s: String| s@) =~= Seq::<Seq<char>>::empty());
        assert(attributes@.map_values(|a: Vec<(String, String)>| a@.map_values(|p: (String, String)| (p.0@, p.1@))) =~= Seq::<Seq<(Seq<char>, Seq<char>)>>::empty());
        assert(texts@.map_values(|s: String| s@) =~= Seq::<Seq<char>>::empty());
        assert(parents@.map_values(|p: usize| p as int) =~= Seq::<int>::empty());
        assert(open@.map_values(|p: usize| p as int) =~= Seq::<int>::empty());
        while i < events.len()
            invariant
                i <= events@.len(),
                ev == events@.map_values(|e: XmlEvent| e@),
                attributes@.len() == names@.len(),
                texts@.len() == names@.len(),
                parents@.len() == names@.len(),
                names@.len() > 0 ==> parents@[0] == 0,
                forall|k: int| 0 < k < names@.len() ==> #[trigger] parents@[k] < k,
                forall|k: int| 0 <= k < open@.len() ==> #[trigger] open@[k] < names@.len(),
                names@.len() == 0 ==> open@.len() == 0,
                tree_run(ev.subrange(0, i as int)) == Some(TreeState {
                    names: names@.map_values(|s: String| s@),
                    attrs: attributes@.map_values(|a: Vec<(String, String)>| a@.map_values(|p: (String, String)| (p.0@, p.1@))),
                    texts: texts@.map_values(|s: String| s@),
                    parents: parents@.map_values(|p: usize| p as int),
                    open: open@.map_values(|p: usize| p as int),
                }),
            decreases events.len() - i,
        {
            let ghost before = TreeState {
                names: names@.map_values(|s: String| s@),
                attrs: attributes@.map_values(|a: Vec<(String, String)>| a@.map_values(|p: (String, String)| (p.0@, p.1@))),
                texts: texts@.map_values(|s: String| s@),
                parents: parents@.map_values(|p: usize| p as int),
                open: open@.map_values(|p: usize| p as int),
            };
            proof {
                assert(ev.subrange(0, i + 1).drop_last() =~= ev.subrange(0, i as int));
                assert(ev.subrange(0, i + 1).last() == ev[i as int]);
            }
            match &events[i] {
                XmlEvent::Start(name, attrs) => {
                    let idx = names.len();
                    let parent: usize = if open.len() > 0 {
                        open[open.len() - 1]
                    } else if idx == 0 {
                        0
                    } else {
                        proof {
                            lemma_run_refused_stays_refused(ev, i + 1);
                        }
                        return Err(ProtocolError::UnexpectedElement(name.clone()));
                    };
                    let mut own: Vec<(String, String)> = Vec::new();
                    let mut k: usize = 0;
                    while k < attrs.len()
                        invariant
                            k <= attrs@.len(),
                            own@.len() == k,
                            forall|j: int| 0 <= j < k ==> (#[trigger] own@[j]).0@ == attrs@[j].0@ && own@[j].1@ == attrs@[j].1@,
                        decreases attrs.len() - k,
                    {
                        own.push((attrs[k].0.clone(), attrs[k].1.clone()));
                        k = k + 1;
                    }
                    assert(own@.map_values(|p: (String, String)| (p.0@, p.1@)) =~= attrs@.map_values(|p: (String, String)| (p.0@, p.1@)));
                    names.push(name.clone());
                    attributes.push(own);
                    texts.push(String::new());
                    parents.push(parent);
                    open.push(idx);
                    proof {
                        let after = tree_step(before, ev[i as int])->0;
                        assert(names@.map_values(|s: String| s@) =~= after.names);
                        assert(attributes@.map_values(|a: Vec<(String, String)>| a@.map_values(|p: (String, String)| (p.0@, p.1@))) =~= after.attrs);
                        assert(texts@.map_values(|s: String| s@) =~= after.texts);
                        assert(parents@.map_values(|p: usize| p as int) =~= after.parents);
                        assert(open@.map_values(|p: usize| p as int) =~= after.open);
                    }
                },
                XmlEvent::End(name) => {
                    if open.len() == 0 {
                        proof {
                            lemma_run_refused_stays_refused(ev, i + 1);
                        }
                        return Err(ProtocolError::UnexpectedElement(name.clone()));
                    }
                    let top = open[open.len() - 1];
                    if !str_eq(names[top].as_str(), name.as_str()) {
                        proof {
                            lemma_run_refused_stays_refused(ev, i + 1);
                        }
                        return Err(ProtocolError::UnexpectedElement(name.clone()));
                    }
                    open.pop();
                    proof {
                        let after = tree_step(before, ev[i as int])->0;
                        assert(open@.map_values(|p: usize| p as int) =~= after.open);
                    }
                },
                XmlEvent::Text(t) => {
                    if open.len() > 0 {
                        let top = open[open.len() - 1];
                        let mut s = texts[top].clone();
                        push_str(&mut s, t.as_str());
                        texts.set(top, s);
                        proof {
                            let after = tree_step(before, ev[i as int])->0;
                            assert(texts@.map_values(|s: String| s@) =~= after.texts);
                        }
                    }
                },
                XmlEvent::Other => {},
            }
            i = i + 1;
        }
        assert(ev.subrange(0, i as int) =~= ev);
        if names.len() == 0 || open.len() > 0 {
            return Err(ProtocolError::MalformedXml("unclosed or missing root element".to_owned()));
        }
        let d = Document { names, attributes, texts, parents };
        assert(d.tree().open =~= open@.map_values(|p: usize| p as int));
        Ok(d)
    }
}

/// Whether element `i` is a child of element `n`.
pub open spec fn is_child_of(d: TreeState, n: int, i: int) -> bool {
    0 < i < d.len() && d.parent(i) == n
}

/// The last child of `n` among the elements before `hi` whose local name is
/// `tag`.
pub open spec fn last_child_before(d: TreeState, n: int, tag: Seq<char>, hi: int) -> Option<int>
    decreases hi,
{
    if hi <= 1 {
        None
    } else if is_child_of(d, n, hi - 1) && d.name(hi - 1) == tag {
        Some(hi - 1)
    } else {
        last_child_before(d, n, tag, hi - 1)
    }
}

/// The children of `n` among the elements before `hi`, in document order,
/// those named `tag` only when a tag is given.
pub open spec fn children_before(d: TreeState, n: int, tag: Option<Seq<char>>, hi: int) -> Seq<int>
    decreases hi,
{
    if hi <= 1 {
        Seq::empty()
    } else {
        let rest = children_before(d, n, tag, hi - 1);
        if is_child_of(d, n, hi - 1) && (tag matches Some(t) ==> d.name(hi - 1) == t) {
            rest.push(hi - 1)
        } else {
            rest
        }
    }
}

/// The last child named `tag` of the element `n`, if both exist. A field read
/// from a child takes the last occurrence: each one replaces the one before.
pub open spec fn child_named(d: TreeState, n: Option<int>, tag: Seq<char>) -> Option<int> {
    match n {
        Some(p) => last_child_before(d, p, tag, d.len() as int),
        None => None,
    }
}

/// The children of element `n` named `tag`, in document order (none when `n`
/// is absent): the items of a list field without a wrapping element.
pub open spec fn named_children(d: TreeState, n: Option<int>, tag: Seq<char>) -> Seq<int> {
    match n {
        Some(p) => children_before(d, p, Some(tag), d.len() as int),
        None => Seq::empty(),
    }
}

/// All children of element `n`, in document order (none when `n` is absent).
pub open spec fn all_children(d: TreeState, n: Option<int>) -> Seq<int> {
    match n {
        Some(p) => children_before(d, p, None, d.len() as int),
        None => Seq::empty(),
    }
}

/// The items of a list field `tag` whose items are wrapped in a parent
/// element: all children of the last `tag` child.
pub open spec fn wrapped_children(d: TreeState, n: Option<int>, tag: Seq<char>) -> Seq<int> {
    all_children(d, child_named(d, n, tag))
}

/// The character data of an element; empty when the element is absent.
pub open spec fn text_at(d: TreeState, n: Option<int>) -> Seq<char> {
    match n {
        Some(i) => d.text(i),
        None => Seq::empty(),
    }
}

/// The text of the child `tag`; empty when there is none.
pub open spec fn child_text(d: TreeState, n: Option<int>, tag: Seq<char>) -> Seq<char> {
    text_at(d, child_named(d, n, tag))
}

/// The text of the child `tag`, if there is one.
pub open spec fn opt_child_text(d: TreeState, n: Option<int>, tag: Seq<char>) -> Option<Seq<char>> {
    match child_named(d, n, tag) {
        Some(c) => Some(d.text(c)),
        None => None,
    }
}

/// The value of the last attribute named `name` in `attrs`.
pub open spec fn attr_in(attrs: Seq<(Seq<char>, Seq<char>)>, name: Seq<char>) -> Option<Seq<char>>
    decreases attrs.len(),
{
    if attrs.len() == 0 {
        None
    } else if attrs.last().0 == name {
        Some(attrs.last().1)
    } else {
        attr_in(attrs.drop_last(), name)
    }
}

/// The attribute `name` of element `n`, if both exist.
pub open spec fn attr_of(d: TreeState, n: Option<int>, name: Seq<char>) -> Option<Seq<char>> {
    match n {
        Some(i) => attr_in(d.attrs(i), name),
        None => None,
    }
}

/// The attribute `name` of element `n`; empty when absent.
pub open spec fn attr_text(d: TreeState, n: Option<int>, name: Seq<char>) -> Seq<char> {
    match attr_of(d, n, name) {
        Some(v) => v,
        None => Seq::empty(),
    }
}

/// Whether an element reference points into the document.
pub open spec fn valid_ref(d: &Document, n: Option<usize>) -> bool {
    n matches Some(i) ==> (i as int) < d.len()
}

/// The value of an element reference.
pub open spec fn ref_view(n: Option<usize>) -> Option<int> {
    match n {
        Some(i) => Some(i as int),
        None => None,
    }
}

/// The value of a list of element positions.
pub open spec fn positions(v: Seq<usize>) -> Seq<int> {
    v.map_values(|i: usize| i as int)
}

/// The value of the decimal digits of `s`.
pub open spec fn digits_value(s: Seq<char>) -> int
    decreases s.len(),
{
    if s.len() == 0 {
        0
    } else {
        digits_value(s.drop_last()) * 10 + (s.last() as int - '0' as int)
    }
}

/// Whether `s` is one or more decimal digits.
pub open spec fn all_digits(s: Seq<char>) -> bool {
    s.len() > 0 && forall|i: int| 0 <= i < s.len() ==> '0' <= #[trigger] s[i] <= '9'
}

/// The integer that `s` writes: an optional `+` or `-`, then decimal digits.
pub open spec fn parse_int(s: Seq<char>) -> Option<int> {
    if s.len() > 0 && s[0] == '-' && all_digits(s.drop_first()) {
        Some(-digits_value(s.drop_first()))
    } else if s.len() > 0 && s[0] == '+' && all_digits(s.drop_first()) {
        Some(digits_value(s.drop_first()))
    } else if all_digits(s) {
        Some(digits_value(s))
    } else {
        None
    }
}

/// The 32-bit integer that `s` writes, as `i32::from_str` reads it.
pub open spec fn parse_i32(s: Seq<char>) -> Option<int> {
    match parse_int(s) {
        Some(v) => if i32::MIN <= v <= i32::MAX { Some(v) } else { None },
        None => None,
    }
}

/// The boolean that `s` writes: `true` or `false`.
pub open spec fn parse_bool(s: Seq<char>) -> Option<bool> {
    if s == "true"@ {
        Some(true)
    } else if s == "false"@ {
        Some(false)
    } else {
        None
    }
}

/// An integer field read from the child `tag`: 0 when the child is absent,
/// `None` when its text is not a 32-bit integer.
pub open spec fn i32_field(d: TreeState, n: Option<int>, tag: Seq<char>) -> Option<int> {
    match child_named(d, n, tag) {
        Some(c) => parse_i32(d.text(c)),
        None => Some(0),
    }
}

/// An optional integer field read from the child `tag`: `Some(None)` when the
/// child is absent, `None` when its text is not a 32-bit integer.
pub open spec fn opt_i32_field(d: TreeState, n: Option<int>, tag: Seq<char>) -> Option<Option<int>> {
    match child_named(d, n, tag) {
        Some(c) => match parse_i32(d.text(c)) {
            Some(v) => Some(Some(v)),
            None => None,
        },
        None => Some(None),
    }
}

/// An integer read from the element's own text: 0 when the element is absent.
pub open spec fn i32_content(d: TreeState, n: Option<int>) -> Option<int> {
    match n {
        Some(i) => parse_i32(d.text(i)),
        None => Some(0),
    }
}

/// A boolean field read from the child `tag`: false when the child is absent,
/// `None` when its text is neither `true` nor `false`.
pub open spec fn bool_field(d: TreeState, n: Option<int>, tag: Seq<char>) -> Option<bool> {
    match child_named(d, n, tag) {
        Some(c) => parse_bool(d.text(c)),
        None => Some(false),
    }
}

/// An optional boolean field read from the child `tag`.
pub open spec fn opt_bool_field(d: TreeState, n: Option<int>, tag: Seq<char>) -> Option<Option<bool>> {
    match child_named(d, n, tag) {
        Some(c) => match parse_bool(d.text(c)) {
            Some(v) => Some(Some(v)),
            None => None,
        },
        None => Some(None),
    }
}

/// An optional integer field read from the attribute `name`.
pub open spec fn opt_i32_attr(d: TreeState, n: Option<int>, name: Seq<char>) -> Option<Option<int>> {
    match attr_of(d, n, name) {
        Some(t) => match parse_i32(t) {
            Some(v) => Some(Some(v)),
            None => None,
        },
        None => Some(None),
    }
}

/// An optional date field read from the child `tag`: `Some(None)` when the
/// child is absent, `None` when its text is not an ISO-8601 UTC instant.
pub open spec fn opt_date_field(d: TreeState, n: Option<int>, tag: Seq<char>) -> Option<Option<UtcDateTime>> {
    match child_named(d, n, tag) {
        Some(c) => match parse_utc(d.text(c)) {
            Some(v) => Some(Some(v)),
            None => None,
        },
        None => Some(None),
    }
}

/// An optional date field read from the attribute `name`.
pub open spec fn opt_date_attr(d: TreeState, n: Option<int>, name: Seq<char>) -> Option<Option<UtcDateTime>> {
    match attr_of(d, n, name) {
        Some(t) => match parse_utc(t) {
            Some(v) => Some(Some(v)),
            None => None,
        },
        None => Some(None),
    }
}

/// The value of an optional string.
pub open spec fn opt_str(o: Option<String>) -> Option<Seq<char>> {
    match o {
        Some(s) => Some(s@),
        None => None,
    }
}

/// The value of an optional integer.
pub open spec fn opt_int(o: Option<i32>) -> Option<int> {
    match o {
        Some(v) => Some(v as int),
        None => None,
    }
}

proof fn lemma_digits_value_nonneg(s: Seq<char>)
    requires
        forall|i: int| 0 <= i < s.len() ==> '0' <= #[trigger] s[i] <= '9',
    ensures
        digits_value(s) >= 0,
    decreases s.len(),
{
    if s.len() > 0 {
        lemma_digits_value_nonneg(s.drop_last());
    }
}

/// Reads the value of the decimal digits of `cs[start..]`, saturated at 2^32;
/// `None` when there is no digit or a character is not a digit.
fn read_digits(cs: &Vec<char>, start: usize) -> (r: Option<u64>)
    requires
        start <= cs@.len(),
    ensures
        ({
            let s = cs@.skip(start as int);
            &&& r is Some <==> all_digits(s)
            &&& r matches Some(v) ==> (if digits_value(s) < 4294967296 { v == digits_value(s) } else { v == 4294967296 })
        }),
{
    let ghost s = cs@.skip(start as int);
    if start >= cs.len() {
        return None;
    }
    let mut acc: u64 = 0;
    let mut i: usize = start;
    while i < cs.len()
        invariant
            start <= i <= cs@.len(),
            s == cs@.skip(start as int),
            forall|k: int| start <= k < i ==> '0' <= #[trigger] cs@[k] <= '9',
            ({
                let p = cs@.subrange(start as int, i as int);
                if digits_value(p) < 4294967296 { acc == digits_value(p) } else { acc == 4294967296 }
            }),
        decreases cs.len() - i,
    {
        let c = cs[i];
        if !('0' <= c && c <= '9') {
            assert(s[i - start] == c);
            return None;
        }
        let d = (c as u32 - '0' as u32) as u64;
        proof {
            let p = cs@.subrange(start as int, i as int);
            let q = cs@.subrange(start as int, i + 1);
            assert(q.drop_last() =~= p);
            assert(q.last() == c);
            assert forall|k: int| 0 <= k < p.len() implies '0' <= #[trigger] p[k] <= '9' by {
                assert(p[k] == cs@[start + k]);
            }
            lemma_digits_value_nonneg(p);
            assert(digits_value(q) == digits_value(p) * 10 + d);
            if digits_value(p) >= 4294967296 {
                assert(digits_value(p) * 10 >= 4294967296) by (nonlinear_arith)
                    requires digits_value(p) >= 4294967296;
            }
        }
        if acc >= 4294967296 {
            acc = 4294967296;
        } else {
            let next = acc * 10 + d;
            acc = if next >= 4294967296 { 4294967296 } else { next };
        }
        i = i + 1;
    }
    assert(cs@.subrange(start as int, i as int) =~= s);
    assert forall|k: int| 0 <= k < s.len() implies '0' <= #[trigger] s[k] <= '9' by {
        assert(s[k] == cs@[start + k]);
    }
    Some(acc)
}

/// The 32-bit integer that `s` writes, if it writes one.
pub fn parse_i32_text(s: &str) -> (r: Option<i32>)
    ensures
        opt_int(r) == parse_i32(s@),
{
    let cs = crate::text::chars_of(s);
    if cs.len() > 0 && (cs[0] == '-' || cs[0] == '+') {
        let neg = cs[0] == '-';
        assert(cs@.skip(1) =~= s@.drop_first());
        match read_digits(&cs, 1) {
            Some(v) => {
                if neg {
                    if v <= 2147483648 {
                        Some((0 - (v as i64)) as i32)
                    } else {
                        None
                    }
                } else if v <= 2147483647 {
                    Some(v as i32)
                } else {
                    None
                }
            },
            None => {
                assert(!all_digits(s@)) by {
                    if all_digits(s@) {
                        assert('0' <= s@[0] <= '9');
                    }
                }
                None
            },
        }
    } else {
        assert(cs@.skip(0) =~= s@);
        match read_digits(&cs, 0) {
            Some(v) => if v <= 2147483647 { Some(v as i32) } else { None },
            None => None,
        }
    }
}

/// The boolean that `s` writes, if it is `true` or `false`.
pub fn parse_bool_text(s: &str) -> (r: Option<bool>)
    ensures
        r == parse_bool(s@),
{
    if str_eq(s, "true") {
        Some(true)
    } else if str_eq(s, "false") {
        Some(false)
    } else {
        None
    }
}

impl Document {
    /// The last child named `tag` of element `n`.
    pub fn child(&self, n: Option<usize>, tag: &str) -> (r: Option<usize>)
        requires
            self.wf(),
            valid_ref(self, n),
        ensures
            valid_ref(self, r),
            ref_view(r) == child_named(self.tree(), ref_view(n), tag@),
    {
        match n {
            None => None,
            Some(p) => {
                let mut i: usize = self.names.len();
                while i > 1
                    invariant
                        self.wf(),
                        n == Some(p),
                        i <= self.len(),
                        last_child_before(self.tree(), p as int, tag@, self.len() as int) == last_child_before(self.tree(), p as int, tag@, i as int),
                    decreases i,
                {
                    if self.parents[i - 1] == p && str_eq(self.names[i - 1].as_str(), tag) {
                        assert(is_child_of(self.tree(), p as int, i - 1));
                        assert(self.name(i - 1) == tag@);
                        assert(last_child_before(self.tree(), p as int, tag@, i as int) == Some(i - 1));
                        return Some(i - 1);
                    }
                    i = i - 1;
                }
                None
            },
        }
    }

    fn children_where(&self, p: usize, tag: Option<&str>) -> (r: Vec<usize>)
        requires
            self.wf(),
        ensures
            positions(r@) == children_before(self.tree(), p as int, match tag { Some(t) => Some(t@), None => None }, self.len() as int),
            forall|k: int| 0 <= k < r@.len() ==> (#[trigger] r@[k] as int) < self.len(),
    {
        let ghost t = match tag { Some(t) => Some(t@), None => None };
        let mut r: Vec<usize> = Vec::new();
        let mut i: usize = 1;
        assert(positions(r@) =~= children_before(self.tree(), p as int, t, 1));
        while i < self.names.len()
            invariant
                self.wf(),
                1 <= i <= self.len(),
                t == match tag { Some(t) => Some(t@), None => None::<Seq<char>> },
                positions(r@) == children_before(self.tree(), p as int, t, i as int),
                forall|k: int| 0 <= k < r@.len() ==> (#[trigger] r@[k] as int) < i,
            decreases self.len() - i,
        {
            let hit = self.parents[i] == p && match tag {
                Some(name) => str_eq(self.names[i].as_str(), name),
                None => true,
            };
            if hit {
                r.push(i);
            }
            i = i + 1;
            assert(positions(r@) =~= children_before(self.tree(), p as int, t, i as int));
        }
        r
    }

    /// The children named `tag` of element `n`, in document order.
    pub fn children_named(&self, n: Option<usize>, tag: &str) -> (r: Vec<usize>)
        requires
            self.wf(),
            valid_ref(self, n),
        ensures
            positions(r@) == named_children(self.tree(), ref_view(n), tag@),
            forall|k: int| 0 <= k < r@.len() ==> (#[trigger] r@[k] as int) < self.len(),
    {
        match n {
            Some(p) => self.children_where(p, Some(tag)),
            None => Vec::new(),
        }
    }

    /// All children of the last child `tag` of element `n`, in document order.
    pub fn wrapped_children(&self, n: Option<usize>, tag: &str) -> (r: Vec<usize>)
        requires
            self.wf(),
            valid_ref(self, n),
        ensures
            positions(r@) == wrapped_children(self.tree(), ref_view(n), tag@),
            forall|k: int| 0 <= k < r@.len() ==> (#[trigger] r@[k] as int) < self.len(),
    {
        match self.child(n, tag) {
            Some(w) => self.children_where(w, None),
            None => Vec::new(),
        }
    }

    /// The character data of element `n`; empty when it is absent.
    pub fn text_of(&self, n: Option<usize>) -> (r: String)
        requires
            self.wf(),
            valid_ref(self, n),
        ensures
            r@ == text_at(self.tree(), ref_view(n)),
    {
        match n {
            Some(i) => self.texts[i].clone(),
            None => String::new(),
        }
    }

    /// The text of the child `tag` of element `n`; empty when there is none.
    pub fn child_text(&self, n: Option<usize>, tag: &str) -> (r: String)
        requires
            self.wf(),
            valid_ref(self, n),
        ensures
            r@ == child_text(self.tree(), ref_view(n), tag@),
    {
        let c = self.child(n, tag);
        self.text_of(c)
    }

    /// The text of the child `tag` of element `n`, if there is one.
    pub fn opt_child_text(&self, n: Option<usize>, tag: &str) -> (r: Option<String>)
        requires
            self.wf(),
            valid_ref(self, n),
        ensures
            opt_str(r) == opt_child_text(self.tree(), ref_view(n), tag@),
    {
        match self.child(n, tag) {
            Some(c) => Some(self.texts[c].clone()),
            None => None,
        }
    }

    /// The texts of the children named `tag` of element `n`, in order.
    pub fn child_texts(&self, n: Option<usize>, tag: &str) -> (r: Vec<String>)
        requires
            self.wf(),
            valid_ref(self, n),
        ensures
            r@.len() == named_children(self.tree(), ref_view(n), tag@).len(),
            forall|k: int| 0 <= k < r@.len() ==> (#[trigger] r@[k])@ == self.text(named_children(self.tree(), ref_view(n), tag@)[k]),
    {
        let cs = self.children_named(n, tag);
        let mut r: Vec<String> = Vec::new();
        let mut k: usize = 0;
        while k < cs.len()
            invariant
                self.wf(),
                positions(cs@) == named_children(self.tree(), ref_view(n), tag@),
                forall|j: int| 0 <= j < cs@.len() ==> (#[trigger] cs@[j] as int) < self.len(),
                k <= cs@.len(),
                r@.len() == k,
                forall|j: int| 0 <= j < k ==> (#[trigger] r@[j])@ == self.text(cs@[j] as int),
            decreases cs.len() - k,
        {
            r.push(self.texts[cs[k]].clone());
            k = k + 1;
        }
        r
    }

    /// The attribute `name` of element `n`, if both exist.
    pub fn attr(&self, n: Option<usize>, name: &str) -> (r: Option<String>)
        requires
            self.wf(),
            valid_ref(self, n),
        ensures
            opt_str(r) == attr_of(self.tree(), ref_view(n), name@),
    {
        match n {
            None => None,
            Some(i) => {
                let attrs = &self.attributes[i];
                let ghost a = self.attrs(i as int);
                let mut k: usize = attrs.len();
                assert(a.subrange(0, k as int) =~= a);
                while k > 0
                    invariant
                        k <= attrs@.len(),
                        a == attrs@.map_values(|p: (String, String)| (p.0@, p.1@)),
                        a == self.attrs(i as int),
                        n == Some(i),
                        attr_in(a, name@) == attr_in(a.subrange(0, k as int), name@),
                    decreases k,
                {
                    let ghost sub = a.subrange(0, k as int);
                    assert(sub.drop_last() =~= a.subrange(0, k - 1));
                    if str_eq(attrs[k - 1].0.as_str(), name) {
                        assert(sub.last() == (attrs@[k - 1].0@, attrs@[k - 1].1@));
                        return Some(attrs[k - 1].1.clone());
                    }
                    k = k - 1;
                }
                None
            },
        }
    }

    /// The attribute `name` of element `n`; empty when absent.
    pub fn attr_text(&self, n: Option<usize>, name: &str) -> (r: String)
        requires
            self.wf(),
            valid_ref(self, n),
        ensures
            r@ == attr_text(self.tree(), ref_view(n), name@),
    {
        match self.attr(n, name) {
            Some(v) => v,
            None => String::new(),
        }
    }

    /// An integer field read from the child `tag`.
    pub fn child_i32(&self, n: Option<usize>, tag: &str) -> (r: Result<i32, ProtocolError>)
        requires
            self.wf(),
            valid_ref(self, n),
        ensures
            r is Ok <==> i32_field(self.tree(), ref_view(n), tag@) is Some,
            r matches Ok(v) ==> i32_field(self.tree(), ref_view(n), tag@) == Some(v as int),
    {
        match self.child(n, tag) {
            Some(c) => match parse_i32_text(self.texts[c].as_str()) {
                Some(v) => Ok(v),
                None => Err(ProtocolError::InvalidValue(tag.to_owned())),
            },
            None => Ok(0),
        }
    }

    /// An optional integer field read from the child `tag`.
    pub fn opt_child_i32(&self, n: Option<usize>, tag: &str) -> (r: Result<Option<i32>, ProtocolError>)
        requires
            self.wf(),
            valid_ref(self, n),
        ensures
            r is Ok <==> opt_i32_field(self.tree(), ref_view(n), tag@) is Some,
            r matches Ok(v) ==> opt_i32_field(self.tree(), ref_view(n), tag@) == Some(opt_int(v)),
    {
        match self.child(n, tag) {
            Some(c) => match parse_i32_text(self.texts[c].as_str()) {
                Some(v) => Ok(Some(v)),
                None => Err(ProtocolError::InvalidValue(tag.to_owned())),
            },
            None => Ok(None),
        }
    }

    /// An integer read from the text of element `n` itself.
    pub fn content_i32(&self, n: Option<usize>) -> (r: Result<i32, ProtocolError>)
        requires
            self.wf(),
            valid_ref(self, n),
        ensures
            r is Ok <==> i32_content(self.tree(), ref_view(n)) is Some,
            r matches Ok(v) ==> i32_content(self.tree(), ref_view(n)) == Some(v as int),
    {
        match n {
            Some(i) => match parse_i32_text(self.texts[i].as_str()) {
                Some(v) => Ok(v),
                None => Err(ProtocolError::InvalidValue(self.names[i].clone())),
            },
            None => Ok(0),
        }
    }

    /// A boolean field read from the child `tag`.
    pub fn child_bool(&self, n: Option<usize>, tag: &str) -> (r: Result<bool, ProtocolError>)
        requires
            self.wf(),
            valid_ref(self, n),
        ensures
            r is Ok <==> bool_field(self.tree(), ref_view(n), tag@) is Some,
            r matches Ok(v) ==> bool_field(self.tree(), ref_view(n), tag@) == Some(v),
    {
        match self.child(n, tag) {
            Some(c) => match parse_bool_text(self.texts[c].as_str()) {
                Some(v) => Ok(v),
                None => Err(ProtocolError::InvalidValue(tag.to_owned())),
            },
            None => Ok(false),
        }
    }

    /// An optional boolean field read from the child `tag`.
    pub fn opt_child_bool(&self, n: Option<usize>, tag: &str) -> (r: Result<Option<bool>, ProtocolError>)
        requires
            self.wf(),
            valid_ref(self, n),
        ensures
            r is Ok <==> opt_bool_field(self.tree(), ref_view(n), tag@) is Some,
            r matches Ok(v) ==> opt_bool_field(self.tree(), ref_view(n), tag@) == Some(v),
    {
        match self.child(n, tag) {
            Some(c) => match parse_bool_text(self.texts[c].as_str()) {
                Some(v) => Ok(Some(v)),
                None => Err(ProtocolError::InvalidValue(tag.to_owned())),
            },
            None => Ok(None),
        }
    }

    /// An optional date field read from the child `tag`.
    pub fn opt_child_date(&self, n: Option<usize>, tag: &str) -> (r: Result<Option<UtcDateTime>, ProtocolError>)
        requires
            self.wf(),
            valid_ref(self, n),
        ensures
            r is Ok <==> opt_date_field(self.tree(), ref_view(n), tag@) is Some,
            r matches Ok(v) ==> opt_date_field(self.tree(), ref_view(n), tag@) == Some(v),
    {
        match self.child(n, tag) {
            Some(c) => match parse_iso8601(self.texts[c].as_str()) {
                Some(v) => Ok(Some(v)),
                None => Err(ProtocolError::InvalidValue(tag.to_owned())),
            },
            None => Ok(None),
        }
    }

    /// An optional date field read from the attribute `name`.
    pub fn opt_attr_date(&self, n: Option<usize>, name: &str) -> (r: Result<Option<UtcDateTime>, ProtocolError>)
        requires
            self.wf(),
            valid_ref(self, n),
        ensures
            r is Ok <==> opt_date_attr(self.tree(), ref_view(n), name@) is Some,
            r matches Ok(v) ==> opt_date_attr(self.tree(), ref_view(n), name@) == Some(v),
    {
        match self.attr(n, name) {
            Some(t) => match parse_iso8601(t.as_str()) {
                Some(v) => Ok(Some(v)),
                None => Err(ProtocolError::InvalidValue(name.to_owned())),
            },
            None => Ok(None),
        }
    }

    /// An optional integer field read from the attribute `name`.
    pub fn opt_attr_i32(&self, n: Option<usize>, name: &str) -> (r: Result<Option<i32>, ProtocolError>)
        requires
            self.wf(),
            valid_ref(self, n),
        ensures
            r is Ok <==> opt_i32_attr(self.tree(), ref_view(n), name@) is Some,
            r matches Ok(v) ==> opt_i32_attr(self.tree(), ref_view(n), name@) == Some(opt_int(v)),
    {
        match self.attr(n, name) {
            Some(t) => match parse_i32_text(t.as_str()) {
                Some(v) => Ok(Some(v)),
                None => Err(ProtocolError::InvalidValue(name.to_owned())),
            },
            None => Ok(None),
        }
    }
}

} // verus!
