//! Structured representation of UI elements and windows.
use vstd::prelude::*;
use crate::text::{self, utf8_len, is_ws, signed_decimal, starts_with};
use vstd::utf8::{decode_utf8, encode_utf8, valid_utf8};
use quick_xml::events::{BytesDecl, BytesEnd, BytesStart, BytesText, Event};

verus! {

/// A structured representation of a UI element
#[derive(Debug)]
pub struct UIElement {
    /// The role or type of the element (button, text field, etc.)
    pub element_type: String,
    /// An identifier for the element, if available
    pub identifier: Option<String>,
    /// The title or label of the element
    pub title: Option<String>,
    /// The description of the element
    pub description: Option<String>,
    /// The current value of the element, if applicable
    pub value: Option<String>,
    /// The position of the element (x, y)
    pub position: Option<(i32, i32)>,
    /// The size of the element (width, height)
    pub size: Option<(i32, i32)>,
    /// Whether the element is enabled
    pub enabled: Option<bool>,
    /// Whether the element is focused
    pub focused: Option<bool>,
    /// Whether the element is selected
    pub selected: Option<bool>,
    /// Child elements
    pub children: Vec<UIElement>,
    /// Additional attributes, by name; names are distinct
    pub attributes: Vec<(String, String)>,
}

impl UIElement {
    /// Create a new UI element with the given type and nothing else
    pub fn new(element_type: &str) -> (r: Self)
        ensures
            r.element_type@ == element_type@,
            r.identifier is None,
            r.title is None,
            r.description is None,
            r.value is None,
            r.position is None,
            r.size is None,
            r.enabled is None,
            r.focused is None,
            r.selected is None,
            r.children@.len() == 0,
            r.attributes@.len() == 0,
    {
        UIElement {
            element_type: text::chars_to_string(&text::str_chars(element_type)),
            identifier: None,
            title: None,
            description: None,
            value: None,
            position: None,
            size: None,
            enabled: None,
            focused: None,
            selected: None,
            children: Vec::new(),
            attributes: Vec::new(),
        }
    }
}

/// A structured representation of a window
#[derive(Debug)]
pub struct UIWindow {
    /// The application name
    pub app_name: String,
    /// The window title
    pub window_title: String,
    /// The window position (x, y)
    pub position: (i32, i32),
    /// The window size (width, height)
    pub size: (i32, i32),
    /// The window's UI element tree
    pub ui_tree: Option<UIElement>,
}

// ---------------------------------------------------------------------------
// XML events, written by quick_xml
// ---------------------------------------------------------------------------

/// A piece of an XML document, as it is handed to the XML writer.
pub enum XmlEvent {
    /// The declaration: version 1.0, in UTF-8
    Declaration,
    /// An opening tag with its attributes, in order
    Start { name: String, attributes: Vec<(String, String)> },
    /// Text, which the writer escapes
    Text(String),
    /// A closing tag
    End(String),
}

/// An XML event, with texts taken by their characters.
pub enum XmlEventView {
    Declaration,
    Start(Seq<char>, Seq<(Seq<char>, Seq<char>)>),
    Text(Seq<char>),
    End(Seq<char>),
}

/// Pairs of strings taken by their characters.
pub open spec fn pair_views(s: Seq<(String, String)>) -> Seq<(Seq<char>, Seq<char>)> {
    s.map_values(|p: (String, String)| (p.0@, p.1@))
}

impl View for XmlEvent {
    type V = XmlEventView;

    open spec fn view(&self) -> XmlEventView {
        match self {
            XmlEvent::Declaration => XmlEventView::Declaration,
            XmlEvent::Start { name, attributes } => XmlEventView::Start(name@, pair_views(attributes@)),
            XmlEvent::Text(t) => XmlEventView::Text(t@),
            XmlEvent::End(n) => XmlEventView::End(n@),
        }
    }
}

/// Events taken by their views.
pub open spec fn event_views(s: Seq<XmlEvent>) -> Seq<XmlEventView> {
    s.map_values(|e: XmlEvent| e@)
}

/// An opening tag without attributes.
pub open spec fn bare_start(name: Seq<char>) -> XmlEventView {
    XmlEventView::Start(name, Seq::empty())
}

/// The events of an element `tag` holding the text `v`, where there is one.
pub open spec fn text_field_events(tag: Seq<char>, v: Option<String>) -> Seq<XmlEventView> {
    match v {
        Some(t) => seq![bare_start(tag), XmlEventView::Text(t@), XmlEventView::End(tag)],
        None => Seq::empty(),
    }
}

/// The text of a boolean (`bool::to_string`).
pub open spec fn bool_text(b: bool) -> Seq<char> {
    if b {
        "true"@
    } else {
        "false"@
    }
}

/// The attribute `name` with the boolean `v`, where there is one.
pub open spec fn bool_attr(name: Seq<char>, v: Option<bool>) -> Seq<(Seq<char>, Seq<char>)> {
    match v {
        Some(b) => seq![(name, bool_text(b))],
        None => Seq::empty(),
    }
}

/// The attributes of the tag of an element: its type, identifier,
/// position, size and states, those it has, in this order.
pub open spec fn element_attrs(e: UIElement) -> Seq<(Seq<char>, Seq<char>)> {
    seq![("type"@, e.element_type@)] + match e.identifier {
        Some(id) => seq![("id"@, id@)],
        None => Seq::empty(),
    } + pair_attrs("x"@, "y"@, e.position) + pair_attrs("width"@, "height"@, e.size) + bool_attr("enabled"@, e.enabled) + bool_attr("focused"@, e.focused) + bool_attr(
        "selected"@,
        e.selected,
    )
}

/// The events of the additional attributes `s`: an `attribute` element for
/// each, named by the attribute's name and holding its value.
pub open spec fn attribute_events(s: Seq<(String, String)>) -> Seq<XmlEventView>
    decreases s.len(),
{
    if s.len() == 0 {
        Seq::empty()
    } else {
        attribute_events(s.drop_last()) + seq![
            XmlEventView::Start("attribute"@, seq![("name"@, s.last().0@)]),
            XmlEventView::Text(s.last().1@),
            XmlEventView::End("attribute"@),
        ]
    }
}

/// The events of an element and its descendants.
pub open spec fn element_events(e: UIElement) -> Seq<XmlEventView>
    decreases e,
{
    seq![XmlEventView::Start("UIElement"@, element_attrs(e))] + text_field_events("title"@, e.title)
        + text_field_events("description"@, e.description) + text_field_events("value"@, e.value)
        + attribute_events(e.attributes@) + children_events(e.children@) + seq![
        XmlEventView::End("UIElement"@),
    ]
}

/// The events of the elements `cs`, in order.
pub open spec fn children_events(cs: Seq<UIElement>) -> Seq<XmlEventView>
    decreases cs,
{
    if cs.len() == 0 {
        Seq::empty()
    } else {
        children_events(cs.drop_last()) + element_events(cs.last())
    }
}

/// `s` as a string.
fn owned(s: &str) -> (r: String)
    ensures
        r@ == s@,
{
    text::chars_to_string(&text::str_chars(s))
}

/// An opening tag without attributes.
fn start_tag(name: &str) -> (r: XmlEvent)
    ensures
        r@ == bare_start(name@),
{
    let attributes: Vec<(String, String)> = Vec::new();
    assert(pair_views(attributes@) =~= Seq::empty());
    XmlEvent::Start { name: owned(name), attributes }
}

/// Appends the attribute `name` with the text `v`.
fn push_attr(attrs: &mut Vec<(String, String)>, name: &str, v: String)
    ensures
        pair_views(final(attrs)@) == pair_views(old(attrs)@).push((name@, v@)),
{
    let ghost before = attrs@;
    attrs.push((owned(name), v));
    assert(pair_views(attrs@) =~= pair_views(before).push((name@, v@)));
}

/// The text of a boolean.
fn bool_string(b: bool) -> (r: String)
    ensures
        r@ == bool_text(b),
{
    if b {
        owned("true")
    } else {
        owned("false")
    }
}

/// The text of a 32-bit integer.
fn i32_string(n: i32) -> (r: String)
    ensures
        r@ == signed_decimal(n as int),
{
    text::chars_to_string(&text::signed_decimal_chars(n as i64))
}

/// The attributes `n1` and `n2` with the numbers of `p`, where there is one.
pub open spec fn pair_attrs(n1: Seq<char>, n2: Seq<char>, p: Option<(i32, i32)>) -> Seq<
    (Seq<char>, Seq<char>),
> {
    match p {
        Some((x, y)) => seq![(n1, signed_decimal(x as int)), (n2, signed_decimal(y as int))],
        None => Seq::empty(),
    }
}

/// Appends the attributes `n1` and `n2` with the numbers of `p`, where
/// there is one.
fn push_pair(attrs: &mut Vec<(String, String)>, n1: &str, n2: &str, p: Option<(i32, i32)>)
    ensures
        pair_views(final(attrs)@) == pair_views(old(attrs)@) + pair_attrs(n1@, n2@, p),
{
    let ghost before = pair_views(attrs@);
    if let Some((x, y)) = p {
        push_attr(attrs, n1, i32_string(x));
        push_attr(attrs, n2, i32_string(y));
    }
    assert(pair_views(attrs@) =~= before + pair_attrs(n1@, n2@, p));
}

/// Appends the attribute `name` with the boolean `v`, where there is one.
fn push_bool(attrs: &mut Vec<(String, String)>, name: &str, v: Option<bool>)
    ensures
        pair_views(final(attrs)@) == pair_views(old(attrs)@) + bool_attr(name@, v),
{
    let ghost before = pair_views(attrs@);
    if let Some(b) = v {
        push_attr(attrs, name, bool_string(b));
    }
    assert(pair_views(attrs@) =~= before + bool_attr(name@, v));
}

/// Appends the events of an element `tag` holding the text `v`, where
/// there is one.
fn push_text_field(out: &mut Vec<XmlEvent>, tag: &str, v: &Option<String>)
    ensures
        event_views(final(out)@) == event_views(old(out)@) + text_field_events(tag@, *v),
{
    let ghost before = event_views(out@);
    if let Some(t) = v {
        out.push(start_tag(tag));
        out.push(XmlEvent::Text(t.clone()));
        out.push(XmlEvent::End(owned(tag)));
    }
    assert(event_views(out@) =~= before + text_field_events(tag@, *v));
}

impl UIElement {
    /// The attributes of this element's tag.
    fn tag_attributes(&self) -> (r: Vec<(String, String)>)
        ensures
            pair_views(r@) == element_attrs(*self),
    {
        let mut a: Vec<(String, String)> = Vec::new();
        assert(pair_views(a@) =~= Seq::empty());
        push_attr(&mut a, "type", self.element_type.clone());
        let ghost g0 = pair_views(a@);
        if let Some(id) = &self.identifier {
            push_attr(&mut a, "id", id.clone());
        }
        let ghost g1 = pair_views(a@);
        assert(g1 =~= g0 + match self.identifier {
            Some(id) => seq![("id"@, id@)],
            None => Seq::empty(),
        });
        push_pair(&mut a, "x", "y", self.position);
        push_pair(&mut a, "width", "height", self.size);
        push_bool(&mut a, "enabled", self.enabled);
        push_bool(&mut a, "focused", self.focused);
        push_bool(&mut a, "selected", self.selected);
        assert(pair_views(a@) =~= element_attrs(*self));
        a
    }

    /// Appends the events of this element and its descendants.
    pub fn push_xml_events(&self, out: &mut Vec<XmlEvent>)
        ensures
            event_views(final(out)@) == event_views(old(out)@) + element_events(*self),
        decreases self,
    {
        let ghost start = event_views(out@);
        let ghost o0 = out@;
        let first = XmlEvent::Start { name: owned("UIElement"), attributes: self.tag_attributes() };
        out.push(first);
        assert(event_views(out@) =~= start.push(first@));
        push_text_field(out, "title", &self.title);
        push_text_field(out, "description", &self.description);
        push_text_field(out, "value", &self.value);
        let ghost mid = event_views(out@);
        let mut i: usize = 0;
        assert(self.attributes@.take(0) =~= Seq::<(String, String)>::empty());
        while i < self.attributes.len()
            invariant
                i <= self.attributes.len(),
                event_views(out@) == mid + attribute_events(self.attributes@.take(i as int)),
            decreases self.attributes.len() - i,
        {
            let ghost before = event_views(out@);
            assert(self.attributes@.take(i as int + 1).drop_last() =~= self.attributes@.take(i as int));
            let mut a: Vec<(String, String)> = Vec::new();
            push_attr(&mut a, "name", self.attributes[i].0.clone());
            assert(pair_views(a@) =~= seq![("name"@, self.attributes@[i as int].0@)]);
            let e1 = XmlEvent::Start { name: owned("attribute"), attributes: a };
            let e2 = XmlEvent::Text(self.attributes[i].1.clone());
            let e3 = XmlEvent::End(owned("attribute"));
            let ghost evs = seq![e1@, e2@, e3@];
            assert(evs =~= seq![
                XmlEventView::Start("attribute"@, seq![("name"@, self.attributes@[i as int].0@)]),
                XmlEventView::Text(self.attributes@[i as int].1@),
                XmlEventView::End("attribute"@),
            ]);
            let ghost o0 = out@;
            out.push(e1);
            out.push(e2);
            out.push(e3);
            assert(out@ =~= o0 + seq![e1, e2, e3]);
            assert(event_views(out@) =~= event_views(o0) + evs);
            assert(event_views(out@) =~= mid + attribute_events(self.attributes@.take(i as int + 1)));
            i = i + 1;
        }
        assert(self.attributes@.take(self.attributes.len() as int) =~= self.attributes@);
        let ghost mid2 = event_views(out@);
        let mut j: usize = 0;
        assert(self.children@.take(0) =~= Seq::<UIElement>::empty());
        while j < self.children.len()
            invariant
                j <= self.children.len(),
                event_views(out@) == mid2 + children_events(self.children@.take(j as int)),
            decreases self.children.len() - j,
        {
            assert(self.children@.take(j as int + 1).drop_last() =~= self.children@.take(j as int));
            assert(self.children@.take(j as int + 1).last() == self.children@[j as int]);
            self.children[j].push_xml_events(out);
            j = j + 1;
        }
        assert(self.children@.take(self.children.len() as int) =~= self.children@);
        let ghost o2 = out@;
        let last = XmlEvent::End(owned("UIElement"));
        out.push(last);
        assert(event_views(out@) =~= event_views(o2).push(last@));
        assert(event_views(out@) =~= start + element_events(*self));
    }
}

#[verifier::external_type_specification]
#[verifier::external_body]
#[verifier::reject_recursive_types(W)]
pub struct ExXmlWriter<W>(quick_xml::Writer<W>);

/// The bytes that a `quick_xml` writer over a byte vector has written.
pub uninterp spec fn xml_written(w: quick_xml::Writer<Vec<u8>>) -> Seq<u8>;

/// The bytes that `quick_xml::Writer::write_event` writes for an event: the
/// tag with its attributes, or the text, escaped.
pub uninterp spec fn xml_event_bytes(ev: XmlEventView) -> Seq<u8>;

/// The message of `String::from_utf8`'s error on `bytes`.
pub uninterp spec fn utf8_error_text(bytes: Seq<u8>) -> Seq<char>;

/// `quick_xml::Writer::new(Vec::new())`: a writer that has written nothing.
#[verifier::external_body]
fn new_xml_writer() -> (w: quick_xml::Writer<Vec<u8>>)
    ensures
        xml_written(w) == Seq::<u8>::empty(),
{
    quick_xml::Writer::new(Vec::new())
}

/// `quick_xml::Writer::write_event` on the event `ev`, which is built with
/// `BytesDecl::new("1.0", Some("UTF-8"), None)`, `BytesStart::new` and
/// `with_attributes`, `BytesText::new` or `BytesEnd::new`. Where the write
/// succeeds, the event's bytes follow what was written; the error, where
/// there is one, is handed back by its message, and nothing is said of
/// what a failed write left.
#[verifier::external_body]
fn write_xml_event(w: &mut quick_xml::Writer<Vec<u8>>, ev: &XmlEvent) -> (r: Result<(), String>)
    ensures
        r is Ok ==> xml_written(*final(w)) == xml_written(*old(w)) + xml_event_bytes(ev@),
{
    let e = match ev {
        XmlEvent::Declaration => Event::Decl(BytesDecl::new("1.0", Some("UTF-8"), None)),
        XmlEvent::Start { name, attributes } => Event::Start(
            BytesStart::new(name.as_str()).with_attributes(
                attributes.iter().map(|(k, v)| (k.as_str(), v.as_str())),
            ),
        ),
        XmlEvent::Text(t) => Event::Text(BytesText::new(t.as_str())),
        XmlEvent::End(n) => Event::End(BytesEnd::new(n.as_str())),
    };
    w.write_event(e).map_err(|e| e.to_string())
}

/// `quick_xml::Writer::into_inner`: the bytes the writer has written.
#[verifier::external_body]
fn xml_writer_bytes(w: quick_xml::Writer<Vec<u8>>) -> (r: Vec<u8>)
    ensures
        r@ == xml_written(w),
{
    w.into_inner()
}

/// The text a result holds, whichever side it is on.
pub open spec fn either_text(r: Result<String, String>) -> Seq<char> {
    match r {
        Ok(s) => s@,
        Err(e) => e@,
    }
}

/// `String::from_utf8(bytes)`: the text, where `bytes` are valid UTF-8; the
/// message of the error, named by `utf8_error_text`, where they are not.
#[verifier::external_body]
fn string_from_utf8(bytes: Vec<u8>) -> (r: Result<String, String>)
    ensures
        r is Ok <==> valid_utf8(bytes@),
        r is Ok ==> encode_utf8(either_text(r)) == bytes@,
        r is Err ==> either_text(r) == utf8_error_text(bytes@),
{
    String::from_utf8(bytes).map_err(|e| e.to_string())
}

/// The bytes written for the events `evs`, in order.
pub open spec fn events_bytes(evs: Seq<XmlEventView>) -> Seq<u8>
    decreases evs.len(),
{
    if evs.len() == 0 {
        Seq::empty()
    } else {
        events_bytes(evs.drop_last()) + xml_event_bytes(evs.last())
    }
}

/// The errors that writing events can end in: a write error, or bytes that
/// are not UTF-8.
pub open spec fn xml_error(bytes: Seq<u8>, m: Seq<char>) -> bool {
    starts_with(m, "XML write error: "@) || (!valid_utf8(bytes) && m == "XML encoding error: "@
        + utf8_error_text(bytes))
}

/// The text that the events hold, as the XML writer writes them.
pub fn write_events(events: &Vec<XmlEvent>) -> (r: Result<String, String>)
    ensures
        r matches Ok(s) ==> valid_utf8(events_bytes(event_views(events@))) && s@ == decode_utf8(
            events_bytes(event_views(events@)),
        ),
        r matches Err(m) ==> xml_error(events_bytes(event_views(events@)), m@),
{
    broadcast use vstd::utf8::encode_utf8_decode_utf8;

    let ghost evs = event_views(events@);
    let mut w = new_xml_writer();
    let mut i: usize = 0;
    assert(evs.take(0) =~= Seq::<XmlEventView>::empty());
    while i < events.len()
        invariant
            i <= events.len(),
            evs == event_views(events@),
            xml_written(w) == events_bytes(evs.take(i as int)),
        decreases events.len() - i,
    {
        assert(evs.take(i as int + 1).drop_last() =~= evs.take(i as int));
        assert(evs.take(i as int + 1).last() == events@[i as int]@);
        match write_xml_event(&mut w, &events[i]) {
            Ok(()) => {},
            Err(e) => {
                let mut m = text::str_chars("XML write error: ");
                text::append_str(&mut m, e.as_str());
                proof {
                    reveal_strlit("XML write error: ");
                    assert(m@.take(17) =~= "XML write error: "@);
                }
                return Err(text::chars_to_string(&m));
            },
        }
        i = i + 1;
    }
    assert(evs.take(events.len() as int) =~= evs);
    let bytes = xml_writer_bytes(w);
    match string_from_utf8(bytes) {
        Ok(s) => Ok(s),
        Err(e) => {
            let mut m = text::str_chars("XML encoding error: ");
            text::append_str(&mut m, e.as_str());
            Err(text::chars_to_string(&m))
        },
    }
}

impl UIElement {
    /// Convert to XML format: the element's events, as the XML writer
    /// writes them.
    pub fn to_xml(&self) -> (r: Result<String, String>)
        ensures
            r matches Ok(s) ==> valid_utf8(events_bytes(element_events(*self))) && s@ == decode_utf8(
                events_bytes(element_events(*self)),
            ),
            r matches Err(m) ==> xml_error(events_bytes(element_events(*self)), m@),
    {
        let mut events: Vec<XmlEvent> = Vec::new();
        assert(event_views(events@) =~= Seq::empty());
        self.push_xml_events(&mut events);
        assert(event_views(events@) =~= element_events(*self));
        write_events(&events)
    }
}

/// The attributes of a window's tag.
pub open spec fn window_attrs(w: UIWindow) -> Seq<(Seq<char>, Seq<char>)> {
    seq![("app"@, w.app_name@), ("title"@, w.window_title@)] + pair_attrs("x"@, "y"@, Some(w.position))
        + pair_attrs("width"@, "height"@, Some(w.size))
}

/// The events of a window: the declaration, the `UITree` root, the
/// `Window` element and the window's UI tree within it.
pub open spec fn window_events(w: UIWindow) -> Seq<XmlEventView> {
    seq![XmlEventView::Declaration, bare_start("UITree"@), XmlEventView::Start("Window"@, window_attrs(w))]
        + match w.ui_tree {
        Some(t) => element_events(t),
        None => Seq::empty(),
    } + seq![XmlEventView::End("Window"@), XmlEventView::End("UITree"@)]
}

/// The raw XML text of a window.
pub open spec fn window_raw_xml(w: UIWindow) -> Seq<char> {
    decode_utf8(events_bytes(window_events(w)))
}

impl UIWindow {
    /// The events of this window.
    pub fn xml_events(&self) -> (r: Vec<XmlEvent>)
        ensures
            event_views(r@) == window_events(*self),
    {
        let mut out: Vec<XmlEvent> = Vec::new();
        let d = XmlEvent::Declaration;
        let t = start_tag("UITree");
        let mut a: Vec<(String, String)> = Vec::new();
        assert(pair_views(a@) =~= Seq::empty());
        push_attr(&mut a, "app", self.app_name.clone());
        push_attr(&mut a, "title", self.window_title.clone());
        push_pair(&mut a, "x", "y", Some(self.position));
        push_pair(&mut a, "width", "height", Some(self.size));
        assert(pair_views(a@) =~= window_attrs(*self));
        let wnd = XmlEvent::Start { name: owned("Window"), attributes: a };
        let ghost hv = seq![d@, t@, wnd@];
        out.push(d);
        out.push(t);
        out.push(wnd);
        assert(event_views(out@) =~= hv);
        let ghost head = event_views(out@);
        if let Some(tree) = &self.ui_tree {
            tree.push_xml_events(&mut out);
        }
        assert(event_views(out@) =~= head + match self.ui_tree {
            Some(tr) => element_events(tr),
            None => Seq::<XmlEventView>::empty(),
        });
        let ghost o = out@;
        let e1 = XmlEvent::End(owned("Window"));
        let e2 = XmlEvent::End(owned("UITree"));
        out.push(e1);
        out.push(e2);
        assert(out@ =~= o + seq![e1, e2]);
        assert(event_views(out@) =~= event_views(o) + seq![e1@, e2@]);
        assert(event_views(out@) =~= window_events(*self));
        out
    }

    /// Convert the window and its UI tree to XML, indented: `None` where the
    /// indenter cannot run on the raw XML (it would subtract below zero, or
    /// its text would not fit in memory).
    pub fn to_xml(&self) -> (r: Option<Result<String, String>>)
        ensures
            r matches Some(Ok(s)) ==> valid_utf8(events_bytes(window_events(*self))) && format_fits(
                window_raw_xml(*self),
            ) && s@ == formatted_xml(window_raw_xml(*self)),
            r is None ==> valid_utf8(events_bytes(window_events(*self))) && !format_fits(
                window_raw_xml(*self),
            ),
            r matches Some(Err(m)) ==> xml_error(events_bytes(window_events(*self)), m@),
    {
        let events = self.xml_events();
        match write_events(&events) {
            Err(m) => Some(Err(m)),
            Ok(raw) => match try_format_xml(raw.as_str()) {
                Some(f) => Some(Ok(f)),
                None => None,
            },
        }
    }
}

// ---------------------------------------------------------------------------
// Indenting XML text
// ---------------------------------------------------------------------------

/// Where the indenter stands after a prefix of its input: the text written
/// so far, the indentation level, and whether it is inside a tag, inside
/// the declaration, and just after a `<`.
pub struct FmtState {
    pub out: Seq<char>,
    pub indent: nat,
    pub in_tag: bool,
    pub in_decl: bool,
    pub after_open: bool,
}

/// The character the indenter looks at to decide on a tag: the one whose
/// index is the number of bytes of the input less the number of bytes
/// written so far.
pub open spec fn probe(xml: Seq<char>, out: Seq<char>) -> Option<char> {
    let k = utf8_len(xml) - utf8_len(out);
    if 0 <= k < xml.len() {
        Some(xml[k])
    } else {
        None
    }
}

/// `n` spaces.
pub open spec fn spaces(n: nat) -> Seq<char> {
    Seq::new(n, |i: int| ' ')
}

/// The text ends with `/` before the `>` just written.
pub open spec fn self_closing(out: Seq<char>) -> bool {
    out.len() >= 2 && out[out.len() - 2] == '/'
}

/// One step of the indenter, on the character `c`.
pub open spec fn fmt_step(xml: Seq<char>, st: FmtState, c: char) -> FmtState {
    if c == '<' {
        let ind: nat = if probe(xml, st.out) == Some('/') && st.indent > 0 {
            (st.indent - 1) as nat
        } else {
            st.indent
        };
        let nl = if st.out.len() > 0 {
            seq!['\n']
        } else {
            Seq::<char>::empty()
        };
        FmtState {
            out: st.out + nl + spaces(2 * ind) + seq!['<'],
            indent: ind,
            in_tag: true,
            in_decl: st.in_decl,
            after_open: true,
        }
    } else if c == '?' {
        FmtState {
            out: st.out.push('?'),
            in_decl: st.in_decl || st.after_open,
            after_open: false,
            ..st
        }
    } else if c == '/' {
        FmtState { out: st.out.push('/'), after_open: false, ..st }
    } else if c == '>' {
        let out2 = st.out.push('>');
        let grow = !st.in_decl && st.in_tag && !self_closing(out2) && !is_ws(
            match probe(xml, out2) {
                Some(x) => x,
                None => ' ',
            },
        );
        FmtState {
            out: out2,
            indent: if grow {
                st.indent + 1
            } else {
                st.indent
            },
            in_tag: false,
            in_decl: false,
            after_open: false,
        }
    } else if c == '\n' || c == '\r' {
        st
    } else if c == ' ' {
        if st.in_tag || !(st.out.len() > 0 && st.out.last() == ' ') {
            FmtState { out: st.out.push(' '), ..st }
        } else {
            st
        }
    } else {
        FmtState { out: st.out.push(c), after_open: false, ..st }
    }
}

/// The indenter after the first `n` characters of `xml`.
pub open spec fn fmt_run(xml: Seq<char>, n: int) -> FmtState
    decreases n,
{
    if n <= 0 {
        FmtState { out: Seq::empty(), indent: 0, in_tag: false, in_decl: false, after_open: false }
    } else {
        fmt_step(xml, fmt_run(xml, n - 1), xml[n - 1])
    }
}

/// The step on `c` subtracts no more bytes than the input has: before a
/// tag opens, and after a tag closes that is neither the declaration nor
/// self-closing, the text written so far has at most as many bytes as the
/// input.
pub open spec fn step_fits(xml: Seq<char>, st: FmtState, c: char) -> bool {
    if c == '<' {
        utf8_len(st.out) <= utf8_len(xml)
    } else if c == '>' && !st.in_decl && st.in_tag {
        self_closing(st.out.push('>')) || utf8_len(st.out.push('>')) <= utf8_len(xml)
    } else {
        true
    }
}

/// The indenter runs on `xml` without a subtraction below zero, and every
/// text it writes fits in memory.
pub open spec fn format_fits(xml: Seq<char>) -> bool {
    &&& utf8_len(xml) <= usize::MAX
    &&& forall|n: int| 0 <= n < xml.len() ==> #[trigger] step_fits(xml, fmt_run(xml, n), xml[n])
    &&& forall|n: int| 0 <= n <= xml.len() ==> utf8_len(#[trigger] fmt_run(xml, n).out) <= usize::MAX
}

/// The indented text of `xml`.
pub open spec fn formatted_xml(xml: Seq<char>) -> Seq<char> {
    fmt_run(xml, xml.len() as int).out
}

/// The indenter's state, as it runs.
struct Fmt {
    out: Vec<char>,
    out_bytes: usize,
    indent: usize,
    in_tag: bool,
    in_decl: bool,
    after_open: bool,
}

impl Fmt {
    spec fn view(&self) -> FmtState {
        FmtState {
            out: self.out@,
            indent: self.indent as nat,
            in_tag: self.in_tag,
            in_decl: self.in_decl,
            after_open: self.after_open,
        }
    }
}

/// The character at index `k` of `xs`, if there is one.
fn char_at(xs: &Vec<char>, k: usize) -> (r: Option<char>)
    ensures
        r == (if k < xs@.len() {
            Some(xs@[k as int])
        } else {
            None::<char>
        }),
{
    if k < xs.len() {
        Some(xs[k])
    } else {
        None
    }
}

/// Appends `add` to the text written, unless its length in bytes would not
/// fit in `usize`.
fn push_all(f: &mut Fmt, add: &Vec<char>) -> (ok: bool)
    requires
        old(f).out_bytes == utf8_len(old(f).out@),
    ensures
        ok <==> utf8_len(old(f).out@ + add@) <= usize::MAX,
        ok ==> final(f).out@ == old(f).out@ + add@ && final(f).out_bytes == utf8_len(final(f).out@),
        final(f).indent == old(f).indent,
        final(f).in_tag == old(f).in_tag,
        final(f).in_decl == old(f).in_decl,
        final(f).after_open == old(f).after_open,
{
    proof {
        text::lemma_utf8_len_concat(f.out@, add@);
    }
    match text::utf8_length(add) {
        Some(b) => {
            if f.out_bytes > usize::MAX - b {
                return false;
            }
            text::append_chars(&mut f.out, add);
            f.out_bytes = f.out_bytes + b;
            true
        },
        None => false,
    }
}

/// One step of the indenter, unless it would subtract below zero or write
/// more than fits in memory.
fn fmt_step_exec(f: &mut Fmt, xs: &Vec<char>, xml_bytes: usize, c: char) -> (ok: bool)
    requires
        xml_bytes == utf8_len(xs@),
        old(f).out_bytes == utf8_len(old(f).out@),
        old(f).indent < usize::MAX,
    ensures
        ok <==> step_fits(xs@, old(f).view(), c) && utf8_len(
            fmt_step(xs@, old(f).view(), c).out,
        ) <= usize::MAX,
        ok ==> final(f).view() == fmt_step(xs@, old(f).view(), c) && final(f).out_bytes == utf8_len(
            final(f).out@,
        ),
{
    let ghost st = f.view();
    let ghost xml = xs@;
    if c == '<' {
        if f.out_bytes > xml_bytes {
            return false;
        }
        let k = xml_bytes - f.out_bytes;
        let closing = match char_at(xs, k) {
            Some(x) => x == '/',
            None => false,
        };
        if closing && f.indent > 0 {
            f.indent = f.indent - 1;
        }
        let mut add: Vec<char> = Vec::new();
        if f.out.len() > 0 {
            add.push('\n');
        }
        let mut j: usize = 0;
        while j < f.indent
            invariant
                j <= f.indent,
                add@ == (if st.out.len() > 0 {
                    seq!['\n']
                } else {
                    Seq::<char>::empty()
                }) + spaces(2 * j as nat),
            decreases f.indent - j,
        {
            add.push(' ');
            add.push(' ');
            j = j + 1;
            assert(add@ =~= (if st.out.len() > 0 {
                seq!['\n']
            } else {
                Seq::<char>::empty()
            }) + spaces(2 * j as nat));
        }
        add.push('<');
        assert(st.out + add@ =~= fmt_step(xml, st, c).out);
        let ok = push_all(f, &add);
        f.in_tag = true;
        f.after_open = true;
        assert(ok ==> f.view() == fmt_step(xml, st, c)) by {
            if ok {
                assert(f.out@ =~= fmt_step(xml, st, c).out);
            }
        }
        ok
    } else if c == '?' {
        let mut add: Vec<char> = Vec::new();
        add.push('?');
        assert(st.out + add@ =~= st.out.push('?'));
        let ok = push_all(f, &add);
        if f.after_open {
            f.in_decl = true;
            f.after_open = false;
        }
        assert(ok ==> f.out@ =~= st.out.push('?'));
        ok
    } else if c == '/' {
        let mut add: Vec<char> = Vec::new();
        add.push('/');
        assert(st.out + add@ =~= st.out.push('/'));
        let ok = push_all(f, &add);
        f.after_open = false;
        assert(ok ==> f.out@ =~= st.out.push('/'));
        ok
    } else if c == '>' {
        let mut add: Vec<char> = Vec::new();
        add.push('>');
        assert(st.out + add@ =~= st.out.push('>'));
        let ok = push_all(f, &add);
        assert(ok ==> f.out@ =~= st.out.push('>'));
        if !ok {
            return false;
        }
        if f.in_decl {
            f.in_decl = false;
        } else if f.in_tag {
            let n = f.out.len();
            let closes = n >= 2 && f.out[n - 2] == '/';
            if !closes {
                if f.out_bytes > xml_bytes {
                    return false;
                }
                let next = match char_at(xs, xml_bytes - f.out_bytes) {
                    Some(x) => x,
                    None => ' ',
                };
                if !text::is_whitespace(next) {
                    f.indent = f.indent + 1;
                }
            }
        }
        f.in_tag = false;
        f.after_open = false;
        true
    } else if c == '\n' || c == '\r' {
        true
    } else if c == ' ' {
        let n = f.out.len();
        if f.in_tag || !(n > 0 && f.out[n - 1] == ' ') {
            let mut add: Vec<char> = Vec::new();
            add.push(' ');
            assert(st.out + add@ =~= st.out.push(' '));
            let ok = push_all(f, &add);
            assert(ok ==> f.out@ =~= st.out.push(' '));
            ok
        } else {
            true
        }
    } else {
        let mut add: Vec<char> = Vec::new();
        add.push(c);
        assert(st.out + add@ =~= st.out.push(c));
        let ok = push_all(f, &add);
        f.after_open = false;
        assert(ok ==> f.out@ =~= st.out.push(c));
        ok
    }
}

/// The indented text of `xml`, where the indenter runs on it without a
/// subtraction below zero and its text fits in memory.
pub fn try_format_xml(xml: &str) -> (r: Option<String>)
    ensures
        r is Some <==> format_fits(xml@),
        r matches Some(s) ==> s@ == formatted_xml(xml@),
{
    let xs = text::str_chars(xml);
    let xml_bytes = match text::utf8_length(&xs) {
        Some(n) => n,
        None => {
            return None;
        },
    };
    let mut f = Fmt { out: Vec::new(), out_bytes: 0, indent: 0, in_tag: false, in_decl: false, after_open: false };
    let mut i: usize = 0;
    assert(f.view() == fmt_run(xs@, 0));
    while i < xs.len()
        invariant
            i <= xs.len(),
            xs@ == xml@,
            xml_bytes == utf8_len(xs@),
            f.view() == fmt_run(xs@, i as int),
            f.out_bytes == utf8_len(f.out@),
            f.indent <= i,
            forall|n: int| 0 <= n < i ==> #[trigger] step_fits(xs@, fmt_run(xs@, n), xs@[n]),
            forall|n: int| 0 <= n <= i ==> utf8_len(#[trigger] fmt_run(xs@, n).out) <= usize::MAX,
        decreases xs.len() - i,
    {
        let ghost st = f.view();
        let ok = fmt_step_exec(&mut f, &xs, xml_bytes, xs[i]);
        assert(fmt_run(xs@, i as int + 1) == fmt_step(xs@, fmt_run(xs@, i as int), xs@[i as int]));
        if !ok {
            return None;
        }
        i = i + 1;
    }
    Some(text::chars_to_string(&f.out))
}

impl UIWindow {
    /// Format an XML string with proper indentation: each tag on a line of
    /// its own, indented by its depth; line breaks dropped, and runs of
    /// spaces outside tags kept as one.
    pub fn format_xml_string(xml: &str) -> (r: Result<String, String>)
        requires
            format_fits(xml@),
        ensures
            r matches Ok(s) && s@ == formatted_xml(xml@),
    {
        match try_format_xml(xml) {
            Some(s) => Ok(s),
            None => Err(text::chars_to_string(&text::str_chars(xml))),
        }
    }
}

} // verus!
