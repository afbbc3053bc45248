//! Parsed binary XML: walking the events of a document and reading the element at
//! hand, behind handles.

use vstd::prelude::*;

use crate::resources;
use crate::slots::{SlotError, SlotTable, Slots};
use crate::text;

verus! {

/// A handle to an XML block. Zero is never the handle of one.
pub type XmlHandle = i64;

/// Every open XML block.
pub type XmlRegistry = SlotTable<XmlBlock>;

/// The line of an element whose line is not known.
pub const XML_LINE_UNKNOWN: i32 = -1;

/// The event codes of `XmlPullParser`.
pub const XML_EVENT_END_DOCUMENT: i32 = 1;

pub const XML_EVENT_START_TAG: i32 = 2;

pub const XML_EVENT_END_TAG: i32 = 3;

pub const XML_EVENT_TEXT: i32 = 4;

/// The index of an attribute that is not there.
pub const XML_ATTR_NOT_FOUND: i32 = -1;

/// The type of an attribute that is not there.
pub const XML_TYPE_NULL: i32 = 0;

/// An attribute of an element.
#[derive(Debug)]
pub struct XmlAttribute {
    pub namespace: Option<String>,
    pub name: Option<String>,
    /// The resource id of the attribute's name, zero where it has none.
    pub name_resource: u32,
    pub value_type: u8,
    pub value_data: u32,
    pub value_string: Option<String>,
}

/// An element.
#[derive(Debug)]
pub struct XmlElement {
    pub namespace: Option<String>,
    pub name: Option<String>,
    pub attributes: Vec<XmlAttribute>,
    pub line: u32,
}

/// A step of the walk through a document, with the index of what it is about.
#[derive(Debug, Clone, Copy, PartialEq, Eq, Structural)]
pub enum XmlEventKind {
    StartNamespace(usize),
    EndNamespace(usize),
    StartTag(usize),
    EndTag(usize),
    Text(usize),
}

/// A document.
#[derive(Debug)]
pub struct XmlDocument {
    pub events: Vec<XmlEventKind>,
    pub elements: Vec<XmlElement>,
    pub strings: Vec<String>,
}

/// A document and how far it was walked: the event that comes next, and the
/// element that the last event was about.
#[derive(Debug)]
pub struct XmlBlock {
    pub document: XmlDocument,
    pub cursor: usize,
    pub current: Option<usize>,
}

/// The element that an event is about.
pub open spec fn event_element(event: XmlEventKind) -> Option<usize> {
    match event {
        XmlEventKind::StartTag(i) => Some(i),
        XmlEventKind::EndTag(i) => Some(i),
        _ => None,
    }
}

/// The code of an event, none for a namespace event.
pub open spec fn event_code(event: XmlEventKind) -> Option<i32> {
    match event {
        XmlEventKind::StartTag(_) => Some(XML_EVENT_START_TAG),
        XmlEventKind::EndTag(_) => Some(XML_EVENT_END_TAG),
        XmlEventKind::Text(_) => Some(XML_EVENT_TEXT),
        _ => None,
    }
}

/// The position of the first event at or after `from` that has a code, or the
/// number of events.
pub open spec fn next_coded(events: Seq<XmlEventKind>, from: nat) -> nat
    decreases events.len() - from,
{
    if from >= events.len() {
        from
    } else if event_code(events[from as int]) is Some {
        from
    } else {
        next_coded(events, from + 1)
    }
}

/// What an optional string holds, nothing where there is none.
pub open spec fn text_or_empty(s: Option<String>) -> Seq<char> {
    match s {
        Some(s) => s@,
        None => Seq::empty(),
    }
}

impl XmlBlock {
    /// The walk is within the document.
    pub open spec fn wf(self) -> bool {
        self.cursor <= self.document.events@.len()
    }

    /// The element that the last event was about.
    pub open spec fn element(self) -> Option<XmlElement> {
        match self.current {
            Some(i) => if i < self.document.elements@.len() {
                Some(self.document.elements@[i as int])
            } else {
                None
            },
            None => None,
        }
    }

    /// An attribute of the element at hand.
    pub open spec fn attribute(self, index: i32) -> Option<XmlAttribute> {
        match self.element() {
            Some(e) => if 0 <= index < e.attributes@.len() {
                Some(e.attributes@[index as int])
            } else {
                None
            },
            None => None,
        }
    }

    /// A block at the beginning of a document.
    pub fn new(document: XmlDocument) -> (block: Self)
        ensures
            block == (XmlBlock { document, cursor: 0, current: None }),
            block.wf(),
    {
        XmlBlock { document, cursor: 0, current: None }
    }

    /// Goes back to the beginning of the document.
    pub fn reset(&mut self)
        ensures
            *final(self) == (XmlBlock { cursor: 0, current: None, ..*old(self) }),
            final(self).wf(),
    {
        self.cursor = 0;
        self.current = None;
    }

    /// The next event, none at the end of the document.
    pub fn next_event(&mut self) -> (event: Option<XmlEventKind>)
        ensures
            old(self).wf() ==> final(self).wf(),
            final(self).document == old(self).document,
            old(self).cursor < old(self).document.events@.len() ==> {
                &&& event == Some(old(self).document.events@[old(self).cursor as int])
                &&& final(self).cursor == old(self).cursor + 1
                &&& final(self).current == event_element(event->0)
                &&& final(self).current == (match event->0 {
                    XmlEventKind::StartTag(i) => Some(i),
                    XmlEventKind::EndTag(i) => Some(i),
                    _ => None,
                })
            },
            old(self).cursor >= old(self).document.events@.len() ==> {
                &&& event is None
                &&& final(self).cursor == old(self).cursor
                &&& final(self).current is None
            },
    {
        if self.cursor >= self.document.events.len() {
            self.current = None;
            return None;
        }
        let event: XmlEventKind = self.document.events[self.cursor];
        self.cursor = self.cursor + 1;
        self.current = match event {
            XmlEventKind::StartTag(i) => Some(i),
            XmlEventKind::EndTag(i) => Some(i),
            _ => None,
        };
        Some(event)
    }

    /// The code of the next event that is about no namespace, the code for the
    /// end of the document where there is none.
    pub fn next(&mut self) -> (code: i32)
        ensures
            old(self).wf() ==> final(self).wf(),
            final(self).document == old(self).document,
            ({
                let events = old(self).document.events@;
                let at = next_coded(events, old(self).cursor as nat);
                &&& at < events.len() ==> {
                    &&& Some(code) == event_code(events[at as int])
                    &&& final(self).cursor == at + 1
                    &&& final(self).current == event_element(events[at as int])
                    &&& match events[at as int] {
                        XmlEventKind::StartTag(i) => code == 2 && final(self).current == Some(i),
                        XmlEventKind::EndTag(i) => code == 3 && final(self).current == Some(i),
                        XmlEventKind::Text(_) => code == 4 && final(self).current is None,
                        _ => false,
                    }
                }
                &&& at >= events.len() ==> {
                    &&& code == XML_EVENT_END_DOCUMENT
                    &&& code == 1
                    &&& final(self).cursor == at
                    &&& final(self).current is None
                }
            }),
    {
        let ghost events = self.document.events@;
        let ghost at = next_coded(events, self.cursor as nat);
        loop
            invariant
                old(self).wf() ==> self.wf(),
                self.document == old(self).document,
                events == self.document.events@,
                at == next_coded(events, old(self).cursor as nat),
                at == next_coded(events, self.cursor as nat),
            decreases events.len() - self.cursor,
        {
            match self.next_event() {
                Some(XmlEventKind::StartTag(_)) => {
                    return XML_EVENT_START_TAG;
                },
                Some(XmlEventKind::EndTag(_)) => {
                    return XML_EVENT_END_TAG;
                },
                Some(XmlEventKind::Text(_)) => {
                    return XML_EVENT_TEXT;
                },
                Some(_) => {},
                None => {
                    return XML_EVENT_END_DOCUMENT;
                },
            }
        }
    }

    /// The element that the last event was about.
    pub fn current_element(&self) -> (element: Option<&XmlElement>)
        ensures
            match element {
                Some(e) => self.element() == Some(*e),
                None => self.element() is None,
            },
            match (self.current, element) {
                (Some(i), Some(e)) => i < self.document.elements@.len() && *e
                    == self.document.elements@[i as int],
                (Some(i), None) => i >= self.document.elements@.len(),
                (None, _) => element is None,
            },
    {
        match self.current {
            Some(i) => {
                if i < self.document.elements.len() {
                    Some(&self.document.elements[i])
                } else {
                    None
                }
            },
            None => None,
        }
    }

    /// An attribute of the element at hand.
    pub fn current_attribute(&self, idx: i32) -> (attribute: Option<&XmlAttribute>)
        ensures
            match attribute {
                Some(a) => self.attribute(idx) == Some(*a),
                None => self.attribute(idx) is None,
            },
            match (self.element(), attribute) {
                (Some(e), Some(a)) => 0 <= idx < e.attributes@.len() && *a
                    == e.attributes@[idx as int],
                (Some(e), None) => idx < 0 || idx >= e.attributes@.len(),
                (None, _) => attribute is None,
            },
    {
        if idx < 0 {
            return None;
        }
        match self.current_element() {
            Some(element) => {
                if (idx as usize) < element.attributes.len() {
                    Some(&element.attributes[idx as usize])
                } else {
                    None
                }
            },
            None => None,
        }
    }
}

/// The name of the element that the last event was about, where it has one.
pub fn element_name(block: &XmlBlock) -> (name: Option<String>)
    ensures
        crate::resources::optional_text(name) == (match block.element() {
            Some(element) => crate::resources::optional_text(element.name),
            None => None,
        }),
{
    match block.current_element() {
        Some(element) => match &element.name {
            Some(name) => Some(name.as_str().to_owned()),
            None => None,
        },
        None => None,
    }
}

/// Whether an attribute has a name and a namespace; one without either counts as
/// having an empty one.
pub open spec fn attribute_is(a: XmlAttribute, namespace: Seq<char>, name: Seq<char>) -> bool {
    text_or_empty(a.name) == name && text_or_empty(a.namespace) == namespace
}

fn option_is(have: &Option<String>, want: &str) -> (b: bool)
    ensures
        b == (text_or_empty(*have) == want@),
{
    match have {
        Some(s) => text::same_str(s.as_str(), want),
        None => {
            let b = want.is_empty();
            assert(b ==> want@ =~= Seq::<char>::empty());
            b
        },
    }
}

/// The index of the first attribute of the element at hand with a name and a
/// namespace, -1 where there is none or its index is no `int` of Java.
pub fn attribute_index(block: &XmlBlock, namespace: &str, name: &str) -> (index: i32)
    ensures
        match block.element() {
            None => index == XML_ATTR_NOT_FOUND,
            Some(e) => {
                ||| 0 <= index < e.attributes@.len() && attribute_is(
                    e.attributes@[index as int],
                    namespace@,
                    name@,
                ) && forall|j: int|
                    0 <= j < index ==> !attribute_is(#[trigger] e.attributes@[j], namespace@, name@)
                ||| index == XML_ATTR_NOT_FOUND && forall|j: int|
                    0 <= j < e.attributes@.len() && j <= i32::MAX ==> !attribute_is(
                        #[trigger] e.attributes@[j],
                        namespace@,
                        name@,
                    )
            },
        },
        index >= -1,
        block.element() is None ==> index == -1,
{
    let element = match block.current_element() {
        Some(element) => element,
        None => {
            return XML_ATTR_NOT_FOUND;
        },
    };
    let mut i: usize = 0;
    while i < element.attributes.len()
        invariant
            i <= element.attributes@.len(),
            block.element() == Some(*element),
            forall|j: int|
                0 <= j < i ==> !attribute_is(
                    #[trigger] element.attributes@[j],
                    namespace@,
                    name@,
                ),
        decreases element.attributes@.len() - i,
    {
        let a = &element.attributes[i];
        if option_is(&a.name, name) && option_is(&a.namespace, namespace) {
            if i <= i32::MAX as usize {
                return i as i32;
            } else {
                return XML_ATTR_NOT_FOUND;
            }
        }
        i += 1;
    }
    XML_ATTR_NOT_FOUND
}

/// The number of attributes of the element at hand, none where there is no
/// element, cut off at the largest `int` of Java.
pub fn attribute_count(block: &XmlBlock) -> (count: i32)
    ensures
        count == (match block.element() {
            Some(e) => if e.attributes@.len() <= i32::MAX {
                e.attributes@.len() as i32
            } else {
                i32::MAX
            },
            None => 0,
        }),
{
    match block.current_element() {
        Some(element) => {
            let n: usize = element.attributes.len();
            if n <= i32::MAX as usize {
                n as i32
            } else {
                i32::MAX
            }
        },
        None => 0,
    }
}

/// A string of the document's pool.
pub fn pooled_string(block: &XmlBlock, idx: i32) -> (string: Option<String>)
    ensures
        resources::optional_text(string) == (if 0 <= idx < block.document.strings@.len() {
            Some(block.document.strings@[idx as int]@)
        } else {
            None
        }),
{
    if idx < 0 || idx as usize >= block.document.strings.len() {
        None
    } else {
        Some(block.document.strings[idx as usize].clone())
    }
}

/// The resource id of an attribute's name, zero where there is no such attribute.
pub fn attribute_resource(block: &XmlBlock, idx: i32) -> (id: i32)
    ensures
        id == (match block.attribute(idx) {
            Some(a) => resources::signed(a.name_resource),
            None => 0,
        }),
{
    match block.current_attribute(idx) {
        Some(a) => resources::u32_to_i32(a.name_resource),
        None => 0,
    }
}

/// The type of an attribute's value.
pub fn attribute_data_type(block: &XmlBlock, idx: i32) -> (data_type: i32)
    ensures
        data_type == (match block.attribute(idx) {
            Some(a) => a.value_type as i32,
            None => XML_TYPE_NULL,
        }),
        block.attribute(idx) is None ==> data_type == 0,
{
    match block.current_attribute(idx) {
        Some(a) => a.value_type as i32,
        None => XML_TYPE_NULL,
    }
}

/// The data of an attribute's value.
pub fn attribute_data(block: &XmlBlock, idx: i32) -> (data: i32)
    ensures
        data == (match block.attribute(idx) {
            Some(a) => resources::signed(a.value_data),
            None => 0,
        }),
{
    match block.current_attribute(idx) {
        Some(a) => resources::u32_to_i32(a.value_data),
        None => 0,
    }
}

/// The string of an attribute's value.
pub fn attribute_string_value(block: &XmlBlock, idx: i32) -> (string: Option<String>)
    ensures
        resources::optional_text(string) == (match block.attribute(idx) {
            Some(a) => resources::optional_text(a.value_string),
            None => None,
        }),
{
    match block.current_attribute(idx) {
        Some(a) => match &a.value_string {
            Some(s) => Some(s.clone()),
            None => None,
        },
        None => None,
    }
}

/// Every walk is within its document. An empty registry is so, and every operation
/// keeps it so.
pub open spec fn walks_within(registry: Slots<XmlBlock>) -> bool {
    forall|i: int|
        0 <= i < registry.states.len() ==> match #[trigger] registry.states[i] {
            Some(block) => block.wf(),
            None => true,
        }
}

/// Opens a block over a document and returns its handle. The only failure is that
/// no index is left.
pub fn store(registry: &mut XmlRegistry, document: XmlDocument) -> (result: Result<
    XmlHandle,
    SlotError,
>)
    requires
        old(registry)@.wf(),
    ensures
        final(registry)@.wf(),
        walks_within(old(registry)@) ==> walks_within(final(registry)@),
        old(registry)@.has_room() ==> result == Ok::<XmlHandle, SlotError>(
            old(registry)@.next_handle(),
        ) && final(registry)@ == old(registry)@.stored(
            XmlBlock { document, cursor: 0, current: None },
        ),
        !old(registry)@.has_room() ==> result == Err::<XmlHandle, SlotError>(
            SlotError::OutOfRange,
        ) && final(registry)@ == old(registry)@,
{
    registry.store(XmlBlock::new(document))
}

/// Starts a walk through a block from its beginning. The walk has the handle of
/// the block; a handle without a block gives zero.
pub fn create_parse_state(registry: &mut XmlRegistry, block: XmlHandle) -> (state: XmlHandle)
    requires
        old(registry)@.wf(),
    ensures
        final(registry)@.wf(),
        walks_within(old(registry)@) ==> walks_within(final(registry)@),
        old(registry)@.live(block) ==> state == block && final(registry)@ == old(
            registry,
        )@.updated(block, XmlBlock { cursor: 0, current: None, ..old(registry)@.value(block) }),
        !old(registry)@.live(block) ==> state == 0 && final(registry)@ == old(registry)@,
{
    let ghost before = registry@;
    match registry.get_mut(block) {
        Ok(b) => {
            proof {
                crate::slots::law_updated_value_is_read_back(before, block, *final(b));
            }
            b.reset();
            block
        },
        Err(_) => 0,
    }
}

/// The code of the next event of a walk; a handle without a block is at its end.
pub fn next(registry: &mut XmlRegistry, state: XmlHandle) -> (code: i32)
    requires
        old(registry)@.wf(),
    ensures
        final(registry)@.wf(),
        walks_within(old(registry)@) ==> walks_within(final(registry)@),
        !old(registry)@.live(state) ==> code == XML_EVENT_END_DOCUMENT && final(registry)@ == old(
            registry,
        )@,
        !old(registry)@.live(state) ==> code == 1,
        old(registry)@.live(state) ==> {
            let before = old(registry)@.value(state);
            let after = final(registry)@.value(state);
            let at = next_coded(before.document.events@, before.cursor as nat);
            &&& final(registry)@ == old(registry)@.updated(state, after)
            &&& after.document == before.document
            &&& at < before.document.events@.len() ==> {
                &&& Some(code) == event_code(before.document.events@[at as int])
                &&& after.cursor == at + 1
                &&& after.current == event_element(before.document.events@[at as int])
                &&& match before.document.events@[at as int] {
                    XmlEventKind::StartTag(i) => code == 2 && after.current == Some(i),
                    XmlEventKind::EndTag(i) => code == 3 && after.current == Some(i),
                    XmlEventKind::Text(_) => code == 4 && after.current is None,
                    _ => false,
                }
            }
            &&& at >= before.document.events@.len() ==> {
                &&& code == XML_EVENT_END_DOCUMENT
                &&& code == 1
                &&& after.cursor == at
                &&& after.current is None
            }
        },
{
    let ghost before = registry@;
    match registry.get_mut(state) {
        Ok(b) => {
            proof {
                crate::slots::law_updated_value_is_read_back(before, state, *final(b));
            }
            b.next()
        },
        Err(_) => XML_EVENT_END_DOCUMENT,
    }
}

proof fn lemma_next_coded(events: Seq<XmlEventKind>, from: nat)
    requires
        from <= events.len(),
    ensures
        from <= next_coded(events, from) <= events.len(),
        next_coded(events, from) < events.len() ==> event_code(
            events[next_coded(events, from) as int],
        ) is Some,
        forall|j: int|
            from <= j < next_coded(events, from) ==> event_code(#[trigger] events[j]) is None,
    decreases events.len() - from,
{
    if from < events.len() && event_code(events[from as int]) is None {
        lemma_next_coded(events, from + 1);
    }
}

/// Ends a document and returns whether there was one.
pub fn destroy(registry: &mut XmlRegistry, block: XmlHandle) -> (known: bool)
    requires
        old(registry)@.wf(),
    ensures
        final(registry)@.wf(),
        walks_within(old(registry)@) ==> walks_within(final(registry)@),
        known == old(registry)@.live(block),
        final(registry)@ == (if known {
            old(registry)@.freed(block)
        } else {
            old(registry)@
        }),
{
    match registry.free(block) {
        Ok(()) => true,
        Err(_) => false,
    }
}

/// In a registry whose walks are within their documents every live handle names
/// such a walk, and the empty registry is one.
pub proof fn law_every_walk_is_within_its_document(registry: Slots<XmlBlock>, handle: XmlHandle)
    ensures
        walks_within(registry) && registry.live(handle) ==> registry.value(handle).wf(),
        walks_within(Slots::<XmlBlock>::empty()),
{
}

/// A walk passes over namespace events alone: every event before the one
/// that is reported has no code, the one that is reported is a tag or a text, and
/// the walk never goes back.
pub proof fn law_walk_skips_only_namespaces(events: Seq<XmlEventKind>, from: nat)
    requires
        from <= events.len(),
    ensures
        from <= next_coded(events, from) <= events.len(),
        forall|j: int|
            from <= j < next_coded(events, from) ==> (#[trigger] events[j]) is StartNamespace
                || events[j] is EndNamespace,
        next_coded(events, from) < events.len() ==> {
            let event = events[next_coded(events, from) as int];
            event is StartTag || event is EndTag || event is Text
        },
{
    lemma_next_coded(events, from);
}

/// The element at hand is the one that the last event named, and its attributes are
/// those of the document in their order. Neither is there for a number past the end.
pub proof fn law_attribute_is_read_by_its_place(block: XmlBlock, element: usize, index: i32)
    requires
        block.current == Some(element),
    ensures
        element < block.document.elements@.len() ==> {
            let e = block.document.elements@[element as int];
            &&& block.element() == Some(e)
            &&& 0 <= index < e.attributes@.len() ==> block.attribute(index) == Some(
                e.attributes@[index as int],
            )
            &&& index < 0 || index >= e.attributes@.len() ==> block.attribute(index) is None
        },
        element >= block.document.elements@.len() ==> block.element() is None && block.attribute(
            index,
        ) is None,
        (XmlBlock { current: None, ..block }).element() is None,
        (XmlBlock { current: None, ..block }).attribute(index) is None,
{
}

/// An attribute is found by its own name and namespace and by no others. One that has
/// none is found by the empty text in its place.
pub proof fn law_attribute_is_found_by_its_names(
    a: XmlAttribute,
    namespace: Seq<char>,
    name: Seq<char>,
)
    ensures
        a.name is Some && a.namespace is Some ==> (attribute_is(a, namespace, name) <==> a.name->0@
            == name && a.namespace->0@ == namespace),
        a.name is Some && a.namespace is None ==> (attribute_is(a, namespace, name) <==> a.name->0@
            == name && namespace.len() == 0),
        a.name is None && a.namespace is Some ==> (attribute_is(a, namespace, name) <==> name.len()
            == 0 && a.namespace->0@ == namespace),
        a.name is None && a.namespace is None ==> (attribute_is(a, namespace, name) <==> name.len()
            == 0 && namespace.len() == 0),
{
    assert(name.len() == 0 ==> name =~= Seq::<char>::empty());
    assert(namespace.len() == 0 ==> namespace =~= Seq::<char>::empty());
}

} // verus!
