//! Device identity and the closed taxonomy of telemetry events.
//!
//! A taxonomy is made once from a schema: an ordered list of properties, each
//! with a name and the type of its payload. One event kind stands for each
//! property. The name is the tag under which events of that kind travel.

use vstd::prelude::*;
use vstd::utf8::encode_utf8;
use crate::util::text::chars_of;

verus! {

/// The identifiers that the host supplies for the device and its OS install.
pub struct DeviceOSIds {
    pub device_id: String,
    pub os_install_uuid: String,
}

/// One property of the schema: its name and the type of its payload.
pub struct Property {
    pub name: String,
    pub payload: String,
}

/// A schema as plain values: the name and the payload type of each property.
pub type Schema = Seq<(Seq<char>, Seq<char>)>;

/// The plain values of a list of properties.
pub open spec fn schema_of(properties: Seq<Property>) -> Schema {
    Seq::new(properties.len(), |i: int| (properties[i].name@, properties[i].payload@))
}

/// A character of a tag: a lower-case letter, a digit or an underscore.
pub open spec fn is_tag_char(c: char) -> bool {
    let n = c as u32;
    0x61 <= n <= 0x7a || 0x30 <= n <= 0x39 || c == '_'
}

/// A tag: not empty, lower case, its words separated by underscores.
pub open spec fn is_tag(text: Seq<char>) -> bool {
    &&& text.len() > 0
    &&& forall|i: int| 0 <= i < text.len() ==> is_tag_char(#[trigger] text[i])
}

/// No property before `at` has the name of the property at `at`.
pub open spec fn name_is_new(schema: Schema, at: int) -> bool {
    forall|j: int| 0 <= j < at ==> (#[trigger] schema[j]).0 != schema[at].0
}

/// No property before `at` has the payload type of the property at `at`.
pub open spec fn payload_is_new(schema: Schema, at: int) -> bool {
    forall|j: int| 0 <= j < at ==> (#[trigger] schema[j]).1 != schema[at].1
}

/// The property at `at` can join those before it: its name is a tag, and
/// neither its name nor its payload type occurs before it.
pub open spec fn fits(schema: Schema, at: int) -> bool {
    &&& is_tag(schema[at].0)
    &&& name_is_new(schema, at)
    &&& payload_is_new(schema, at)
}

/// A schema that a taxonomy can be made from: kinds and payload types stand
/// in a one-to-one relation, and every name is a tag.
pub open spec fn closed_schema(schema: Schema) -> bool {
    forall|i: int| 0 <= i < schema.len() ==> #[trigger] fits(schema, i)
}

/// The kind whose tag is `tag`, if the schema has one.
pub open spec fn kind_tagged(schema: Schema, tag: Seq<char>) -> Option<int> {
    if exists|i: int| 0 <= i < schema.len() && (#[trigger] schema[i]).0 == tag {
        Some(choose|i: int| 0 <= i < schema.len() && (#[trigger] schema[i]).0 == tag)
    } else {
        None
    }
}

/// The kind whose payload has the type `payload`, if the schema has one.
pub open spec fn kind_carrying(schema: Schema, payload: Seq<char>) -> Option<int> {
    if exists|i: int| 0 <= i < schema.len() && (#[trigger] schema[i]).1 == payload {
        Some(choose|i: int| 0 <= i < schema.len() && (#[trigger] schema[i]).1 == payload)
    } else {
        None
    }
}

/// The event that a payload is lifted to: its fields under the kind that its
/// type belongs to. An event is given as the position of its kind and its fields.
pub open spec fn lifted(schema: Schema, payload_type: Seq<char>, fields: Seq<u8>) -> Option<
    (int, Seq<u8>),
> {
    match kind_carrying(schema, payload_type) {
        Some(kind) => Some((kind, fields)),
        None => None,
    }
}

/// The wire form of an event: the tag of its kind, and its fields.
pub open spec fn wire_form(schema: Schema, kind: int, fields: Seq<u8>) -> (Seq<char>, Seq<u8>) {
    (schema[kind].0, fields)
}

/// The event that a wire form stands for, if its tag is that of a kind.
pub open spec fn read_back(schema: Schema, tag: Seq<char>, fields: Seq<u8>) -> Option<
    (int, Seq<u8>),
> {
    match kind_tagged(schema, tag) {
        Some(kind) => Some((kind, fields)),
        None => None,
    }
}

/// The events of a batch as plain values: for each, its kind and its fields.
pub open spec fn batch_view(batch: Seq<TelemetryEvent>) -> Seq<(int, Seq<u8>)> {
    Seq::new(batch.len(), |i: int| batch[i]@)
}

/// The JSON text of an event: an object whose only key is the tag of the
/// event's kind, and whose value is the payload's fields as they stand.
pub open spec fn event_json(schema: Schema, event: (int, Seq<u8>)) -> Seq<u8> {
    seq![0x7bu8, 0x22u8] + encode_utf8(schema[event.0].0) + seq![0x22u8, 0x3au8] + event.1
        + seq![0x7du8]
}

/// The JSON texts of the events of a batch, in order, with a comma between
/// one and the next.
pub open spec fn events_json(schema: Schema, batch: Seq<(int, Seq<u8>)>) -> Seq<u8>
    decreases batch.len(),
{
    if batch.len() == 0 {
        Seq::empty()
    } else if batch.len() == 1 {
        event_json(schema, batch[0])
    } else {
        events_json(schema, batch.drop_last()) + seq![0x2cu8] + event_json(schema, batch.last())
    }
}

/// The JSON text of a batch: the array of its events, in order.
pub open spec fn batch_json(schema: Schema, batch: Seq<(int, Seq<u8>)>) -> Seq<u8> {
    seq![0x5bu8] + events_json(schema, batch) + seq![0x5du8]
}

/// Why a schema was refused, and at which property.
#[derive(Debug)]
pub enum SchemaError {
    /// The name of the property is no tag.
    InvalidName { at: usize },
    /// An earlier property has the same name.
    DuplicateName { at: usize },
    /// An earlier property has the same payload type.
    DuplicatePayload { at: usize },
}

impl SchemaError {
    /// The position of the property that was refused.
    pub open spec fn at(self) -> int {
        match self {
            SchemaError::InvalidName { at } => at as int,
            SchemaError::DuplicateName { at } => at as int,
            SchemaError::DuplicatePayload { at } => at as int,
        }
    }

    /// Whether this is the error that `schema` is refused with: it names the
    /// first property that does not fit, and the first reason in the order
    /// name, duplicate name, duplicate payload type.
    pub open spec fn refuses(self, schema: Schema) -> bool {
        &&& 0 <= self.at() < schema.len()
        &&& closed_schema(schema.take(self.at()))
        &&& match self {
            SchemaError::InvalidName { at } => !is_tag(schema[at as int].0),
            SchemaError::DuplicateName { at } => is_tag(schema[at as int].0) && !name_is_new(
                schema,
                at as int,
            ),
            SchemaError::DuplicatePayload { at } => is_tag(schema[at as int].0) && name_is_new(
                schema,
                at as int,
            ) && !payload_is_new(schema, at as int),
        }
    }
}

/// A kind of telemetry event: the position of its property in the schema.
#[derive(Clone, Copy, Debug, PartialEq, Eq, Structural)]
pub struct EventKind {
    pub index: usize,
}

/// A tag that no kind of the taxonomy has.
#[derive(Debug)]
pub struct UnknownEventKind {
    pub tag: String,
}

/// A payload as a collector hands it over: the name of its type and its
/// fields in their wire form.
pub struct EventPayload {
    pub payload_type: String,
    pub fields: Vec<u8>,
}

/// An event: a payload under the kind that its type belongs to.
pub struct TelemetryEvent {
    kind: EventKind,
    fields: Vec<u8>,
}

/// An event as it travels: the tag of its kind and the payload's fields.
pub struct WireEvent {
    pub tag: String,
    pub fields: Vec<u8>,
}

impl View for TelemetryEvent {
    type V = (int, Seq<u8>);

    /// An event as plain values: the position of its kind, and its fields.
    closed spec fn view(&self) -> (int, Seq<u8>) {
        (self.kind.index as int, self.fields@)
    }
}

impl TelemetryEvent {
    /// The kind of the event.
    pub fn type_(&self) -> (kind: EventKind)
        ensures
            kind.index == self@.0,
    {
        self.kind
    }

    /// The fields of the event's payload.
    pub fn payload_fields(&self) -> (fields: &Vec<u8>)
        ensures
            fields@ == self@.1,
    {
        &self.fields
    }
}

/// Whether `text` is a tag.
pub fn check_tag(text: &str) -> (ok: bool)
    ensures
        ok == is_tag(text@),
{
    let chars = chars_of(text);
    if chars.len() == 0 {
        return false;
    }
    let mut i: usize = 0;
    while i < chars.len()
        invariant
            i <= chars.len(),
            chars@ == text@,
            forall|j: int| 0 <= j < i ==> is_tag_char(#[trigger] text@[j]),
        decreases chars.len() - i,
    {
        let c = chars[i];
        let n: u32 = c as u32;
        let ok = (0x61 <= n && n <= 0x7a) || (0x30 <= n && n <= 0x39) || c == '_';
        if !ok {
            return false;
        }
        i += 1;
    }
    true
}

/// Whether a property before `at` has the name of the property at `at`.
fn name_occurs_before(properties: &Vec<Property>, at: usize) -> (occurs: bool)
    requires
        at < properties.len(),
    ensures
        occurs == !name_is_new(schema_of(properties@), at as int),
{
    let ghost schema = schema_of(properties@);
    let mut j: usize = 0;
    while j < at
        invariant
            j <= at,
            at < properties.len(),
            schema == schema_of(properties@),
            forall|k: int| 0 <= k < j ==> (#[trigger] schema[k]).0 != schema[at as int].0,
        decreases at - j,
    {
        if properties[j].name == properties[at].name {
            assert(schema[j as int].0 == schema[at as int].0);
            return true;
        }
        j += 1;
    }
    false
}

/// Whether a property before `at` has the payload type of the property at `at`.
fn payload_occurs_before(properties: &Vec<Property>, at: usize) -> (occurs: bool)
    requires
        at < properties.len(),
    ensures
        occurs == !payload_is_new(schema_of(properties@), at as int),
{
    let ghost schema = schema_of(properties@);
    let mut j: usize = 0;
    while j < at
        invariant
            j <= at,
            at < properties.len(),
            schema == schema_of(properties@),
            forall|k: int| 0 <= k < j ==> (#[trigger] schema[k]).1 != schema[at as int].1,
        decreases at - j,
    {
        if properties[j].payload == properties[at].payload {
            assert(schema[j as int].1 == schema[at as int].1);
            return true;
        }
        j += 1;
    }
    false
}

/// The closed set of event kinds, in the order of the schema.
pub struct Taxonomy {
    properties: Vec<Property>,
}

impl View for Taxonomy {
    type V = Schema;

    closed spec fn view(&self) -> Schema {
        schema_of(self.properties@)
    }
}

impl Taxonomy {
    #[verifier::type_invariant]
    spec fn closed(&self) -> bool {
        closed_schema(schema_of(self.properties@))
    }

    /// Whether `kind` is one of this taxonomy's kinds.
    pub open spec fn has(&self, kind: EventKind) -> bool {
        kind.index < self@.len()
    }

    /// Whether `event` is of one of this taxonomy's kinds.
    pub open spec fn holds(&self, event: TelemetryEvent) -> bool {
        0 <= event@.0 < self@.len()
    }

    /// Makes the taxonomy of a schema, or says which property does not fit.
    pub fn from_schema(properties: Vec<Property>) -> (made: Result<Taxonomy, SchemaError>)
        ensures
            match made {
                Ok(taxonomy) => closed_schema(schema_of(properties@)) && taxonomy@ == schema_of(
                    properties@,
                ),
                Err(error) => error.refuses(schema_of(properties@)),
            },
    {
        let ghost schema = schema_of(properties@);
        let mut i: usize = 0;
        while i < properties.len()
            invariant
                i <= properties.len(),
                schema == schema_of(properties@),
                closed_schema(schema.take(i as int)),
            decreases properties.len() - i,
        {
            if !check_tag(properties[i].name.as_str()) {
                return Err(SchemaError::InvalidName { at: i });
            }
            if name_occurs_before(&properties, i) {
                return Err(SchemaError::DuplicateName { at: i });
            }
            if payload_occurs_before(&properties, i) {
                return Err(SchemaError::DuplicatePayload { at: i });
            }
            proof {
                let next = schema.take(i + 1);
                assert forall|k: int| 0 <= k < next.len() implies #[trigger] fits(next, k) by {
                    if k < i {
                        assert(fits(schema.take(i as int), k));
                    }
                }
            }
            i += 1;
        }
        assert(schema.take(i as int) =~= schema);
        Ok(Taxonomy { properties })
    }

    /// The number of kinds.
    pub fn len(&self) -> (n: usize)
        ensures
            n == self@.len(),
    {
        self.properties.len()
    }

    /// All kinds, each once, in the order of the schema.
    pub fn iter(&self) -> (kinds: Vec<EventKind>)
        ensures
            kinds@.len() == self@.len(),
            forall|i: int| 0 <= i < kinds@.len() ==> (#[trigger] kinds@[i]).index == i,
    {
        let mut kinds: Vec<EventKind> = Vec::new();
        let mut i: usize = 0;
        while i < self.properties.len()
            invariant
                i <= self.properties.len(),
                kinds@.len() == i,
                forall|k: int| 0 <= k < i ==> (#[trigger] kinds@[k]).index == k,
            decreases self.properties.len() - i,
        {
            kinds.push(EventKind { index: i });
            i += 1;
        }
        kinds
    }

    /// The tag of a kind: the name of its property.
    pub fn tag(&self, kind: EventKind) -> (tag: &str)
        requires
            self.has(kind),
        ensures
            tag@ == self@[kind.index as int].0,
    {
        self.properties[kind.index].name.as_str()
    }

    /// The type of the payload that events of a kind carry.
    pub fn payload_type(&self, kind: EventKind) -> (payload: &str)
        requires
            self.has(kind),
        ensures
            payload@ == self@[kind.index as int].1,
    {
        self.properties[kind.index].payload.as_str()
    }

    /// The kind with the given tag.
    pub fn kind_of(&self, tag: &str) -> (found: Result<EventKind, UnknownEventKind>)
        ensures
            match found {
                Ok(kind) => kind_tagged(self@, tag@) == Some(kind.index as int) && self.has(kind),
                Err(unknown) => kind_tagged(self@, tag@) is None && unknown.tag@ == tag@,
            },
    {
        let wanted = tag.to_owned();
        let mut i: usize = 0;
        while i < self.properties.len()
            invariant
                i <= self.properties.len(),
                wanted@ == tag@,
                forall|k: int| 0 <= k < i ==> (#[trigger] self@[k]).0 != tag@,
            decreases self.properties.len() - i,
        {
            if self.properties[i].name == wanted {
                proof {
                    use_type_invariant(self);
                    lemma_tagged(self@, i as int);
                }
                return Ok(EventKind { index: i });
            }
            i += 1;
        }
        Err(UnknownEventKind { tag: wanted })
    }

    /// The kind whose payload has the given type.
    pub fn kind_of_payload(&self, payload_type: &str) -> (found: Option<EventKind>)
        ensures
            match found {
                Some(kind) => kind_carrying(self@, payload_type@) == Some(kind.index as int)
                    && self.has(kind),
                None => kind_carrying(self@, payload_type@) is None,
            },
    {
        let wanted = payload_type.to_owned();
        let mut i: usize = 0;
        while i < self.properties.len()
            invariant
                i <= self.properties.len(),
                wanted@ == payload_type@,
                forall|k: int| 0 <= k < i ==> (#[trigger] self@[k]).1 != payload_type@,
            decreases self.properties.len() - i,
        {
            if self.properties[i].payload == wanted {
                proof {
                    use_type_invariant(self);
                    lemma_carrying(self@, i as int);
                }
                return Some(EventKind { index: i });
            }
            i += 1;
        }
        None
    }

    /// Lifts a payload to the event of the kind that its type belongs to.
    /// A payload of a type that the schema does not name is handed back.
    pub fn lift(&self, payload: EventPayload) -> (made: Result<TelemetryEvent, EventPayload>)
        ensures
            match made {
                Ok(event) => lifted(self@, payload.payload_type@, payload.fields@) == Some(event@)
                    && self.holds(event),
                Err(back) => lifted(self@, payload.payload_type@, payload.fields@) is None && back
                    == payload,
            },
    {
        match self.kind_of_payload(payload.payload_type.as_str()) {
            Some(kind) => Ok(TelemetryEvent { kind, fields: payload.fields }),
            None => Err(payload),
        }
    }

    /// The payload of an event, under the name of its type.
    pub fn payload(&self, event: &TelemetryEvent) -> (payload: EventPayload)
        requires
            self.holds(*event),
        ensures
            payload.payload_type@ == self@[event@.0].1,
            payload.fields@ == event@.1,
    {
        EventPayload {
            payload_type: self.properties[event.kind.index].payload.clone(),
            fields: event.fields.clone(),
        }
    }

    /// The wire form of an event: the tag of its kind and the payload's fields.
    pub fn serialize(&self, event: &TelemetryEvent) -> (wire: WireEvent)
        requires
            self.holds(*event),
        ensures
            (wire.tag@, wire.fields@) == wire_form(self@, event@.0, event@.1),
    {
        WireEvent {
            tag: self.properties[event.kind.index].name.clone(),
            fields: event.fields.clone(),
        }
    }

    /// The JSON text of a batch, as it is uploaded. The fields of each event
    /// are written as they stand: they are the payload's own JSON.
    pub fn to_json(&self, batch: &Vec<TelemetryEvent>) -> (json: Vec<u8>)
        requires
            forall|i: int| 0 <= i < batch@.len() ==> self.holds(#[trigger] batch@[i]),
        ensures
            json@ == batch_json(self@, batch_view(batch@)),
    {
        let ghost events = batch_view(batch@);
        let mut json: Vec<u8> = Vec::new();
        json.push(0x5b);
        let mut i: usize = 0;
        while i < batch.len()
            invariant
                i <= batch.len(),
                events == batch_view(batch@),
                forall|k: int| 0 <= k < batch@.len() ==> self.holds(#[trigger] batch@[k]),
                json@ == seq![0x5bu8] + events_json(self@, events.take(i as int)),
            decreases batch.len() - i,
        {
            let ghost before = json@;
            let event = &batch[i];
            assert(events.take(i + 1).drop_last() =~= events.take(i as int));
            if i > 0 {
                json.push(0x2c);
            }
            json.push(0x7b);
            json.push(0x22);
            let tag = self.properties[event.kind.index].name.as_str().as_bytes();
            let mut j: usize = 0;
            while j < tag.len()
                invariant
                    j <= tag.len(),
                    json@ == before + (if i > 0 {
                        seq![0x2cu8]
                    } else {
                        Seq::<u8>::empty()
                    }) + seq![0x7bu8, 0x22u8] + tag@.take(j as int),
                decreases tag.len() - j,
            {
                json.push(tag[j]);
                j += 1;
            }
            json.push(0x22);
            json.push(0x3a);
            let ghost tagged = json@;
            let mut j: usize = 0;
            while j < event.fields.len()
                invariant
                    j <= event.fields.len(),
                    json@ == tagged + event.fields@.take(j as int),
                decreases event.fields.len() - j,
            {
                json.push(event.fields[j]);
                j += 1;
            }
            json.push(0x7d);
            i += 1;
        }
        assert(events.take(i as int) =~= events);
        json.push(0x5d);
        json
    }

    /// The event that a wire form stands for. A tag that no kind has is an
    /// error, never passed over.
    pub fn deserialize(&self, wire: WireEvent) -> (read: Result<TelemetryEvent, UnknownEventKind>)
        ensures
            match read {
                Ok(event) => read_back(self@, wire.tag@, wire.fields@) == Some(event@)
                    && self.holds(event),
                Err(unknown) => read_back(self@, wire.tag@, wire.fields@) is None && unknown.tag@
                    == wire.tag@,
            },
    {
        match self.kind_of(wire.tag.as_str()) {
            Ok(kind) => Ok(TelemetryEvent { kind, fields: wire.fields }),
            Err(unknown) => Err(unknown),
        }
    }
}

/// In a closed schema a kind is the one and only kind with its tag.
pub proof fn lemma_tagged(schema: Schema, kind: int)
    requires
        closed_schema(schema),
        0 <= kind < schema.len(),
    ensures
        kind_tagged(schema, schema[kind].0) == Some(kind),
{
    let tag = schema[kind].0;
    let found = kind_tagged(schema, tag)->0;
    assert(fits(schema, kind));
    assert(fits(schema, found));
}

/// In a closed schema a kind is the one and only kind with its payload type.
pub proof fn lemma_carrying(schema: Schema, kind: int)
    requires
        closed_schema(schema),
        0 <= kind < schema.len(),
    ensures
        kind_carrying(schema, schema[kind].1) == Some(kind),
{
    let payload = schema[kind].1;
    let found = kind_carrying(schema, payload)->0;
    assert(fits(schema, kind));
    assert(fits(schema, found));
}

/// Kinds, tags and payload types stand in a one-to-one relation: two kinds of
/// a closed schema share a tag, or a payload type, only where they are one kind.
pub proof fn lemma_one_to_one(schema: Schema, a: int, b: int)
    requires
        closed_schema(schema),
        0 <= a < schema.len(),
        0 <= b < schema.len(),
    ensures
        schema[a].0 == schema[b].0 <==> a == b,
        schema[a].1 == schema[b].1 <==> a == b,
{
    assert(fits(schema, a));
    assert(fits(schema, b));
}

/// The round trip loses nothing: a payload of a kind's type is lifted to an
/// event of that kind, and reading the wire form of that event gives the
/// same kind and the same fields back.
pub proof fn lemma_round_trip(schema: Schema, kind: int, fields: Seq<u8>)
    requires
        closed_schema(schema),
        0 <= kind < schema.len(),
    ensures
        lifted(schema, schema[kind].1, fields) == Some((kind, fields)),
        read_back(
            schema,
            wire_form(schema, kind, fields).0,
            wire_form(schema, kind, fields).1,
        ) == Some((kind, fields)),
{
    lemma_carrying(schema, kind);
    lemma_tagged(schema, kind);
}

} // verus!
