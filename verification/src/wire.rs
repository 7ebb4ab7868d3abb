//! The IBus wire values an engine sends, in the GVariant shapes ibus itself
//! emits: every `IBusSerializable` is a tuple `(s type name, a{sv}
//! attachments, …fields)`, and every nested serialisable rides inside a
//! `v`. Field ORDER is the compatibility contract, so each builder states
//! its value exactly, and the laws below give the D-Bus type signature
//! ([`signature_of`]) each kind of value is sent under.
//!
//! Handing a value to the bus (as a `zvariant::Value`) is the caller's;
//! the conversion is one to one.

use vstd::prelude::*;

verus! {

/// `IBUS_ATTR_TYPE_UNDERLINE`.
pub const ATTR_TYPE_UNDERLINE: u32 = 1;

/// `IBUS_ATTR_UNDERLINE_SINGLE`.
pub const ATTR_UNDERLINE_SINGLE: u32 = 1;

/// A value as it goes on the wire.
#[derive(Debug)]
pub enum WireValue {
    /// `s`
    Str(String),
    /// `u`
    U32(u32),
    /// `i`
    I32(i32),
    /// `b`
    Bool(bool),
    /// `a{sv}`, empty: the attachments dictionary no engine of ours fills.
    Attachments,
    /// `v`: a value boxed in a variant.
    Boxed(Box<WireValue>),
    /// `av`: each item boxed in a variant.
    Variants(Vec<WireValue>),
    /// `(…)`: the fields in order.
    Structure(Vec<WireValue>),
}

/// A wire value with its strings as character sequences.
pub enum WireShape {
    Str(Seq<char>),
    U32(u32),
    I32(i32),
    Bool(bool),
    Attachments,
    Boxed(Box<WireShape>),
    Variants(Seq<WireShape>),
    Structure(Seq<WireShape>),
}

/// The value as a shape: its strings read as their characters.
pub open spec fn shape_of(value: WireValue) -> WireShape
    decreases value, 1int,
{
    match value {
        WireValue::Str(s) => WireShape::Str(s@),
        WireValue::U32(n) => WireShape::U32(n),
        WireValue::I32(n) => WireShape::I32(n),
        WireValue::Bool(b) => WireShape::Bool(b),
        WireValue::Attachments => WireShape::Attachments,
        WireValue::Boxed(inner) => WireShape::Boxed(Box::new(shape_of(*inner))),
        WireValue::Variants(items) => WireShape::Variants(shapes_of(items@)),
        WireValue::Structure(fields) => WireShape::Structure(shapes_of(fields@)),
    }
}

/// The shapes of `values`, in order.
pub open spec fn shapes_of(values: Seq<WireValue>) -> Seq<WireShape>
    decreases values, 0int,
{
    if values.len() == 0 {
        Seq::empty()
    } else {
        shapes_of(values.subrange(0, values.len() - 1)).push(shape_of(values.last()))
    }
}

/// The D-Bus type signature of a value.
pub open spec fn signature_of(shape: WireShape) -> Seq<char>
    decreases shape, 1int,
{
    match shape {
        WireShape::Str(_) => seq!['s'],
        WireShape::U32(_) => seq!['u'],
        WireShape::I32(_) => seq!['i'],
        WireShape::Bool(_) => seq!['b'],
        WireShape::Attachments => seq!['a', '{', 's', 'v', '}'],
        WireShape::Boxed(_) => seq!['v'],
        WireShape::Variants(_) => seq!['a', 'v'],
        WireShape::Structure(fields) => seq!['('] + signatures_of(fields) + seq![')'],
    }
}

/// The signatures of the fields, one after another.
pub open spec fn signatures_of(fields: Seq<WireShape>) -> Seq<char>
    decreases fields, 0int,
{
    if fields.len() == 0 {
        Seq::empty()
    } else {
        signatures_of(fields.subrange(0, fields.len() - 1)) + signature_of(fields.last())
    }
}

proof fn lemma_shapes_of_index(values: Seq<WireValue>)
    ensures
        shapes_of(values).len() == values.len(),
        forall|i: int| 0 <= i < values.len() ==> #[trigger] shapes_of(values)[i] == shape_of(values[i]),
    decreases values.len(),
{
    if values.len() > 0 {
        lemma_shapes_of_index(values.subrange(0, values.len() - 1));
    }
}

/// `(s type name, a{sv}, …fields)`.
pub open spec fn serializable_shape(class_name: Seq<char>, fields: Seq<WireShape>) -> WireShape {
    WireShape::Structure(seq![WireShape::Str(class_name), WireShape::Attachments] + fields)
}

fn serializable(class_name: &str, fields: Vec<WireValue>) -> (value: WireValue)
    ensures
        shape_of(value) == serializable_shape(class_name@, shapes_of(fields@)),
{
    let ghost given = fields@;
    let mut all: Vec<WireValue> = Vec::new();
    all.push(WireValue::Str(String::from_str(class_name)));
    all.push(WireValue::Attachments);
    let mut fields = fields;
    all.append(&mut fields);
    proof {
        lemma_shapes_of_index(all@);
        lemma_shapes_of_index(given);
        let expected = seq![WireShape::Str(class_name@), WireShape::Attachments] + shapes_of(
            given,
        );
        assert(shapes_of(all@) =~= expected) by {
            assert forall|i: int| 0 <= i < expected.len() implies shapes_of(all@)[i]
                == expected[i] by {
                if i >= 2 {
                    assert(all@[i] == given[i - 2]);
                }
            }
        }
    }
    WireValue::Structure(all)
}

/// `IBusAttribute` = `("IBusAttribute", a{sv}, u type, u value, u start,
/// u end)`. Indices are in characters, start inclusive, end exclusive.
pub open spec fn attribute_shape(kind: u32, value: u32, start: u32, end: u32) -> WireShape {
    serializable_shape(
        "IBusAttribute"@,
        seq![WireShape::U32(kind), WireShape::U32(value), WireShape::U32(start), WireShape::U32(end)],
    )
}

pub fn attribute(kind: u32, value: u32, start: u32, end: u32) -> (attribute: WireValue)
    ensures
        shape_of(attribute) == attribute_shape(kind, value, start, end),
        shape_of(attribute) == WireShape::Structure(
            seq![
                WireShape::Str("IBusAttribute"@),
                WireShape::Attachments,
                WireShape::U32(kind),
                WireShape::U32(value),
                WireShape::U32(start),
                WireShape::U32(end),
            ],
        ),
{
    let mut fields: Vec<WireValue> = Vec::new();
    fields.push(WireValue::U32(kind));
    fields.push(WireValue::U32(value));
    fields.push(WireValue::U32(start));
    fields.push(WireValue::U32(end));
    proof {
        lemma_shapes_of_index(fields@);
        assert(shapes_of(fields@) =~= seq![
            WireShape::U32(kind),
            WireShape::U32(value),
            WireShape::U32(start),
            WireShape::U32(end),
        ]);
    }
    proof {
        lemma_attribute_fields_in_order(kind, value, start, end);
    }
    serializable("IBusAttribute", fields)
}

/// A list of serialisables `("<class_name>", a{sv}, av)`: `IBusAttrList`
/// and `IBusPropList` have this shape.
pub open spec fn list_shape(class_name: Seq<char>, items: Seq<WireShape>) -> WireShape {
    serializable_shape(class_name, seq![WireShape::Variants(items)])
}

fn list(class_name: &str, items: Vec<WireValue>) -> (value: WireValue)
    ensures
        shape_of(value) == list_shape(class_name@, shapes_of(items@)),
{
    let ghost item_shapes = shapes_of(items@);
    let mut fields: Vec<WireValue> = Vec::new();
    fields.push(WireValue::Variants(items));
    proof {
        lemma_shapes_of_index(fields@);
        assert(shapes_of(fields@) =~= seq![WireShape::Variants(item_shapes)]);
    }
    serializable(class_name, fields)
}

/// `IBusAttrList` = `("IBusAttrList", a{sv}, av)`.
pub fn attr_list(attributes: Vec<WireValue>) -> (list_value: WireValue)
    ensures
        shape_of(list_value) == list_shape("IBusAttrList"@, shapes_of(attributes@)),
{
    list("IBusAttrList", attributes)
}

/// `IBusPropList` = `("IBusPropList", a{sv}, av)`.
pub fn prop_list(properties: Vec<WireValue>) -> (list_value: WireValue)
    ensures
        shape_of(list_value) == list_shape("IBusPropList"@, shapes_of(properties@)),
{
    list("IBusPropList", properties)
}

/// `IBusText` = `("IBusText", a{sv}, s text, v attrs)`; an absent list is
/// sent as an empty one.
pub open spec fn text_shape(text: Seq<char>, attributes: Seq<WireShape>) -> WireShape {
    serializable_shape(
        "IBusText"@,
        seq![
            WireShape::Str(text),
            WireShape::Boxed(Box::new(list_shape("IBusAttrList"@, attributes))),
        ],
    )
}

pub fn text(content: &str, attributes: Vec<WireValue>) -> (text_value: WireValue)
    ensures
        shape_of(text_value) == text_shape(content@, shapes_of(attributes@)),
{
    let ghost attribute_shapes = shapes_of(attributes@);
    let list_value = attr_list(attributes);
    let mut fields: Vec<WireValue> = Vec::new();
    fields.push(WireValue::Str(String::from_str(content)));
    fields.push(WireValue::Boxed(Box::new(list_value)));
    proof {
        lemma_shapes_of_index(fields@);
        assert(shapes_of(fields@) =~= seq![
            WireShape::Str(content@),
            WireShape::Boxed(Box::new(list_shape("IBusAttrList"@, attribute_shapes))),
        ]);
    }
    serializable("IBusText", fields)
}

/// A text with no attributes.
pub open spec fn plain_text_shape(text: Seq<char>) -> WireShape {
    text_shape(text, Seq::empty())
}

pub fn plain_text(text: &str) -> (text_value: WireValue)
    ensures
        shape_of(text_value) == plain_text_shape(text@),
{
    let attributes: Vec<WireValue> = Vec::new();
    proof {
        assert(shapes_of(attributes@) =~= Seq::<WireShape>::empty());
    }
    self::text(text, attributes)
}

/// The preedit: the whole string underlined once, the underline's end
/// counted in characters (never bytes), at most `u32::MAX`.
pub open spec fn preedit_shape(text: Seq<char>) -> WireShape {
    text_shape(
        text,
        seq![
            attribute_shape(
                ATTR_TYPE_UNDERLINE,
                ATTR_UNDERLINE_SINGLE,
                0,
                if text.len() <= u32::MAX {
                    text.len() as u32
                } else {
                    u32::MAX
                },
            ),
        ],
    )
}

pub fn preedit_text(text: &str) -> (text_value: WireValue)
    ensures
        shape_of(text_value) == preedit_shape(text@),
{
    let count = text.unicode_len();
    let length: u32 = if count <= 0xffff_ffff {
        count as u32
    } else {
        0xffff_ffff
    };
    let mut attributes: Vec<WireValue> = Vec::new();
    attributes.push(attribute(ATTR_TYPE_UNDERLINE, ATTR_UNDERLINE_SINGLE, 0, length));
    proof {
        lemma_shapes_of_index(attributes@);
        assert(shapes_of(attributes@) =~= seq![
            attribute_shape(ATTR_TYPE_UNDERLINE, ATTR_UNDERLINE_SINGLE, 0, length),
        ]);
    }
    self::text(text, attributes)
}

/// `IBUS_ORIENTATION_HORIZONTAL` / `VERTICAL`.
#[derive(Clone, Copy, Debug, PartialEq, Eq, Structural)]
pub enum Orientation {
    Horizontal,
    Vertical,
}

pub open spec fn orientation_code(orientation: Orientation) -> i32 {
    match orientation {
        Orientation::Horizontal => 0,
        Orientation::Vertical => 1,
    }
}

impl Orientation {
    /// The number ibus sends the orientation as.
    pub fn code(self) -> (code: i32)
        ensures
            code == orientation_code(self),
    {
        match self {
            Orientation::Horizontal => 0,
            Orientation::Vertical => 1,
        }
    }
}

/// The texts of `items`, each plain.
pub open spec fn plain_texts_shape(items: Seq<String>) -> Seq<WireShape> {
    Seq::new(items.len(), |i: int| plain_text_shape(items[i]@))
}

fn plain_texts(items: &[String]) -> (values: Vec<WireValue>)
    ensures
        shapes_of(values@) == plain_texts_shape(items@),
{
    let mut values: Vec<WireValue> = Vec::new();
    let mut i: usize = 0;
    while i < items.len()
        invariant
            i <= items@.len(),
            values@.len() == i,
            forall|j: int| 0 <= j < i ==> #[trigger] shape_of(values@[j]) == plain_text_shape(items@[j]@),
        decreases items@.len() - i,
    {
        values.push(plain_text(items[i].as_str()));
        i = i + 1;
    }
    proof {
        lemma_shapes_of_index(values@);
        assert(shapes_of(values@) =~= plain_texts_shape(items@));
    }
    values
}

/// `IBusLookupTable` = `("IBusLookupTable", a{sv}, u page_size,
/// u cursor_pos, b cursor_visible, b round, i orientation, av candidates,
/// av labels)`.
pub struct LookupTable<'a> {
    pub page_size: u32,
    pub cursor_pos: u32,
    pub cursor_visible: bool,
    /// Whether the last page wraps to the first.
    pub round: bool,
    pub orientation: Orientation,
    pub candidates: &'a [String],
    /// One label per page POSITION (the panel indexes them by row on the
    /// page), so `page_size` of them.
    pub labels: &'a [String],
}

pub open spec fn lookup_table_shape(table: LookupTable) -> WireShape {
    serializable_shape(
        "IBusLookupTable"@,
        seq![
            WireShape::U32(table.page_size),
            WireShape::U32(table.cursor_pos),
            WireShape::Bool(table.cursor_visible),
            WireShape::Bool(table.round),
            WireShape::I32(orientation_code(table.orientation)),
            WireShape::Variants(plain_texts_shape(table.candidates@)),
            WireShape::Variants(plain_texts_shape(table.labels@)),
        ],
    )
}

impl<'a> LookupTable<'a> {
    pub fn to_value(&self) -> (value: WireValue)
        ensures
            shape_of(value) == lookup_table_shape(*self),
            shape_of(value) matches WireShape::Structure(fields) && {
                &&& fields.len() == 9
                &&& fields[0] == WireShape::Str("IBusLookupTable"@)
                &&& fields[1] == WireShape::Attachments
                &&& fields[2] == WireShape::U32(self.page_size)
                &&& fields[3] == WireShape::U32(self.cursor_pos)
                &&& fields[4] == WireShape::Bool(self.cursor_visible)
                &&& fields[5] == WireShape::Bool(self.round)
                &&& fields[6] == WireShape::I32(
                    if self.orientation == Orientation::Horizontal {
                        0
                    } else {
                        1
                    },
                )
                &&& fields[7] is Variants && fields[7]->Variants_0.len() == self.candidates@.len()
                &&& fields[8] is Variants && fields[8]->Variants_0.len() == self.labels@.len()
            },
    {
        let candidates = plain_texts(self.candidates);
        let labels = plain_texts(self.labels);
        let mut fields: Vec<WireValue> = Vec::new();
        fields.push(WireValue::U32(self.page_size));
        fields.push(WireValue::U32(self.cursor_pos));
        fields.push(WireValue::Bool(self.cursor_visible));
        fields.push(WireValue::Bool(self.round));
        fields.push(WireValue::I32(self.orientation.code()));
        let ghost candidate_shapes = shapes_of(candidates@);
        let ghost label_shapes = shapes_of(labels@);
        fields.push(WireValue::Variants(candidates));
        fields.push(WireValue::Variants(labels));
        proof {
            lemma_shapes_of_index(fields@);
            assert(shapes_of(fields@) =~= seq![
                WireShape::U32(self.page_size),
                WireShape::U32(self.cursor_pos),
                WireShape::Bool(self.cursor_visible),
                WireShape::Bool(self.round),
                WireShape::I32(orientation_code(self.orientation)),
                WireShape::Variants(candidate_shapes),
                WireShape::Variants(label_shapes),
            ]);
        }
        serializable("IBusLookupTable", fields)
    }
}

/// `IBusPropType`.
#[derive(Clone, Copy, Debug, PartialEq, Eq, Structural)]
pub enum PropType {
    Normal,
    Menu,
    Separator,
}

pub open spec fn prop_type_code(kind: PropType) -> u32 {
    match kind {
        PropType::Normal => 0,
        PropType::Menu => 3,
        PropType::Separator => 4,
    }
}

impl PropType {
    /// The number ibus sends the type as.
    pub fn code(self) -> (code: u32)
        ensures
            code == prop_type_code(self),
    {
        match self {
            PropType::Normal => 0,
            PropType::Menu => 3,
            PropType::Separator => 4,
        }
    }
}

/// `IBusProperty` = `("IBusProperty", a{sv}, s key, u type, v label,
/// s icon, v tooltip, b sensitive, b visible, u state, v sub_props,
/// v symbol)`. `label`, `tooltip` and `symbol` are texts; `sub_props` is
/// a property list. No icon; every row sensitive and visible, unchecked.
pub struct Property<'a> {
    pub key: &'a str,
    pub kind: PropType,
    pub label: &'a str,
    /// The accelerator column: ibus draws the tooltip on hover, which is
    /// where the recorded chord goes.
    pub tooltip: &'a str,
    /// The panel's indicator text for a menu root (the mode label).
    pub symbol: &'a str,
    pub sub_props: Vec<WireValue>,
}

pub open spec fn property_shape(
    key: Seq<char>,
    kind: PropType,
    label: Seq<char>,
    tooltip: Seq<char>,
    symbol: Seq<char>,
    sub_props: Seq<WireShape>,
) -> WireShape {
    serializable_shape(
        "IBusProperty"@,
        seq![
            WireShape::Str(key),
            WireShape::U32(prop_type_code(kind)),
            WireShape::Boxed(Box::new(plain_text_shape(label))),
            WireShape::Str(Seq::empty()),
            WireShape::Boxed(Box::new(plain_text_shape(tooltip))),
            WireShape::Bool(true),
            WireShape::Bool(true),
            WireShape::U32(0),
            WireShape::Boxed(Box::new(list_shape("IBusPropList"@, sub_props))),
            WireShape::Boxed(Box::new(plain_text_shape(symbol))),
        ],
    )
}

impl<'a> Property<'a> {
    /// The property, its sub-properties moved into it.
    pub fn to_value(self) -> (value: WireValue)
        ensures
            shape_of(value) == property_shape(
                self.key@,
                self.kind,
                self.label@,
                self.tooltip@,
                self.symbol@,
                shapes_of(self.sub_props@),
            ),
            shape_of(value) matches WireShape::Structure(fields) && {
                &&& fields.len() == 12
                &&& fields[0] == WireShape::Str("IBusProperty"@)
                &&& fields[1] == WireShape::Attachments
                &&& fields[2] == WireShape::Str(self.key@)
                &&& fields[3] == WireShape::U32(
                    match self.kind {
                        PropType::Normal => 0u32,
                        PropType::Menu => 3u32,
                        PropType::Separator => 4u32,
                    },
                )
                &&& fields[4] == WireShape::Boxed(Box::new(plain_text_shape(self.label@)))
                &&& fields[5] == WireShape::Str(Seq::empty())
                &&& fields[6] == WireShape::Boxed(Box::new(plain_text_shape(self.tooltip@)))
                &&& fields[7] == WireShape::Bool(true)
                &&& fields[8] == WireShape::Bool(true)
                &&& fields[9] == WireShape::U32(0)
                &&& fields[11] == WireShape::Boxed(Box::new(plain_text_shape(self.symbol@)))
            },
    {
        let ghost sub_shapes = shapes_of(self.sub_props@);
        let label = plain_text(self.label);
        let tooltip = plain_text(self.tooltip);
        let symbol = plain_text(self.symbol);
        let sub_props = prop_list(self.sub_props);
        let mut fields: Vec<WireValue> = Vec::new();
        fields.push(WireValue::Str(String::from_str(self.key)));
        fields.push(WireValue::U32(self.kind.code()));
        fields.push(WireValue::Boxed(Box::new(label)));
        fields.push(WireValue::Str(String::new()));
        fields.push(WireValue::Boxed(Box::new(tooltip)));
        fields.push(WireValue::Bool(true));
        fields.push(WireValue::Bool(true));
        fields.push(WireValue::U32(0));
        fields.push(WireValue::Boxed(Box::new(sub_props)));
        fields.push(WireValue::Boxed(Box::new(symbol)));
        proof {
            lemma_shapes_of_index(fields@);
            assert(shapes_of(fields@) =~= seq![
                WireShape::Str(self.key@),
                WireShape::U32(prop_type_code(self.kind)),
                WireShape::Boxed(Box::new(plain_text_shape(self.label@))),
                WireShape::Str(Seq::empty()),
                WireShape::Boxed(Box::new(plain_text_shape(self.tooltip@))),
                WireShape::Bool(true),
                WireShape::Bool(true),
                WireShape::U32(0),
                WireShape::Boxed(Box::new(list_shape("IBusPropList"@, sub_shapes))),
                WireShape::Boxed(Box::new(plain_text_shape(self.symbol@))),
            ]);
        }
        serializable("IBusProperty", fields)
    }
}

proof fn lemma_signatures_of_push(fields: Seq<WireShape>, field: WireShape)
    ensures
        signatures_of(fields.push(field)) == signatures_of(fields) + signature_of(field),
{
    assert(fields.push(field).subrange(0, fields.len() as int) =~= fields);
}

proof fn lemma_signatures_of_append(a: Seq<WireShape>, b: Seq<WireShape>)
    ensures
        signatures_of(a + b) == signatures_of(a) + signatures_of(b),
    decreases b.len(),
{
    if b.len() == 0 {
        assert(a + b =~= a);
        assert(signatures_of(a) + signatures_of(b) =~= signatures_of(a));
    } else {
        let front = b.subrange(0, b.len() - 1);
        lemma_signatures_of_append(a, front);
        assert((a + b).subrange(0, (a + b).len() - 1) =~= a + front);
        assert((a + b).last() == b.last());
        assert(signatures_of(a + b) =~= signatures_of(a) + signatures_of(b));
    }
}

/// Every serialisable's signature opens with its name and its attachments.
proof fn lemma_serializable_signature(class_name: Seq<char>, fields: Seq<WireShape>)
    ensures
        signature_of(serializable_shape(class_name, fields)) == seq!['(', 's', 'a', '{', 's', 'v', '}']
            + signatures_of(fields) + seq![')'],
{
    let head = seq![WireShape::Str(class_name), WireShape::Attachments];
    let e = Seq::<WireShape>::empty();
    assert(head =~= e.push(head[0]).push(head[1]));
    lemma_signatures_of_push(e, head[0]);
    lemma_signatures_of_push(e.push(head[0]), head[1]);
    assert(signatures_of(e) =~= Seq::<char>::empty());
    lemma_signatures_of_append(head, fields);
    assert(signature_of(serializable_shape(class_name, fields)) =~= seq!['(', 's', 'a', '{', 's', 'v', '}']
        + signatures_of(fields) + seq![')']);
}

proof fn lemma_text_fields(text: Seq<char>, attributes: Seq<WireShape>)
    ensures
        signatures_of(seq![
            WireShape::Str(text),
            WireShape::Boxed(Box::new(list_shape("IBusAttrList"@, attributes))),
        ]) == seq!['s', 'v'],
{
    let fields = seq![
        WireShape::Str(text),
        WireShape::Boxed(Box::new(list_shape("IBusAttrList"@, attributes))),
    ];
    let e = Seq::<WireShape>::empty();
    let p1 = e.push(fields[0]);
    lemma_signatures_of_push(e, fields[0]);
    let p2 = p1.push(fields[1]);
    lemma_signatures_of_push(p1, fields[1]);
    assert(fields =~= p2);
    assert(signatures_of(e) =~= Seq::<char>::empty());
    assert(signatures_of(fields) =~= seq!['s', 'v']);
}

proof fn lemma_attribute_fields(kind: u32, value: u32, start: u32, end: u32)
    ensures
        signatures_of(seq![
            WireShape::U32(kind),
            WireShape::U32(value),
            WireShape::U32(start),
            WireShape::U32(end),
        ]) == seq!['u', 'u', 'u', 'u'],
{
    let fields = seq![
        WireShape::U32(kind),
        WireShape::U32(value),
        WireShape::U32(start),
        WireShape::U32(end),
    ];
    let e = Seq::<WireShape>::empty();
    let p1 = e.push(fields[0]);
    lemma_signatures_of_push(e, fields[0]);
    let p2 = p1.push(fields[1]);
    lemma_signatures_of_push(p1, fields[1]);
    let p3 = p2.push(fields[2]);
    lemma_signatures_of_push(p2, fields[2]);
    let p4 = p3.push(fields[3]);
    lemma_signatures_of_push(p3, fields[3]);
    assert(fields =~= p4);
    assert(signatures_of(e) =~= Seq::<char>::empty());
    assert(signatures_of(fields) =~= seq!['u', 'u', 'u', 'u']);
}

proof fn lemma_list_fields(items: Seq<WireShape>)
    ensures
        signatures_of(seq![
            WireShape::Variants(items),
        ]) == seq!['a', 'v'],
{
    let fields = seq![
        WireShape::Variants(items),
    ];
    let e = Seq::<WireShape>::empty();
    let p1 = e.push(fields[0]);
    lemma_signatures_of_push(e, fields[0]);
    assert(fields =~= p1);
    assert(signatures_of(e) =~= Seq::<char>::empty());
    assert(signatures_of(fields) =~= seq!['a', 'v']);
}

proof fn lemma_lookup_table_fields(table: LookupTable)
    ensures
        signatures_of(seq![
            WireShape::U32(table.page_size),
            WireShape::U32(table.cursor_pos),
            WireShape::Bool(table.cursor_visible),
            WireShape::Bool(table.round),
            WireShape::I32(orientation_code(table.orientation)),
            WireShape::Variants(plain_texts_shape(table.candidates@)),
            WireShape::Variants(plain_texts_shape(table.labels@)),
        ]) == seq!['u', 'u', 'b', 'b', 'i', 'a', 'v', 'a', 'v'],
{
    let fields = seq![
        WireShape::U32(table.page_size),
        WireShape::U32(table.cursor_pos),
        WireShape::Bool(table.cursor_visible),
        WireShape::Bool(table.round),
        WireShape::I32(orientation_code(table.orientation)),
        WireShape::Variants(plain_texts_shape(table.candidates@)),
        WireShape::Variants(plain_texts_shape(table.labels@)),
    ];
    let e = Seq::<WireShape>::empty();
    let p1 = e.push(fields[0]);
    lemma_signatures_of_push(e, fields[0]);
    let p2 = p1.push(fields[1]);
    lemma_signatures_of_push(p1, fields[1]);
    let p3 = p2.push(fields[2]);
    lemma_signatures_of_push(p2, fields[2]);
    let p4 = p3.push(fields[3]);
    lemma_signatures_of_push(p3, fields[3]);
    let p5 = p4.push(fields[4]);
    lemma_signatures_of_push(p4, fields[4]);
    let p6 = p5.push(fields[5]);
    lemma_signatures_of_push(p5, fields[5]);
    let p7 = p6.push(fields[6]);
    lemma_signatures_of_push(p6, fields[6]);
    assert(fields =~= p7);
    assert(signatures_of(e) =~= Seq::<char>::empty());
    assert(signatures_of(fields) =~= seq!['u', 'u', 'b', 'b', 'i', 'a', 'v', 'a', 'v']);
}

proof fn lemma_property_fields(
    key: Seq<char>,
    kind: PropType,
    label: Seq<char>,
    tooltip: Seq<char>,
    symbol: Seq<char>,
    sub_props: Seq<WireShape>,
)
    ensures
        signatures_of(seq![
            WireShape::Str(key),
            WireShape::U32(prop_type_code(kind)),
            WireShape::Boxed(Box::new(plain_text_shape(label))),
            WireShape::Str(Seq::empty()),
            WireShape::Boxed(Box::new(plain_text_shape(tooltip))),
            WireShape::Bool(true),
            WireShape::Bool(true),
            WireShape::U32(0),
            WireShape::Boxed(Box::new(list_shape("IBusPropList"@, sub_props))),
            WireShape::Boxed(Box::new(plain_text_shape(symbol))),
        ]) == seq!['s', 'u', 'v', 's', 'v', 'b', 'b', 'u', 'v', 'v'],
{
    let fields = seq![
        WireShape::Str(key),
        WireShape::U32(prop_type_code(kind)),
        WireShape::Boxed(Box::new(plain_text_shape(label))),
        WireShape::Str(Seq::empty()),
        WireShape::Boxed(Box::new(plain_text_shape(tooltip))),
        WireShape::Bool(true),
        WireShape::Bool(true),
        WireShape::U32(0),
        WireShape::Boxed(Box::new(list_shape("IBusPropList"@, sub_props))),
        WireShape::Boxed(Box::new(plain_text_shape(symbol))),
    ];
    let e = Seq::<WireShape>::empty();
    let p1 = e.push(fields[0]);
    lemma_signatures_of_push(e, fields[0]);
    let p2 = p1.push(fields[1]);
    lemma_signatures_of_push(p1, fields[1]);
    let p3 = p2.push(fields[2]);
    lemma_signatures_of_push(p2, fields[2]);
    let p4 = p3.push(fields[3]);
    lemma_signatures_of_push(p3, fields[3]);
    let p5 = p4.push(fields[4]);
    lemma_signatures_of_push(p4, fields[4]);
    let p6 = p5.push(fields[5]);
    lemma_signatures_of_push(p5, fields[5]);
    let p7 = p6.push(fields[6]);
    lemma_signatures_of_push(p6, fields[6]);
    let p8 = p7.push(fields[7]);
    lemma_signatures_of_push(p7, fields[7]);
    let p9 = p8.push(fields[8]);
    lemma_signatures_of_push(p8, fields[8]);
    let p10 = p9.push(fields[9]);
    lemma_signatures_of_push(p9, fields[9]);
    assert(fields =~= p10);
    assert(signatures_of(e) =~= Seq::<char>::empty());
    assert(signatures_of(fields) =~= seq!['s', 'u', 'v', 's', 'v', 'b', 'b', 'u', 'v', 'v']);
}

/// A text is sent under one signature whatever it says and however it is
/// marked up.
pub proof fn lemma_text_signature(text: Seq<char>, attributes: Seq<WireShape>)
    ensures
        signature_of(text_shape(text, attributes)) == "(sa{sv}sv)"@,
{
    lemma_text_fields(text, attributes);
    lemma_serializable_signature(
        "IBusText"@,
        seq![
            WireShape::Str(text),
            WireShape::Boxed(Box::new(list_shape("IBusAttrList"@, attributes))),
        ],
    );
    reveal_strlit("(sa{sv}sv)");
    assert(signature_of(text_shape(text, attributes)) =~= seq!['(', 's', 'a', '{', 's', 'v', '}', 's', 'v', ')']);
}

/// An attribute is sent under one signature.
pub proof fn lemma_attribute_signature(kind: u32, value: u32, start: u32, end: u32)
    ensures
        signature_of(attribute_shape(kind, value, start, end)) == "(sa{sv}uuuu)"@,
{
    lemma_attribute_fields(kind, value, start, end);
    lemma_serializable_signature(
        "IBusAttribute"@,
        seq![
            WireShape::U32(kind),
            WireShape::U32(value),
            WireShape::U32(start),
            WireShape::U32(end),
        ],
    );
    reveal_strlit("(sa{sv}uuuu)");
    assert(signature_of(attribute_shape(kind, value, start, end)) =~= seq!['(', 's', 'a', '{', 's', 'v', '}', 'u', 'u', 'u', 'u', ')']);
}

/// An attribute list and a property list are sent under one signature
/// whatever they hold.
pub proof fn lemma_list_signature(class_name: Seq<char>, items: Seq<WireShape>)
    ensures
        signature_of(list_shape(class_name, items)) == "(sa{sv}av)"@,
{
    lemma_list_fields(items);
    lemma_serializable_signature(
        class_name,
        seq![
            WireShape::Variants(items),
        ],
    );
    reveal_strlit("(sa{sv}av)");
    assert(signature_of(list_shape(class_name, items)) =~= seq!['(', 's', 'a', '{', 's', 'v', '}', 'a', 'v', ')']);
}

/// A lookup table is sent under one signature whatever it holds.
pub proof fn lemma_lookup_table_signature(table: LookupTable)
    ensures
        signature_of(lookup_table_shape(table)) == "(sa{sv}uubbiavav)"@,
{
    lemma_lookup_table_fields(table);
    lemma_serializable_signature(
        "IBusLookupTable"@,
        seq![
            WireShape::U32(table.page_size),
            WireShape::U32(table.cursor_pos),
            WireShape::Bool(table.cursor_visible),
            WireShape::Bool(table.round),
            WireShape::I32(orientation_code(table.orientation)),
            WireShape::Variants(plain_texts_shape(table.candidates@)),
            WireShape::Variants(plain_texts_shape(table.labels@)),
        ],
    );
    reveal_strlit("(sa{sv}uubbiavav)");
    assert(signature_of(lookup_table_shape(table)) =~= seq!['(', 's', 'a', '{', 's', 'v', '}', 'u', 'u', 'b', 'b', 'i', 'a', 'v', 'a', 'v', ')']);
}

/// A property is sent under one signature whatever it holds.
pub proof fn lemma_property_signature(
    key: Seq<char>,
    kind: PropType,
    label: Seq<char>,
    tooltip: Seq<char>,
    symbol: Seq<char>,
    sub_props: Seq<WireShape>,
)
    ensures
        signature_of(property_shape(key, kind, label, tooltip, symbol, sub_props)) == "(sa{sv}suvsvbbuvv)"@,
{
    lemma_property_fields(key, kind, label, tooltip, symbol, sub_props);
    lemma_serializable_signature(
        "IBusProperty"@,
        seq![
            WireShape::Str(key),
            WireShape::U32(prop_type_code(kind)),
            WireShape::Boxed(Box::new(plain_text_shape(label))),
            WireShape::Str(Seq::empty()),
            WireShape::Boxed(Box::new(plain_text_shape(tooltip))),
            WireShape::Bool(true),
            WireShape::Bool(true),
            WireShape::U32(0),
            WireShape::Boxed(Box::new(list_shape("IBusPropList"@, sub_props))),
            WireShape::Boxed(Box::new(plain_text_shape(symbol))),
        ],
    );
    reveal_strlit("(sa{sv}suvsvbbuvv)");
    assert(signature_of(property_shape(key, kind, label, tooltip, symbol, sub_props)) =~= seq!['(', 's', 'a', '{', 's', 'v', '}', 's', 'u', 'v', 's', 'v', 'b', 'b', 'u', 'v', 'v', ')']);
}

/// A lookup table is sent with its fields in ibus's order, each field
/// the table's own: page size, then cursor, then whether the cursor shows,
/// whether the last page wraps, the orientation (0 across, 1 down), the
/// candidates, the labels.
pub proof fn lemma_lookup_table_fields_in_order(table: LookupTable)
    ensures
        lookup_table_shape(table) matches WireShape::Structure(fields) && {
            &&& fields.len() == 9
            &&& fields[0] == WireShape::Str("IBusLookupTable"@)
            &&& fields[1] == WireShape::Attachments
            &&& fields[2] == WireShape::U32(table.page_size)
            &&& fields[3] == WireShape::U32(table.cursor_pos)
            &&& fields[4] == WireShape::Bool(table.cursor_visible)
            &&& fields[5] == WireShape::Bool(table.round)
            &&& fields[6] == WireShape::I32(
                if table.orientation == Orientation::Horizontal {
                    0
                } else {
                    1
                },
            )
            &&& fields[7] is Variants && fields[7]->Variants_0.len() == table.candidates@.len()
            &&& fields[8] is Variants && fields[8]->Variants_0.len() == table.labels@.len()
        },
{
}

/// An attribute is sent as its type, value, start and end, in that order.
pub proof fn lemma_attribute_fields_in_order(kind: u32, value: u32, start: u32, end: u32)
    ensures
        attribute_shape(kind, value, start, end) == WireShape::Structure(
            seq![
                WireShape::Str("IBusAttribute"@),
                WireShape::Attachments,
                WireShape::U32(kind),
                WireShape::U32(value),
                WireShape::U32(start),
                WireShape::U32(end),
            ],
        ),
{
    let head = seq![WireShape::Str("IBusAttribute"@), WireShape::Attachments];
    let rest = seq![
        WireShape::U32(kind),
        WireShape::U32(value),
        WireShape::U32(start),
        WireShape::U32(end),
    ];
    assert(head + rest =~= seq![
        WireShape::Str("IBusAttribute"@),
        WireShape::Attachments,
        WireShape::U32(kind),
        WireShape::U32(value),
        WireShape::U32(start),
        WireShape::U32(end),
    ]);
}

/// The preedit is sent as its text with one attribute, a single underline
/// from the first character to the last: its end counts characters, never
/// bytes (at most `u32::MAX`).
pub proof fn lemma_preedit_underlines_every_character(text: Seq<char>)
    ensures
        preedit_shape(text) matches WireShape::Structure(fields) && {
            &&& fields.len() == 4
            &&& fields[0] == WireShape::Str("IBusText"@)
            &&& fields[2] == WireShape::Str(text)
            &&& fields[3] matches WireShape::Boxed(list) && *list matches WireShape::Structure(
                list_fields,
            ) && list_fields.len() == 3 && list_fields[2] == WireShape::Variants(
                seq![
                    WireShape::Structure(
                        seq![
                            WireShape::Str("IBusAttribute"@),
                            WireShape::Attachments,
                            WireShape::U32(1),
                            WireShape::U32(1),
                            WireShape::U32(0),
                            WireShape::U32(
                                if text.len() <= u32::MAX {
                                    text.len() as u32
                                } else {
                                    u32::MAX
                                },
                            ),
                        ],
                    ),
                ],
            )
        },
{
    let end: u32 = if text.len() <= u32::MAX {
        text.len() as u32
    } else {
        u32::MAX
    };
    lemma_attribute_fields_in_order(1, 1, 0, end);
    let attrs = seq![attribute_shape(1, 1, 0, end)];
    let list = list_shape("IBusAttrList"@, attrs);
    assert(seq![WireShape::Str("IBusAttrList"@), WireShape::Attachments] + seq![
        WireShape::Variants(attrs),
    ] =~= seq![WireShape::Str("IBusAttrList"@), WireShape::Attachments, WireShape::Variants(attrs)]);
    assert(seq![WireShape::Str("IBusText"@), WireShape::Attachments] + seq![
        WireShape::Str(text),
        WireShape::Boxed(Box::new(list)),
    ] =~= seq![
        WireShape::Str("IBusText"@),
        WireShape::Attachments,
        WireShape::Str(text),
        WireShape::Boxed(Box::new(list)),
    ]);
}

} // verus!
