use taigikeyboard::wire::{
    attr_list, attribute, plain_text, preedit_text, prop_list, LookupTable, Orientation,
    PropType, Property, WireValue,
};
use zbus::zvariant::{Array, Dict, Signature, StructureBuilder, Value};

/// The value as `zvariant` sends it: one to one, a `Boxed` value and each
/// item of `Variants` inside a variant.
fn to_value(value: &WireValue) -> Value<'static> {
    match value {
        WireValue::Str(text) => Value::from(text.clone()),
        WireValue::U32(number) => Value::U32(*number),
        WireValue::I32(number) => Value::I32(*number),
        WireValue::Bool(flag) => Value::Bool(*flag),
        WireValue::Attachments => Value::Dict(Dict::new(&Signature::Str, &Signature::Variant)),
        WireValue::Boxed(inner) => Value::Value(Box::new(to_value(inner))),
        WireValue::Variants(items) => {
            let mut array = Array::new(&Signature::Variant);
            for item in items {
                array
                    .append(Value::Value(Box::new(to_value(item))))
                    .expect("an `av` accepts every boxed variant");
            }
            Value::Array(array)
        }
        WireValue::Structure(fields) => Value::Structure(
            fields
                .iter()
                .fold(StructureBuilder::new(), |builder, field| {
                    builder.append_field(to_value(field))
                })
                .build()
                .expect("a structure of wire values has a valid signature"),
        ),
    }
}

/// The D-Bus signature `zvariant` sends the value under.
fn signature(value: &WireValue) -> String {
    to_value(value).value_signature().to_string()
}

fn fields(value: &WireValue) -> &Vec<WireValue> {
    match value {
        WireValue::Structure(fields) => fields,
        _ => panic!("a serialisable is a structure"),
    }
}

fn is_str(value: &WireValue, expected: &str) -> bool {
    matches!(value, WireValue::Str(text) if text == expected)
}

fn is_u32(value: &WireValue, expected: u32) -> bool {
    matches!(value, WireValue::U32(n) if *n == expected)
}

#[test]
fn property_and_prop_list_have_the_ibus_signatures() {
    let row = Property {
        key: "settings",
        kind: PropType::Normal,
        label: "設定",
        tooltip: "Ctrl+Alt+S",
        symbol: "",
        sub_props: Vec::new(),
    }
    .to_value();
    assert_eq!(signature(&row), "(sa{sv}suvsvbbuvv)");
    let root = Property {
        key: "taigikeyboard",
        kind: PropType::Menu,
        label: "台語齒盤",
        tooltip: "",
        symbol: "台",
        sub_props: vec![row],
    }
    .to_value();
    assert_eq!(signature(&root), "(sa{sv}suvsvbbuvv)");
    assert_eq!(signature(&prop_list(vec![root])), "(sa{sv}av)");
}

#[test]
fn a_serialisable_starts_with_its_type_name_and_an_empty_attachment_dict() {
    let value = plain_text("x");
    assert_eq!(signature(&value), "(sa{sv}sv)");
    let structure = fields(&value);
    assert!(is_str(&structure[0], "IBusText"));
    assert_eq!(signature(&structure[1]), "a{sv}");
    assert!(is_str(&structure[2], "x"));
}

#[test]
fn text_attribute_and_attr_list_have_the_ibus_signatures() {
    assert_eq!(signature(&attribute(1, 1, 0, 3)), "(sa{sv}uuuu)");
    assert_eq!(signature(&attr_list(vec![])), "(sa{sv}av)");
    assert_eq!(signature(&preedit_text("tâi")), "(sa{sv}sv)");
}

#[test]
fn the_preedit_underline_spans_the_text_in_characters_not_bytes() {
    let text = preedit_text("tâi");
    let WireValue::Boxed(attrs) = &fields(&text)[3] else {
        panic!("attrs ride in a variant")
    };
    let WireValue::Variants(items) = &fields(attrs)[2] else {
        panic!()
    };
    // Each item of an `av` is boxed in a variant on the wire.
    let attribute = fields(&items[0]);
    assert!(is_str(&attribute[0], "IBusAttribute"));
    assert!(is_u32(&attribute[2], 1));
    assert!(is_u32(&attribute[3], 1));
    assert!(is_u32(&attribute[4], 0));
    assert!(is_u32(&attribute[5], 3));
    assert_eq!(attribute.len(), 6);
}

#[test]
fn the_lookup_table_signature_matches_ibus_lookup_table_serialize() {
    let candidates = vec!["台".to_owned(), "tâi".to_owned()];
    let labels = vec!["q".to_owned(), "w".to_owned()];
    let table = LookupTable {
        page_size: 9,
        cursor_pos: 0,
        cursor_visible: true,
        round: false,
        orientation: Orientation::Horizontal,
        candidates: &candidates,
        labels: &labels,
    };
    assert_eq!(signature(&table.to_value()), "(sa{sv}uubbiavav)");
    let value = table.to_value();
    let structure = fields(&value);
    assert!(matches!(structure[6], WireValue::I32(0)));
    let WireValue::Variants(items) = &structure[7] else {
        panic!()
    };
    assert_eq!(items.len(), 2);
}

#[test]
fn a_vertical_table_and_a_menu_root_carry_their_ibus_numbers() {
    assert_eq!(Orientation::Vertical.code(), 1);
    assert_eq!(Orientation::Horizontal.code(), 0);
    assert_eq!(PropType::Menu.code(), 3);
    assert_eq!(PropType::Separator.code(), 4);
    assert_eq!(PropType::Normal.code(), 0);
    let root = Property {
        key: "taigikeyboard",
        kind: PropType::Menu,
        label: "台語齒盤",
        tooltip: "",
        symbol: "台",
        sub_props: vec![],
    }
    .to_value();
    let structure = fields(&root);
    assert!(is_str(&structure[0], "IBusProperty"));
    assert!(is_str(&structure[2], "taigikeyboard"));
    assert!(is_u32(&structure[3], 3));
    assert!(is_str(&structure[5], ""));
    assert!(matches!(structure[7], WireValue::Bool(true)));
}

#[test]
fn an_empty_preedit_underlines_nothing() {
    let text = preedit_text("");
    let WireValue::Boxed(attrs) = &fields(&text)[3] else {
        panic!()
    };
    let WireValue::Variants(items) = &fields(attrs)[2] else {
        panic!()
    };
    assert!(is_u32(&fields(&items[0])[5], 0));
}
