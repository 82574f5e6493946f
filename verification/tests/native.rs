use std::str::FromStr;

use proc_macro2::TokenStream;
use scrypto_import::{check_names, check_supported, get_native_type, Fields, Type, Variant};

fn tokens(code: &str) -> String {
    TokenStream::from_str(code).unwrap().to_string()
}

fn s(x: &str) -> String {
    x.to_string()
}

fn b(t: Type) -> Box<Type> {
    Box::new(t)
}

fn floor() -> Type {
    Type::Struct {
        name: s("Floor"),
        fields: Fields::Named { named: vec![(s("x"), Type::U32), (s("y"), Type::U32)] },
    }
}

fn hello() -> Type {
    Type::Enum {
        name: s("Hello"),
        variants: vec![
            Variant { name: s("A"), fields: Fields::Named { named: vec![(s("x"), Type::U32)] } },
            Variant { name: s("B"), fields: Fields::Unnamed { unnamed: vec![Type::U32] } },
            Variant { name: s("C"), fields: Fields::Unit },
        ],
    }
}

fn text_of(t: Type) -> String {
    get_native_type(&t).0
}

#[test]
fn test_primitive_types() {
    let cases = vec![
        (Type::Unit, "()"),
        (Type::Bool, "bool"),
        (Type::I8, "i8"),
        (Type::I16, "i16"),
        (Type::I32, "i32"),
        (Type::I64, "i64"),
        (Type::I128, "i128"),
        (Type::U8, "u8"),
        (Type::U16, "u16"),
        (Type::U32, "u32"),
        (Type::U64, "u64"),
        (Type::U128, "u128"),
        (Type::String, "String"),
        (Type::H256, "scrypto::types::H256"),
        (Type::U256, "scrypto::types::U256"),
        (Type::Address, "scrypto::types::Address"),
        (Type::BID, "scrypto::types::BID"),
        (Type::RID, "scrypto::types::RID"),
    ];
    for (t, expected) in cases {
        let (text, items) = get_native_type(&t);
        assert_eq!(text, expected);
        assert!(items.is_empty());
    }
}

#[test]
fn test_container_types() {
    assert_eq!(tokens(&text_of(Type::Option { value: b(Type::U8) })), tokens("Option<u8>"));
    assert_eq!(tokens(&text_of(Type::Box { value: b(Type::U8) })), tokens("Box<u8>"));
    assert_eq!(tokens(&text_of(Type::Vec { element: b(Type::String) })), tokens("Vec<String>"));
    assert_eq!(
        tokens(&text_of(Type::TreeSet { element: b(Type::U64) })),
        tokens("BTreeSet<u64>")
    );
    assert_eq!(
        tokens(&text_of(Type::HashSet { element: b(Type::U64) })),
        tokens("HashSet<u64>")
    );
    assert_eq!(
        tokens(&text_of(Type::TreeMap { key: b(Type::String), value: b(Type::Bool) })),
        tokens("BTreeMap<String, bool>")
    );
    assert_eq!(
        tokens(&text_of(Type::HashMap { key: b(Type::U8), value: b(Type::I8) })),
        tokens("HashMap<u8, i8>")
    );
    assert_eq!(
        tokens(&text_of(Type::Array { element: b(Type::U8), length: 32 })),
        tokens("[u8; 32usize]")
    );
    assert_eq!(
        tokens(&text_of(Type::Tuple { elements: vec![Type::U8, Type::U16, Type::Bool] })),
        tokens("(u8, u16, bool)")
    );
    assert_eq!(tokens(&text_of(Type::Tuple { elements: vec![] })), tokens("()"));
    // Nested generic arguments close with separate `>` tokens.
    assert_eq!(
        text_of(Type::Vec { element: b(Type::Option { value: b(Type::U8) }) }),
        "Vec < Option < u8 > >"
    );
}

#[test]
fn test_array_length_text() {
    assert_eq!(text_of(Type::Array { element: b(Type::U8), length: 0 }), "[ u8 ; 0usize ]");
    assert_eq!(
        text_of(Type::Array { element: b(Type::U8), length: 65535 }),
        "[ u8 ; 65535usize ]"
    );
}

#[test]
fn test_struct_declaration() {
    let (text, items) = get_native_type(&floor());
    assert_eq!(text, "Floor");
    assert_eq!(items.len(), 1);
    assert_eq!(
        tokens(&items[0]),
        tokens("#[derive(Debug, sbor::Encode, sbor::Decode)] pub struct Floor { pub x: u32, pub y: u32, }")
    );
}

#[test]
fn test_enum_declaration() {
    let (text, items) = get_native_type(&hello());
    assert_eq!(text, "Hello");
    assert_eq!(items.len(), 1);
    assert_eq!(
        tokens(&items[0]),
        tokens("#[derive(Debug, sbor::Encode, sbor::Decode)] pub enum Hello { A { x: u32 }, B(u32), C }")
    );
}

#[test]
fn test_nested_declarations_come_first() {
    let inner = Type::Struct {
        name: s("Inner"),
        fields: Fields::Named { named: vec![(s("a"), Type::U8)] },
    };
    let outer = Type::Struct {
        name: s("Outer"),
        fields: Fields::Named {
            named: vec![(s("inner"), inner), (s("list"), Type::Vec { element: b(hello()) })],
        },
    };
    let (text, items) = get_native_type(&outer);
    assert_eq!(text, "Outer");
    assert_eq!(items.len(), 3);
    assert!(items[0].contains("pub struct Inner"));
    assert!(items[1].contains("pub enum Hello"));
    assert_eq!(
        tokens(&items[2]),
        tokens("#[derive(Debug, sbor::Encode, sbor::Decode)] pub struct Outer { pub inner: Inner, pub list: Vec<Hello> , }")
    );
}

#[test]
fn test_one_declaration_per_named_type() {
    // Two mentions of `Floor` and one of `Hello`: three declarations, in order.
    let t = Type::Tuple {
        elements: vec![
            floor(),
            Type::Option { value: b(Type::TreeMap { key: b(floor()), value: b(hello()) }) },
            Type::U8,
        ],
    };
    let (text, items) = get_native_type(&t);
    assert_eq!(tokens(&text), tokens("(Floor, Option<BTreeMap<Floor, Hello> > , u8)"));
    assert_eq!(items.len(), 3);
    assert!(items[0].contains("pub struct Floor"));
    assert!(items[1].contains("pub struct Floor"));
    assert!(items[2].contains("pub enum Hello"));
    // A type without structs or enums needs no declaration.
    let plain = Type::HashMap { key: b(Type::String), value: b(Type::Vec { element: b(Type::U8) }) };
    assert!(get_native_type(&plain).1.is_empty());
}

#[test]
fn test_check_supported() {
    assert!(check_supported(&floor()));
    assert!(check_supported(&hello()));
    let tuple_struct = Type::Struct {
        name: s("Point"),
        fields: Fields::Unnamed { unnamed: vec![Type::U8] },
    };
    assert!(!check_supported(&tuple_struct));
    let unit_struct = Type::Struct { name: s("Empty"), fields: Fields::Unit };
    assert!(!check_supported(&Type::Vec { element: b(unit_struct) }));
}

#[test]
fn test_check_names() {
    assert!(check_names(&floor()));
    assert!(check_names(&hello()));
    let keyword_field = Type::Struct {
        name: s("Point"),
        fields: Fields::Named { named: vec![(s("self"), Type::U8)] },
    };
    assert!(!check_names(&keyword_field));
    let raw_field = Type::Struct {
        name: s("Point"),
        fields: Fields::Named { named: vec![(s("r#type"), Type::U8)] },
    };
    assert!(check_names(&raw_field));
    // A field may be named `_`, in structs and in enum variants.
    let underscore = Type::Struct {
        name: s("Point"),
        fields: Fields::Named { named: vec![(s("_"), Type::U8)] },
    };
    assert!(check_names(&underscore));
    let (_, items) = get_native_type(&underscore);
    assert_eq!(
        tokens(&items[0]),
        tokens("#[derive(Debug, sbor::Encode, sbor::Decode)] pub struct Point { pub _: u8, }")
    );
    let underscore_variant = Type::Enum {
        name: s("E"),
        variants: vec![Variant {
            name: s("A"),
            fields: Fields::Named { named: vec![(s("_"), Type::U8)] },
        }],
    };
    assert!(check_names(&underscore_variant));
    // But a struct, enum or variant cannot.
    let underscore_struct = Type::Struct { name: s("_"), fields: Fields::Named { named: vec![] } };
    assert!(!check_names(&underscore_struct));
    let bad_variant = Type::Enum {
        name: s("E"),
        variants: vec![Variant { name: s("1st"), fields: Fields::Unit }],
    };
    assert!(!check_names(&Type::Option { value: b(bad_variant) }));
}
