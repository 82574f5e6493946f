use std::str::FromStr;

use proc_macro2::TokenStream;
use scrypto_import::{
    check_component_names, check_component_supported, generate_import, handle_import, Component,
    Fields, ImportError, Method, Mutability, Type, Variant,
};

/// Compares two pieces of code token by token. A `>` that closes generic
/// arguments is printed apart from the next punctuation, as `quote!` builds
/// it; the expected text below writes a space there for the same reason.
fn assert_code_eq(a: &str, b: &str) {
    let a = TokenStream::from_str(a).unwrap();
    let b = TokenStream::from_str(b).unwrap();
    assert_eq!(a.to_string(), b.to_string());
}

fn s(x: &str) -> String {
    x.to_string()
}

/// The ABI of the `Sample` blueprint used by the scrypto tests.
fn sample_component() -> Component {
    let floor = Type::Struct {
        name: s("Floor"),
        fields: Fields::Named { named: vec![(s("x"), Type::U32), (s("y"), Type::U32)] },
    };
    let hello = Type::Enum {
        name: s("Hello"),
        variants: vec![
            Variant { name: s("A"), fields: Fields::Named { named: vec![(s("x"), Type::U32)] } },
            Variant { name: s("B"), fields: Fields::Unnamed { unnamed: vec![Type::U32] } },
            Variant { name: s("C"), fields: Fields::Unit },
        ],
    };
    Component {
        blueprint: s("056967d3d49213394892980af59be76e9b3e7cc4cb78237460d0c7"),
        name: s("Sample"),
        methods: vec![
            Method {
                name: s("stateless_func"),
                mutability: Mutability::Stateless,
                inputs: vec![],
                output: Type::U32,
            },
            Method {
                name: s("calculate_volume"),
                mutability: Mutability::Immutable,
                inputs: vec![
                    floor,
                    Type::Tuple { elements: vec![Type::U8, Type::U16] },
                    Type::Vec { element: Box::new(Type::String) },
                    Type::U32,
                    hello,
                    Type::Array { element: Box::new(Type::String), length: 2 },
                ],
                output: Type::U32,
            },
        ],
    }
}

#[test]
fn test_import() {
    let output = handle_import(&sample_component()).ok().unwrap();

    assert_code_eq(
        &output,
        r#"
            pub struct Sample {
                address: scrypto::types::Address
            }
            #[derive(Debug, sbor::Encode, sbor::Decode)]
            pub struct Floor {
                pub x: u32,
                pub y: u32,
            }
            #[derive(Debug, sbor::Encode, sbor::Decode)]
            pub enum Hello {
                A { x: u32 },
                B(u32),
                C
            }
            impl Sample {
                pub fn from_address(address: scrypto::types::Address) -> Self {
                    Self { address }
                }
                pub fn stateless_func() -> u32 {
                    let address = scrypto::types::Address::from_hex(
                        "056967d3d49213394892980af59be76e9b3e7cc4cb78237460d0c7"
                    )
                    .unwrap();
                    scrypto::call!(u32, "Sample", "stateless_func", address)
                }
                pub fn calculate_volume(
                    &self,
                    arg0: Floor,
                    arg1: (u8, u16),
                    arg2: Vec<String> ,
                    arg3: u32,
                    arg4: Hello,
                    arg5: [String; 2usize]
                ) -> u32 {
                    let address = self.address;
                    scrypto::call!(
                        u32,
                        "Sample",
                        "calculate_volume",
                        address,
                        arg0,
                        arg1,
                        arg2,
                        arg3,
                        arg4,
                        arg5
                    )
                }
            }
        "#,
    );
}

fn single_method(component: &str, method: &str, mutability: Mutability, inputs: Vec<Type>) -> Component {
    Component {
        blueprint: s("0123"),
        name: s(component),
        methods: vec![Method { name: s(method), mutability, inputs, output: Type::Unit }],
    }
}

#[test]
fn test_import_mutable_method() {
    let c = single_method("Counter", "increment", Mutability::Mutable, vec![Type::U64]);
    let output = handle_import(&c).ok().unwrap();
    assert_code_eq(
        &output,
        r#"
            pub struct Counter { address: scrypto::types::Address }
            impl Counter {
                pub fn from_address(address: scrypto::types::Address) -> Self { Self { address } }
                pub fn increment(&mut self, arg0: u64) -> () {
                    let address = self.address;
                    scrypto::call!((), "Counter", "increment", address, arg0)
                }
            }
        "#,
    );
}

#[test]
fn test_import_without_methods() {
    let c = Component { blueprint: s("00"), name: s("Empty"), methods: vec![] };
    let output = generate_import(&c);
    assert_code_eq(
        &output,
        r#"
            pub struct Empty { address: scrypto::types::Address }
            impl Empty {
                pub fn from_address(address: scrypto::types::Address) -> Self { Self { address } }
            }
        "#,
    );
}

#[test]
fn test_import_quotes_names() {
    // The blueprint address and the names reach the call as string literals.
    let c = single_method("Sample", "get", Mutability::Stateless, vec![]);
    let output = handle_import(&c).ok().unwrap();
    assert!(output.contains("from_hex ( \"0123\" )"));
    assert!(output.contains("\"Sample\" , \"get\""));
}

#[test]
fn test_import_unnamed_fields_error() {
    let point = Type::Struct { name: s("Point"), fields: Fields::Unnamed { unnamed: vec![Type::U8] } };
    let c = single_method("Sample", "draw", Mutability::Immutable, vec![point]);
    assert!(!check_component_supported(&c));
    assert!(matches!(handle_import(&c), Err(ImportError::UnnamedFields)));
    // A struct without named fields is reported before a bad name.
    let unit = Type::Struct { name: s("Unit"), fields: Fields::Unit };
    let c = single_method("fn", "draw", Mutability::Immutable, vec![unit]);
    assert!(matches!(handle_import(&c), Err(ImportError::UnnamedFields)));
}

#[test]
fn test_import_invalid_ident_error() {
    let c = single_method("fn", "draw", Mutability::Immutable, vec![]);
    assert!(check_component_supported(&c));
    assert!(!check_component_names(&c));
    assert!(matches!(handle_import(&c), Err(ImportError::InvalidIdent)));
    // A method name cannot be a raw identifier.
    let c = single_method("Sample", "r#draw", Mutability::Immutable, vec![]);
    assert!(matches!(handle_import(&c), Err(ImportError::InvalidIdent)));
    // Nor can a field name be a keyword.
    let bad = Type::Struct {
        name: s("Point"),
        fields: Fields::Named { named: vec![(s("match"), Type::U8)] },
    };
    let c = single_method("Sample", "draw", Mutability::Immutable, vec![bad]);
    assert!(matches!(handle_import(&c), Err(ImportError::InvalidIdent)));
    assert!(check_component_names(&sample_component()));
}

#[test]
fn test_import_argument_names_distinct() {
    let inputs: Vec<Type> = (0..12).map(|_| Type::U8).collect();
    let c = single_method("Sample", "many", Mutability::Stateless, inputs);
    let output = handle_import(&c).ok().unwrap();
    let mut names: Vec<String> = Vec::new();
    for i in 0..12 {
        let decl = format!("arg{} : u8", i);
        assert!(output.contains(&decl));
        names.push(format!("arg{}", i));
    }
    names.sort();
    names.dedup();
    assert_eq!(names.len(), 12);
    assert!(output.contains(", arg10 , arg11 )"));
}

#[test]
fn test_import_one_declaration_per_named_type() {
    // The component's struct, then Floor and Hello for calculate_volume:
    // each declaration on a line of its own, then the impl block.
    let output = handle_import(&sample_component()).ok().unwrap();
    let lines: Vec<&str> = output.lines().collect();
    assert_eq!(lines.len(), 4);
    assert!(lines[0].starts_with("pub struct Sample"));
    assert!(lines[1].contains("pub struct Floor"));
    assert!(lines[2].contains("pub enum Hello"));
    assert!(lines[3].starts_with("impl Sample"));
}

#[test]
fn test_import_underscore_field() {
    let padded = Type::Struct {
        name: s("Padded"),
        fields: Fields::Named { named: vec![(s("_"), Type::U8), (s("value"), Type::U32)] },
    };
    let c = single_method("Sample", "store", Mutability::Mutable, vec![padded]);
    let output = handle_import(&c).ok().unwrap();
    assert_code_eq(
        &output,
        r#"
            pub struct Sample { address: scrypto::types::Address }
            #[derive(Debug, sbor::Encode, sbor::Decode)]
            pub struct Padded { pub _: u8, pub value: u32, }
            impl Sample {
                pub fn from_address(address: scrypto::types::Address) -> Self { Self { address } }
                pub fn store(&mut self, arg0: Padded) -> () {
                    let address = self.address;
                    scrypto::call!((), "Sample", "store", address, arg0)
                }
            }
        "#,
    );
}
