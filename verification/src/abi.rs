//! The ABI of a blueprint component: its methods and the types they exchange.

use vstd::prelude::*;

verus! {

/// The description of a value's type in a component's ABI.
#[derive(Debug)]
pub enum Type {
    Unit,
    Bool,
    I8,
    I16,
    I32,
    I64,
    I128,
    U8,
    U16,
    U32,
    U64,
    U128,
    String,
    H256,
    U256,
    Address,
    BID,
    RID,
    Option { value: Box<Type> },
    Box { value: Box<Type> },
    Struct { name: String, fields: Fields },
    Tuple { elements: Vec<Type> },
    Array { element: Box<Type>, length: u16 },
    Enum { name: String, variants: Vec<Variant> },
    Vec { element: Box<Type> },
    TreeSet { element: Box<Type> },
    TreeMap { key: Box<Type>, value: Box<Type> },
    HashSet { element: Box<Type> },
    HashMap { key: Box<Type>, value: Box<Type> },
}

/// The fields of a struct or of an enum variant.
#[derive(Debug)]
pub enum Fields {
    Named { named: Vec<(String, Type)> },
    Unnamed { unnamed: Vec<Type> },
    Unit,
}

/// One variant of an enum.
#[derive(Debug)]
pub struct Variant {
    pub name: String,
    pub fields: Fields,
}

/// How a method treats the component's state.
#[derive(Debug, Clone, Copy, PartialEq, Eq, Structural)]
pub enum Mutability {
    Stateless,
    Immutable,
    Mutable,
}

/// One method of a component.
#[derive(Debug)]
pub struct Method {
    pub name: String,
    pub mutability: Mutability,
    pub inputs: Vec<Type>,
    pub output: Type,
}

/// A component: the blueprint that publishes it, its name and its methods.
#[derive(Debug)]
pub struct Component {
    pub blueprint: String,
    pub name: String,
    pub methods: Vec<Method>,
}

} // verus!
