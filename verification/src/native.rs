//! The Rust type that stands for an ABI type, and the declarations it needs.

use vstd::prelude::*;

use crate::abi::{Fields, Type, Variant};
use crate::ident::{field_ident_ok, ident_ok, is_field_ident, is_ident};
use crate::text::{decimal, join, join_strings, push_decimal};

verus! {

// ---------------------------------------------------------------------------
// Which types can be rendered
// ---------------------------------------------------------------------------

/// Every struct inside `ty` has named fields: the only kind of struct that
/// can be declared from an ABI.
pub open spec fn type_supported(ty: Type) -> bool
    decreases ty,
{
    match ty {
        Type::Option { value } => type_supported(*value),
        Type::Box { value } => type_supported(*value),
        Type::Struct { name, fields } => match fields {
            Fields::Named { named } => named_supported(named@),
            _ => false,
        },
        Type::Tuple { elements } => all_supported(elements@),
        Type::Array { element, length } => type_supported(*element),
        Type::Enum { name, variants } => variants_supported(variants@),
        Type::Vec { element } => type_supported(*element),
        Type::TreeSet { element } => type_supported(*element),
        Type::TreeMap { key, value } => type_supported(*key) && type_supported(*value),
        Type::HashSet { element } => type_supported(*element),
        Type::HashMap { key, value } => type_supported(*key) && type_supported(*value),
        _ => true,
    }
}

/// Each of the types `tys` is supported.
pub open spec fn all_supported(tys: Seq<Type>) -> bool
    decreases tys,
{
    tys.len() == 0 || (all_supported(tys.drop_last()) && type_supported(tys.last()))
}

/// The type of each named field is supported.
pub open spec fn named_supported(fs: Seq<(String, Type)>) -> bool
    decreases fs,
{
    fs.len() == 0 || (named_supported(fs.drop_last()) && type_supported(fs.last().1))
}

/// The types inside the fields `f` are supported.
pub open spec fn fields_supported(f: Fields) -> bool
    decreases f,
{
    match f {
        Fields::Named { named } => named_supported(named@),
        Fields::Unnamed { unnamed } => all_supported(unnamed@),
        Fields::Unit => true,
    }
}

/// The types inside the fields of each variant are supported.
pub open spec fn variants_supported(vs: Seq<Variant>) -> bool
    decreases vs,
{
    vs.len() == 0 || (variants_supported(vs.drop_last()) && fields_supported(vs.last().fields))
}

/// Every struct, enum and variant name inside `ty` is an identifier, and
/// every field name is an identifier or `_`.
pub open spec fn type_names_ok(ty: Type) -> bool
    decreases ty,
{
    match ty {
        Type::Option { value } => type_names_ok(*value),
        Type::Box { value } => type_names_ok(*value),
        Type::Struct { name, fields } => ident_ok(name@) && fields_names_ok(fields),
        Type::Tuple { elements } => all_names_ok(elements@),
        Type::Array { element, length } => type_names_ok(*element),
        Type::Enum { name, variants } => ident_ok(name@) && variants_names_ok(variants@),
        Type::Vec { element } => type_names_ok(*element),
        Type::TreeSet { element } => type_names_ok(*element),
        Type::TreeMap { key, value } => type_names_ok(*key) && type_names_ok(*value),
        Type::HashSet { element } => type_names_ok(*element),
        Type::HashMap { key, value } => type_names_ok(*key) && type_names_ok(*value),
        _ => true,
    }
}

/// The names inside each of the types `tys` are identifiers.
pub open spec fn all_names_ok(tys: Seq<Type>) -> bool
    decreases tys,
{
    tys.len() == 0 || (all_names_ok(tys.drop_last()) && type_names_ok(tys.last()))
}

/// Each field name is an identifier or `_`, and each name inside the field
/// types is an identifier.
pub open spec fn named_names_ok(fs: Seq<(String, Type)>) -> bool
    decreases fs,
{
    fs.len() == 0 || (named_names_ok(fs.drop_last()) && field_ident_ok(fs.last().0@) && type_names_ok(
        fs.last().1,
    ))
}

/// The names inside the fields `f` are identifiers.
pub open spec fn fields_names_ok(f: Fields) -> bool
    decreases f,
{
    match f {
        Fields::Named { named } => named_names_ok(named@),
        Fields::Unnamed { unnamed } => all_names_ok(unnamed@),
        Fields::Unit => true,
    }
}

/// Each variant name, and each name inside the variants' fields, is an identifier.
pub open spec fn variants_names_ok(vs: Seq<Variant>) -> bool
    decreases vs,
{
    vs.len() == 0 || (variants_names_ok(vs.drop_last()) && ident_ok(vs.last().name@)
        && fields_names_ok(vs.last().fields))
}

/// `ty` can be rendered: its structs have named fields and its names are identifiers.
pub open spec fn type_ok(ty: Type) -> bool {
    type_supported(ty) && type_names_ok(ty)
}

// ---------------------------------------------------------------------------
// The rendered text
// ---------------------------------------------------------------------------

/// The text of the Rust type that stands for `ty`.
pub open spec fn type_text(ty: Type) -> Seq<char>
    decreases ty,
{
    match ty {
        Type::Unit => "()"@,
        Type::Bool => "bool"@,
        Type::I8 => "i8"@,
        Type::I16 => "i16"@,
        Type::I32 => "i32"@,
        Type::I64 => "i64"@,
        Type::I128 => "i128"@,
        Type::U8 => "u8"@,
        Type::U16 => "u16"@,
        Type::U32 => "u32"@,
        Type::U64 => "u64"@,
        Type::U128 => "u128"@,
        Type::String => "String"@,
        Type::H256 => "scrypto::types::H256"@,
        Type::U256 => "scrypto::types::U256"@,
        Type::Address => "scrypto::types::Address"@,
        Type::BID => "scrypto::types::BID"@,
        Type::RID => "scrypto::types::RID"@,
        Type::Option { value } => "Option < "@ + type_text(*value) + " >"@,
        Type::Box { value } => "Box < "@ + type_text(*value) + " >"@,
        Type::Struct { name, fields } => name@,
        Type::Tuple { elements } => "( "@ + join(type_texts(elements@), " , "@) + " )"@,
        Type::Array { element, length } => "[ "@ + type_text(*element) + " ; "@ + decimal(
            length as nat,
        ) + "usize ]"@,
        Type::Enum { name, variants } => name@,
        Type::Vec { element } => "Vec < "@ + type_text(*element) + " >"@,
        Type::TreeSet { element } => "BTreeSet < "@ + type_text(*element) + " >"@,
        Type::TreeMap { key, value } => "BTreeMap < "@ + type_text(*key) + " , "@ + type_text(
            *value,
        ) + " >"@,
        Type::HashSet { element } => "HashSet < "@ + type_text(*element) + " >"@,
        Type::HashMap { key, value } => "HashMap < "@ + type_text(*key) + " , "@ + type_text(
            *value,
        ) + " >"@,
    }
}

/// The texts of the types `tys`, in order.
pub open spec fn type_texts(tys: Seq<Type>) -> Seq<Seq<char>>
    decreases tys,
{
    if tys.len() == 0 {
        Seq::empty()
    } else {
        type_texts(tys.drop_last()).push(type_text(tys.last()))
    }
}

/// `name : type` for each named field, in order.
pub open spec fn named_texts(fs: Seq<(String, Type)>) -> Seq<Seq<char>>
    decreases fs.len(),
{
    if fs.len() == 0 {
        Seq::empty()
    } else {
        named_texts(fs.drop_last()).push(fs.last().0@ + " : "@ + type_text(fs.last().1))
    }
}

/// The body of a struct declaration: `pub name : type ,` for each field.
pub open spec fn field_decls(texts: Seq<Seq<char>>) -> Seq<char>
    decreases texts.len(),
{
    if texts.len() == 0 {
        Seq::empty()
    } else {
        field_decls(texts.drop_last()) + "pub "@ + texts.last() + " , "@
    }
}

/// The attribute that every generated struct and enum carries.
pub open spec fn derive_attr() -> Seq<char> {
    "# [ derive ( Debug , sbor::Encode , sbor::Decode ) ]"@
}

/// The declaration of the struct `name` with the named fields `fs`.
pub open spec fn struct_decl(name: Seq<char>, fs: Seq<(String, Type)>) -> Seq<char> {
    derive_attr() + " pub struct "@ + name + " { "@ + field_decls(named_texts(fs)) + "}"@
}

/// The text of one enum variant.
pub open spec fn variant_text(v: Variant) -> Seq<char> {
    match v.fields {
        Fields::Named { named } => v.name@ + " { "@ + join(named_texts(named@), " , "@) + " }"@,
        Fields::Unnamed { unnamed } => v.name@ + " ( "@ + join(type_texts(unnamed@), " , "@)
            + " )"@,
        Fields::Unit => v.name@,
    }
}

/// The texts of the variants `vs`, in order.
pub open spec fn variant_texts(vs: Seq<Variant>) -> Seq<Seq<char>>
    decreases vs.len(),
{
    if vs.len() == 0 {
        Seq::empty()
    } else {
        variant_texts(vs.drop_last()).push(variant_text(vs.last()))
    }
}

/// The declaration of the enum `name` with the variants `vs`.
pub open spec fn enum_decl(name: Seq<char>, vs: Seq<Variant>) -> Seq<char> {
    derive_attr() + " pub enum "@ + name + " { "@ + join(variant_texts(vs), " , "@) + " }"@
}

// ---------------------------------------------------------------------------
// The declarations a type needs
// ---------------------------------------------------------------------------

/// The declarations of the structs and enums inside `ty`, each after the
/// declarations that its own fields need.
pub open spec fn type_items(ty: Type) -> Seq<Seq<char>>
    decreases ty,
{
    match ty {
        Type::Option { value } => type_items(*value),
        Type::Box { value } => type_items(*value),
        Type::Struct { name, fields } => match fields {
            Fields::Named { named } => named_items(named@).push(struct_decl(name@, named@)),
            _ => Seq::empty(),
        },
        Type::Tuple { elements } => list_items(elements@),
        Type::Array { element, length } => type_items(*element),
        Type::Enum { name, variants } => variant_items(variants@).push(enum_decl(name@, variants@)),
        Type::Vec { element } => type_items(*element),
        Type::TreeSet { element } => type_items(*element),
        Type::TreeMap { key, value } => type_items(*key) + type_items(*value),
        Type::HashSet { element } => type_items(*element),
        Type::HashMap { key, value } => type_items(*key) + type_items(*value),
        _ => Seq::empty(),
    }
}

/// The declarations that the types `tys` need, in order.
pub open spec fn list_items(tys: Seq<Type>) -> Seq<Seq<char>>
    decreases tys,
{
    if tys.len() == 0 {
        Seq::empty()
    } else {
        list_items(tys.drop_last()) + type_items(tys.last())
    }
}

/// The declarations that the types of the named fields `fs` need, in order.
pub open spec fn named_items(fs: Seq<(String, Type)>) -> Seq<Seq<char>>
    decreases fs,
{
    if fs.len() == 0 {
        Seq::empty()
    } else {
        named_items(fs.drop_last()) + type_items(fs.last().1)
    }
}

/// The declarations that the fields `f` need.
pub open spec fn fields_items(f: Fields) -> Seq<Seq<char>>
    decreases f,
{
    match f {
        Fields::Named { named } => named_items(named@),
        Fields::Unnamed { unnamed } => list_items(unnamed@),
        Fields::Unit => Seq::empty(),
    }
}

/// The declarations that the variants `vs` need, in order.
pub open spec fn variant_items(vs: Seq<Variant>) -> Seq<Seq<char>>
    decreases vs,
{
    if vs.len() == 0 {
        Seq::empty()
    } else {
        variant_items(vs.drop_last()) + fields_items(vs.last().fields)
    }
}

// ---------------------------------------------------------------------------
// Rendering
// ---------------------------------------------------------------------------

/// `prefix`, then `inner`, then `suffix`.
fn wrap(prefix: &str, inner: &String, suffix: &str) -> (r: String)
    ensures
        r@ == prefix@ + inner@ + suffix@,
{
    let mut s = String::from_str(prefix);
    s.append(inner.as_str());
    s.append(suffix);
    s
}

/// The declaration of the struct `name` whose fields render as `texts`.
fn struct_decl_string(name: &String, texts: &Vec<String>) -> (r: String)
    ensures
        r@ == derive_attr() + " pub struct "@ + name@ + " { "@ + field_decls(texts.deep_view())
            + "}"@,
{
    let mut body = String::new();
    let n = texts.len();
    let ghost dv = texts.deep_view();
    for i in 0..n
        invariant
            n == texts.len(),
            dv == texts.deep_view(),
            body@ == field_decls(dv.take(i as int)),
    {
        body.append("pub ");
        body.append(texts[i].as_str());
        body.append(" , ");
        assert(dv.take(i + 1).drop_last() =~= dv.take(i as int));
        assert(body@ =~= field_decls(dv.take(i + 1)));
    }
    assert(dv.take(n as int) =~= dv);
    let mut s = String::from_str("# [ derive ( Debug , sbor::Encode , sbor::Decode ) ]");
    s.append(" pub struct ");
    s.append(name.as_str());
    s.append(" { ");
    s.append(body.as_str());
    s.append("}");
    assert(s@ =~= derive_attr() + " pub struct "@ + name@ + " { "@ + field_decls(dv) + "}"@);
    s
}

/// The declaration of the enum `name` whose variants render as `texts`.
fn enum_decl_string(name: &String, texts: &Vec<String>) -> (r: String)
    ensures
        r@ == derive_attr() + " pub enum "@ + name@ + " { "@ + join(texts.deep_view(), " , "@)
            + " }"@,
{
    let body = join_strings(texts, " , ");
    let mut s = String::from_str("# [ derive ( Debug , sbor::Encode , sbor::Decode ) ]");
    s.append(" pub enum ");
    s.append(name.as_str());
    s.append(" { ");
    s.append(body.as_str());
    s.append(" }");
    assert(s@ =~= derive_attr() + " pub enum "@ + name@ + " { "@ + join(texts.deep_view(), " , "@)
        + " }"@);
    s
}

/// Renders the Rust type that stands for `ty`, with the declarations of the
/// structs and enums that it names.
pub fn get_native_type(ty: &Type) -> (r: (String, Vec<String>))
    requires
        type_ok(*ty),
    ensures
        r.0@ == type_text(*ty),
        r.1.deep_view() == type_items(*ty),
    decreases ty,
{
    let empty: Vec<String> = Vec::new();
    assert(empty.deep_view() =~= Seq::<Seq<char>>::empty());
    match ty {
        Type::Unit => (String::from_str("()"), empty),
        Type::Bool => (String::from_str("bool"), empty),
        Type::I8 => (String::from_str("i8"), empty),
        Type::I16 => (String::from_str("i16"), empty),
        Type::I32 => (String::from_str("i32"), empty),
        Type::I64 => (String::from_str("i64"), empty),
        Type::I128 => (String::from_str("i128"), empty),
        Type::U8 => (String::from_str("u8"), empty),
        Type::U16 => (String::from_str("u16"), empty),
        Type::U32 => (String::from_str("u32"), empty),
        Type::U64 => (String::from_str("u64"), empty),
        Type::U128 => (String::from_str("u128"), empty),
        Type::String => (String::from_str("String"), empty),
        Type::H256 => (String::from_str("scrypto::types::H256"), empty),
        Type::U256 => (String::from_str("scrypto::types::U256"), empty),
        Type::Address => (String::from_str("scrypto::types::Address"), empty),
        Type::BID => (String::from_str("scrypto::types::BID"), empty),
        Type::RID => (String::from_str("scrypto::types::RID"), empty),
        Type::Option { value } => {
            let (t, items) = get_native_type(&**value);
            (wrap("Option < ", &t, " >"), items)
        },
        Type::Box { value } => {
            let (t, items) = get_native_type(&**value);
            (wrap("Box < ", &t, " >"), items)
        },
        Type::Struct { name, fields } => match fields {
            Fields::Named { named } => {
                assert(fields_names_ok(*fields) && fields_supported(*fields));
                let (texts, mut items) = native_named(named);
                let decl = struct_decl_string(name, &texts);
                let ghost before = items.deep_view();
                items.push(decl);
                assert(items.deep_view() =~= before.push(decl@));
                (name.clone(), items)
            },
            _ => (String::new(), empty),
        },
        Type::Tuple { elements } => {
            let (texts, items) = native_types(elements);
            let joined = join_strings(&texts, " , ");
            (wrap("( ", &joined, " )"), items)
        },
        Type::Array { element, length } => {
            let (t, items) = get_native_type(&**element);
            let mut s = String::from_str("[ ");
            s.append(t.as_str());
            s.append(" ; ");
            push_decimal(&mut s, *length as u64);
            s.append("usize ]");
            (s, items)
        },
        Type::Enum { name, variants } => {
            let (texts, mut items) = native_variants(variants);
            let decl = enum_decl_string(name, &texts);
            let ghost before = items.deep_view();
            items.push(decl);
            assert(items.deep_view() =~= before.push(decl@));
            (name.clone(), items)
        },
        Type::Vec { element } => {
            let (t, items) = get_native_type(&**element);
            (wrap("Vec < ", &t, " >"), items)
        },
        Type::TreeSet { element } => {
            let (t, items) = get_native_type(&**element);
            (wrap("BTreeSet < ", &t, " >"), items)
        },
        Type::TreeMap { key, value } => {
            let (k, mut items) = get_native_type(&**key);
            let (v, mut more) = get_native_type(&**value);
            let ghost (a, b) = (items.deep_view(), more.deep_view());
            items.append(&mut more);
            assert(items.deep_view() =~= a + b);
            let mut s = String::from_str("BTreeMap < ");
            s.append(k.as_str());
            s.append(" , ");
            s.append(v.as_str());
            s.append(" >");
            (s, items)
        },
        Type::HashSet { element } => {
            let (t, items) = get_native_type(&**element);
            (wrap("HashSet < ", &t, " >"), items)
        },
        Type::HashMap { key, value } => {
            let (k, mut items) = get_native_type(&**key);
            let (v, mut more) = get_native_type(&**value);
            let ghost (a, b) = (items.deep_view(), more.deep_view());
            items.append(&mut more);
            assert(items.deep_view() =~= a + b);
            let mut s = String::from_str("HashMap < ");
            s.append(k.as_str());
            s.append(" , ");
            s.append(v.as_str());
            s.append(" >");
            (s, items)
        },
    }
}

/// Renders each of the types `tys`, with the declarations they need.
pub(crate) fn native_types(tys: &Vec<Type>) -> (r: (Vec<String>, Vec<String>))
    requires
        all_supported(tys@),
        all_names_ok(tys@),
    ensures
        r.0.deep_view() == type_texts(tys@),
        r.1.deep_view() == list_items(tys@),
    decreases tys,
{
    let mut texts: Vec<String> = Vec::new();
    let mut items: Vec<String> = Vec::new();
    let n = tys.len();
    for i in 0..n
        invariant
            n == tys@.len(),
            all_supported(tys@),
            all_names_ok(tys@),
            texts.deep_view() == type_texts(tys@.take(i as int)),
            items.deep_view() == list_items(tys@.take(i as int)),
    {
        proof {
            lemma_all_ok(tys@, i as int);
        }
        let (t, mut more) = get_native_type(&tys[i]);
        texts.push(t);
        items.append(&mut more);
        assert(tys@.take(i + 1).drop_last() =~= tys@.take(i as int));
        assert(texts.deep_view() =~= type_texts(tys@.take(i + 1)));
        assert(items.deep_view() =~= list_items(tys@.take(i + 1)));
    }
    assert(tys@.take(n as int) =~= tys@);
    (texts, items)
}

/// Renders each named field as `name : type`, with the declarations that
/// the field types need.
fn native_named(fs: &Vec<(String, Type)>) -> (r: (Vec<String>, Vec<String>))
    requires
        named_supported(fs@),
        named_names_ok(fs@),
    ensures
        r.0.deep_view() == named_texts(fs@),
        r.1.deep_view() == named_items(fs@),
    decreases fs,
{
    let mut texts: Vec<String> = Vec::new();
    let mut items: Vec<String> = Vec::new();
    let n = fs.len();
    for i in 0..n
        invariant
            n == fs@.len(),
            named_supported(fs@),
            named_names_ok(fs@),
            texts.deep_view() == named_texts(fs@.take(i as int)),
            items.deep_view() == named_items(fs@.take(i as int)),
    {
        proof {
            lemma_named_ok(fs@, i as int);
        }
        let (t, mut more) = get_native_type(&fs[i].1);
        let mut text = String::from_str(fs[i].0.as_str());
        text.append(" : ");
        text.append(t.as_str());
        texts.push(text);
        items.append(&mut more);
        assert(fs@.take(i + 1).drop_last() =~= fs@.take(i as int));
        assert(texts.deep_view() =~= named_texts(fs@.take(i + 1)));
        assert(items.deep_view() =~= named_items(fs@.take(i + 1)));
    }
    assert(fs@.take(n as int) =~= fs@);
    (texts, items)
}

/// Renders each variant, with the declarations that its fields need.
fn native_variants(vs: &Vec<Variant>) -> (r: (Vec<String>, Vec<String>))
    requires
        variants_supported(vs@),
        variants_names_ok(vs@),
    ensures
        r.0.deep_view() == variant_texts(vs@),
        r.1.deep_view() == variant_items(vs@),
    decreases vs,
{
    let mut texts: Vec<String> = Vec::new();
    let mut items: Vec<String> = Vec::new();
    let n = vs.len();
    for i in 0..n
        invariant
            n == vs@.len(),
            variants_supported(vs@),
            variants_names_ok(vs@),
            texts.deep_view() == variant_texts(vs@.take(i as int)),
            items.deep_view() == variant_items(vs@.take(i as int)),
    {
        let v = &vs[i];
        proof {
            lemma_variants_ok(vs@, i as int);
        }
        match &v.fields {
            Fields::Named { named } => {
                let (ts, mut more) = native_named(named);
                assert(fields_items(v.fields) == more.deep_view());
                let joined = join_strings(&ts, " , ");
                let mut text = String::from_str(v.name.as_str());
                text.append(" { ");
                text.append(joined.as_str());
                text.append(" }");
                texts.push(text);
                items.append(&mut more);
            },
            Fields::Unnamed { unnamed } => {
                let (ts, mut more) = native_types(unnamed);
                assert(fields_items(v.fields) == more.deep_view());
                let joined = join_strings(&ts, " , ");
                let mut text = String::from_str(v.name.as_str());
                text.append(" ( ");
                text.append(joined.as_str());
                text.append(" )");
                texts.push(text);
                items.append(&mut more);
            },
            Fields::Unit => {
                assert(fields_items(v.fields) == Seq::<Seq<char>>::empty());
                texts.push(v.name.clone());
            },
        }
        assert(vs@.take(i + 1).drop_last() =~= vs@.take(i as int));
        assert(texts.deep_view() =~= variant_texts(vs@.take(i + 1)));
        assert(items.deep_view() =~= variant_items(vs@.take(i + 1)));
    }
    assert(vs@.take(n as int) =~= vs@);
    (texts, items)
}

} // verus!

verus! {

// ---------------------------------------------------------------------------
// From a list to its elements
// ---------------------------------------------------------------------------

/// The `i`-th rendered text is the text of the `i`-th type.
pub proof fn lemma_type_texts_index(tys: Seq<Type>, i: int)
    requires
        0 <= i < tys.len(),
    ensures
        type_texts(tys).len() == tys.len(),
        type_texts(tys)[i] == type_text(tys[i]),
    decreases tys.len(),
{
    lemma_type_texts_len(tys);
    if i < tys.len() - 1 {
        lemma_type_texts_index(tys.drop_last(), i);
    }
}

/// There is one rendered text per type.
pub proof fn lemma_type_texts_len(tys: Seq<Type>)
    ensures
        type_texts(tys).len() == tys.len(),
    decreases tys.len(),
{
    if tys.len() > 0 {
        lemma_type_texts_len(tys.drop_last());
    }
}

pub(crate) proof fn lemma_all_ok(tys: Seq<Type>, i: int)
    requires
        all_supported(tys),
        all_names_ok(tys),
        0 <= i < tys.len(),
    ensures
        type_ok(tys[i]),
    decreases tys.len(),
{
    if i < tys.len() - 1 {
        lemma_all_ok(tys.drop_last(), i);
    }
}

proof fn lemma_named_ok(fs: Seq<(String, Type)>, i: int)
    requires
        named_supported(fs),
        named_names_ok(fs),
        0 <= i < fs.len(),
    ensures
        type_ok(fs[i].1),
        field_ident_ok(fs[i].0@),
    decreases fs.len(),
{
    if i < fs.len() - 1 {
        lemma_named_ok(fs.drop_last(), i);
    }
}

proof fn lemma_variants_ok(vs: Seq<Variant>, i: int)
    requires
        variants_supported(vs),
        variants_names_ok(vs),
        0 <= i < vs.len(),
    ensures
        fields_supported(vs[i].fields),
        fields_names_ok(vs[i].fields),
        ident_ok(vs[i].name@),
    decreases vs.len(),
{
    if i < vs.len() - 1 {
        lemma_variants_ok(vs.drop_last(), i);
    }
}

} // verus!

verus! {

// ---------------------------------------------------------------------------
// Checks
// ---------------------------------------------------------------------------

/// Whether every struct inside `ty` has named fields.
pub fn check_supported(ty: &Type) -> (b: bool)
    ensures
        b == type_supported(*ty),
    decreases ty,
{
    match ty {
        Type::Option { value } => check_supported(&**value),
        Type::Box { value } => check_supported(&**value),
        Type::Struct { name, fields } => match fields {
            Fields::Named { named } => check_named_supported(named),
            _ => false,
        },
        Type::Tuple { elements } => check_all_supported(elements),
        Type::Array { element, length } => check_supported(&**element),
        Type::Enum { name, variants } => check_variants_supported(variants),
        Type::Vec { element } => check_supported(&**element),
        Type::TreeSet { element } => check_supported(&**element),
        Type::TreeMap { key, value } => {
            let k = check_supported(&**key);
            let v = check_supported(&**value);
            k && v
        },
        Type::HashSet { element } => check_supported(&**element),
        Type::HashMap { key, value } => {
            let k = check_supported(&**key);
            let v = check_supported(&**value);
            k && v
        },
        _ => true,
    }
}

/// Whether each of the types `tys` is supported.
pub(crate) fn check_all_supported(tys: &Vec<Type>) -> (b: bool)
    ensures
        b == all_supported(tys@),
    decreases tys,
{
    let mut ok = true;
    let n = tys.len();
    for i in 0..n
        invariant
            n == tys@.len(),
            ok == all_supported(tys@.take(i as int)),
    {
        let e = check_supported(&tys[i]);
        ok = ok && e;
        assert(tys@.take(i + 1).drop_last() =~= tys@.take(i as int));
    }
    assert(tys@.take(n as int) =~= tys@);
    ok
}

/// Whether the type of each named field is supported.
fn check_named_supported(fs: &Vec<(String, Type)>) -> (b: bool)
    ensures
        b == named_supported(fs@),
    decreases fs,
{
    let mut ok = true;
    let n = fs.len();
    for i in 0..n
        invariant
            n == fs@.len(),
            ok == named_supported(fs@.take(i as int)),
    {
        let e = check_supported(&fs[i].1);
        ok = ok && e;
        assert(fs@.take(i + 1).drop_last() =~= fs@.take(i as int));
    }
    assert(fs@.take(n as int) =~= fs@);
    ok
}

/// Whether the types inside the fields `f` are supported.
fn check_fields_supported(f: &Fields) -> (b: bool)
    ensures
        b == fields_supported(*f),
    decreases f,
{
    match f {
        Fields::Named { named } => check_named_supported(named),
        Fields::Unnamed { unnamed } => check_all_supported(unnamed),
        Fields::Unit => true,
    }
}

/// Whether the types inside the fields of each variant are supported.
fn check_variants_supported(vs: &Vec<Variant>) -> (b: bool)
    ensures
        b == variants_supported(vs@),
    decreases vs,
{
    let mut ok = true;
    let n = vs.len();
    for i in 0..n
        invariant
            n == vs@.len(),
            ok == variants_supported(vs@.take(i as int)),
    {
        let e = check_fields_supported(&vs[i].fields);
        ok = ok && e;
        assert(vs@.take(i + 1).drop_last() =~= vs@.take(i as int));
    }
    assert(vs@.take(n as int) =~= vs@);
    ok
}

/// Whether every struct, enum, variant and field name inside `ty` is an identifier.
pub fn check_names(ty: &Type) -> (b: bool)
    ensures
        b == type_names_ok(*ty),
    decreases ty,
{
    match ty {
        Type::Option { value } => check_names(&**value),
        Type::Box { value } => check_names(&**value),
        Type::Struct { name, fields } => {
            let a = is_ident(name.as_str());
            let b = check_fields_names(fields);
            a && b
        },
        Type::Tuple { elements } => check_all_names(elements),
        Type::Array { element, length } => check_names(&**element),
        Type::Enum { name, variants } => {
            let a = is_ident(name.as_str());
            let b = check_variants_names(variants);
            a && b
        },
        Type::Vec { element } => check_names(&**element),
        Type::TreeSet { element } => check_names(&**element),
        Type::TreeMap { key, value } => {
            let k = check_names(&**key);
            let v = check_names(&**value);
            k && v
        },
        Type::HashSet { element } => check_names(&**element),
        Type::HashMap { key, value } => {
            let k = check_names(&**key);
            let v = check_names(&**value);
            k && v
        },
        _ => true,
    }
}

/// Whether the names inside each of the types `tys` are identifiers.
pub(crate) fn check_all_names(tys: &Vec<Type>) -> (b: bool)
    ensures
        b == all_names_ok(tys@),
    decreases tys,
{
    let mut ok = true;
    let n = tys.len();
    for i in 0..n
        invariant
            n == tys@.len(),
            ok == all_names_ok(tys@.take(i as int)),
    {
        let e = check_names(&tys[i]);
        ok = ok && e;
        assert(tys@.take(i + 1).drop_last() =~= tys@.take(i as int));
    }
    assert(tys@.take(n as int) =~= tys@);
    ok
}

/// Whether each field name is an identifier or `_`, and each name inside
/// the field types is an identifier.
fn check_named_names(fs: &Vec<(String, Type)>) -> (b: bool)
    ensures
        b == named_names_ok(fs@),
    decreases fs,
{
    let mut ok = true;
    let n = fs.len();
    for i in 0..n
        invariant
            n == fs@.len(),
            ok == named_names_ok(fs@.take(i as int)),
    {
        let a = is_field_ident(fs[i].0.as_str());
        let e = check_names(&fs[i].1);
        ok = ok && a && e;
        assert(fs@.take(i + 1).drop_last() =~= fs@.take(i as int));
    }
    assert(fs@.take(n as int) =~= fs@);
    ok
}

/// Whether the names inside the fields `f` are identifiers.
fn check_fields_names(f: &Fields) -> (b: bool)
    ensures
        b == fields_names_ok(*f),
    decreases f,
{
    match f {
        Fields::Named { named } => check_named_names(named),
        Fields::Unnamed { unnamed } => check_all_names(unnamed),
        Fields::Unit => true,
    }
}

/// Whether each variant name, and each name inside the variants' fields, is an identifier.
fn check_variants_names(vs: &Vec<Variant>) -> (b: bool)
    ensures
        b == variants_names_ok(vs@),
    decreases vs,
{
    let mut ok = true;
    let n = vs.len();
    for i in 0..n
        invariant
            n == vs@.len(),
            ok == variants_names_ok(vs@.take(i as int)),
    {
        let a = is_ident(vs[i].name.as_str());
        let e = check_fields_names(&vs[i].fields);
        ok = ok && a && e;
        assert(vs@.take(i + 1).drop_last() =~= vs@.take(i as int));
    }
    assert(vs@.take(n as int) =~= vs@);
    ok
}

} // verus!

verus! {

// ---------------------------------------------------------------------------
// How many declarations a type needs
// ---------------------------------------------------------------------------

/// The number of struct and enum nodes inside `ty`, `ty` itself included.
pub open spec fn named_count(ty: Type) -> nat
    decreases ty,
{
    match ty {
        Type::Option { value } => named_count(*value),
        Type::Box { value } => named_count(*value),
        Type::Struct { name, fields } => 1 + fields_count(fields),
        Type::Tuple { elements } => list_count(elements@),
        Type::Array { element, length } => named_count(*element),
        Type::Enum { name, variants } => 1 + variants_count(variants@),
        Type::Vec { element } => named_count(*element),
        Type::TreeSet { element } => named_count(*element),
        Type::TreeMap { key, value } => named_count(*key) + named_count(*value),
        Type::HashSet { element } => named_count(*element),
        Type::HashMap { key, value } => named_count(*key) + named_count(*value),
        _ => 0,
    }
}

/// The number of struct and enum nodes inside the types `tys`.
pub open spec fn list_count(tys: Seq<Type>) -> nat
    decreases tys,
{
    if tys.len() == 0 {
        0
    } else {
        list_count(tys.drop_last()) + named_count(tys.last())
    }
}

/// The number of struct and enum nodes inside the types of the named fields `fs`.
pub open spec fn named_fields_count(fs: Seq<(String, Type)>) -> nat
    decreases fs,
{
    if fs.len() == 0 {
        0
    } else {
        named_fields_count(fs.drop_last()) + named_count(fs.last().1)
    }
}

/// The number of struct and enum nodes inside the types of the fields `f`.
pub open spec fn fields_count(f: Fields) -> nat
    decreases f,
{
    match f {
        Fields::Named { named } => named_fields_count(named@),
        Fields::Unnamed { unnamed } => list_count(unnamed@),
        Fields::Unit => 0,
    }
}

/// The number of struct and enum nodes inside the fields of the variants `vs`.
pub open spec fn variants_count(vs: Seq<Variant>) -> nat
    decreases vs,
{
    if vs.len() == 0 {
        0
    } else {
        variants_count(vs.drop_last()) + fields_count(vs.last().fields)
    }
}

/// Each struct and each enum that a supported type mentions is declared
/// exactly once per mention: the declarations number the struct and enum
/// nodes of the type.
pub proof fn lemma_items_count(ty: Type)
    requires
        type_supported(ty),
    ensures
        type_items(ty).len() == named_count(ty),
    decreases ty,
{
    match ty {
        Type::Option { value } => lemma_items_count(*value),
        Type::Box { value } => lemma_items_count(*value),
        Type::Struct { name, fields } => match fields {
            Fields::Named { named } => {
                assert(fields_supported(fields));
                lemma_named_items_count(named@);
                assert(fields_count(fields) == named_fields_count(named@));
            },
            _ => {},
        },
        Type::Tuple { elements } => lemma_list_items_count(elements@),
        Type::Array { element, length } => lemma_items_count(*element),
        Type::Enum { name, variants } => lemma_variant_items_count(variants@),
        Type::Vec { element } => lemma_items_count(*element),
        Type::TreeSet { element } => lemma_items_count(*element),
        Type::TreeMap { key, value } => {
            lemma_items_count(*key);
            lemma_items_count(*value);
        },
        Type::HashSet { element } => lemma_items_count(*element),
        Type::HashMap { key, value } => {
            lemma_items_count(*key);
            lemma_items_count(*value);
        },
        _ => {},
    }
}

/// The declarations that a list of supported types needs number their
/// struct and enum nodes.
pub proof fn lemma_list_items_count(tys: Seq<Type>)
    requires
        all_supported(tys),
    ensures
        list_items(tys).len() == list_count(tys),
    decreases tys,
{
    if tys.len() > 0 {
        lemma_list_items_count(tys.drop_last());
        lemma_items_count(tys.last());
    }
}

/// The declarations that supported named fields need number their struct
/// and enum nodes.
pub proof fn lemma_named_items_count(fs: Seq<(String, Type)>)
    requires
        named_supported(fs),
    ensures
        named_items(fs).len() == named_fields_count(fs),
    decreases fs,
{
    if fs.len() > 0 {
        lemma_named_items_count(fs.drop_last());
        lemma_items_count(fs.last().1);
    }
}

/// The declarations that supported fields need number their struct and
/// enum nodes.
pub proof fn lemma_fields_items_count(f: Fields)
    requires
        fields_supported(f),
    ensures
        fields_items(f).len() == fields_count(f),
    decreases f,
{
    match f {
        Fields::Named { named } => lemma_named_items_count(named@),
        Fields::Unnamed { unnamed } => lemma_list_items_count(unnamed@),
        Fields::Unit => {},
    }
}

/// The declarations that supported variants need number their struct and
/// enum nodes.
pub proof fn lemma_variant_items_count(vs: Seq<Variant>)
    requires
        variants_supported(vs),
    ensures
        variant_items(vs).len() == variants_count(vs),
    decreases vs,
{
    if vs.len() > 0 {
        lemma_variant_items_count(vs.drop_last());
        lemma_fields_items_count(vs.last().fields);
    }
}

} // verus!

verus! {

// ---------------------------------------------------------------------------
// Order and names in the rendered text
// ---------------------------------------------------------------------------

/// The rendered texts of types, one per type, in the types' order.
pub proof fn lemma_type_texts_seq(tys: Seq<Type>)
    ensures
        type_texts(tys) == Seq::new(tys.len(), |i: int| type_text(tys[i])),
{
    lemma_type_texts_len(tys);
    assert forall|i: int| 0 <= i < tys.len() implies type_texts(tys)[i] == type_text(tys[i]) by {
        lemma_type_texts_index(tys, i);
    }
    assert(type_texts(tys) =~= Seq::new(tys.len(), |i: int| type_text(tys[i])));
}

/// `name : type` for each named field, in the fields' order.
pub proof fn lemma_named_texts_seq(fs: Seq<(String, Type)>)
    ensures
        named_texts(fs) == Seq::new(fs.len(), |i: int| fs[i].0@ + " : "@ + type_text(fs[i].1)),
    decreases fs.len(),
{
    if fs.len() > 0 {
        lemma_named_texts_seq(fs.drop_last());
    }
    assert(named_texts(fs) =~= Seq::new(fs.len(), |i: int| fs[i].0@ + " : "@ + type_text(fs[i].1)));
}

/// The variant texts, one per variant, in the variants' order.
pub proof fn lemma_variant_texts_seq(vs: Seq<Variant>)
    ensures
        variant_texts(vs) == Seq::new(vs.len(), |i: int| variant_text(vs[i])),
    decreases vs.len(),
{
    if vs.len() > 0 {
        lemma_variant_texts_seq(vs.drop_last());
    }
    assert(variant_texts(vs) =~= Seq::new(vs.len(), |i: int| variant_text(vs[i])));
}

/// The body of a struct declaration is each field's `pub name : type ,`,
/// one after the other in the fields' order.
proof fn lemma_field_decls_join(texts: Seq<Seq<char>>)
    ensures
        field_decls(texts) == join(
            Seq::new(texts.len(), |i: int| "pub "@ + texts[i] + " , "@),
            Seq::<char>::empty(),
        ),
    decreases texts.len(),
{
    let n = texts.len();
    let parts = Seq::new(n, |i: int| "pub "@ + texts[i] + " , "@);
    if n >= 1 {
        let prev = texts.drop_last();
        lemma_field_decls_join(prev);
        let prev_parts = Seq::new(prev.len(), |i: int| "pub "@ + prev[i] + " , "@);
        assert(parts.drop_last() =~= prev_parts);
        if n == 1 {
            assert(field_decls(texts) =~= parts[0]);
        } else {
            assert(join(parts, Seq::<char>::empty()) =~= join(prev_parts, Seq::<char>::empty())
                + parts[n - 1]);
            assert(field_decls(texts) =~= join(parts, Seq::<char>::empty()));
        }
    }
}

/// A tuple renders as its elements' texts, in the elements' order,
/// separated by commas, between parentheses.
pub proof fn lemma_tuple_text_order(ty: Type)
    ensures
        ty matches Type::Tuple { elements } ==> type_text(ty) == "( "@ + join(
            Seq::new(elements@.len(), |i: int| type_text(elements@[i])),
            " , "@,
        ) + " )"@,
{
    if let Type::Tuple { elements } = ty {
        lemma_type_texts_seq(elements@);
    }
}

/// A variant renders as its name followed by its fields in the ABI's order:
/// `name : type` items between braces for named fields, type items between
/// parentheses for unnamed ones, separated by commas.
pub proof fn lemma_variant_text_order(v: Variant)
    ensures
        match v.fields {
            Fields::Named { named } => variant_text(v) == v.name@ + " { "@ + join(
                Seq::new(named@.len(), |i: int| named@[i].0@ + " : "@ + type_text(named@[i].1)),
                " , "@,
            ) + " }"@,
            Fields::Unnamed { unnamed } => variant_text(v) == v.name@ + " ( "@ + join(
                Seq::new(unnamed@.len(), |i: int| type_text(unnamed@[i])),
                " , "@,
            ) + " )"@,
            Fields::Unit => variant_text(v) == v.name@,
        },
{
    match v.fields {
        Fields::Named { named } => lemma_named_texts_seq(named@),
        Fields::Unnamed { unnamed } => lemma_type_texts_seq(unnamed@),
        Fields::Unit => {},
    }
}

/// A struct is declared with each field as `pub name : type ,`, in the
/// ABI's order.
pub proof fn lemma_struct_decl_order(name: Seq<char>, fs: Seq<(String, Type)>)
    ensures
        struct_decl(name, fs) == derive_attr() + " pub struct "@ + name + " { "@ + join(
            Seq::new(fs.len(), |i: int| "pub "@ + fs[i].0@ + " : "@ + type_text(fs[i].1) + " , "@),
            Seq::<char>::empty(),
        ) + "}"@,
{
    let texts = named_texts(fs);
    lemma_named_texts_seq(fs);
    lemma_field_decls_join(texts);
    assert forall|i: int| 0 <= i < fs.len() implies ("pub "@ + texts[i] + " , "@) =~= ("pub "@
        + fs[i].0@ + " : "@ + type_text(fs[i].1) + " , "@) by {
        assert(texts[i] == fs[i].0@ + " : "@ + type_text(fs[i].1));
    }
    assert(Seq::new(texts.len(), |i: int| "pub "@ + texts[i] + " , "@) =~= Seq::new(
        fs.len(),
        |i: int| "pub "@ + fs[i].0@ + " : "@ + type_text(fs[i].1) + " , "@,
    ));
}

/// An enum is declared with its variants in the ABI's order, separated by
/// commas.
pub proof fn lemma_enum_decl_order(name: Seq<char>, vs: Seq<Variant>)
    ensures
        enum_decl(name, vs) == derive_attr() + " pub enum "@ + name + " { "@ + join(
            Seq::new(vs.len(), |i: int| variant_text(vs[i])),
            " , "@,
        ) + " }"@,
{
    lemma_variant_texts_seq(vs);
}

/// The declarations that a list of types needs are those of each type in
/// turn, in the list's order.
pub proof fn lemma_list_items_order(tys: Seq<Type>)
    ensures
        list_items(tys) == Seq::new(tys.len(), |i: int| type_items(tys[i])).flatten(),
    decreases tys.len(),
{
    let parts = Seq::new(tys.len(), |i: int| type_items(tys[i]));
    if tys.len() > 0 {
        let prev = tys.drop_last();
        lemma_list_items_order(prev);
        let prev_parts = Seq::new(prev.len(), |i: int| type_items(prev[i]));
        assert(parts =~= prev_parts.push(type_items(tys.last())));
        prev_parts.lemma_flatten_push(type_items(tys.last()));
    }
    assert(list_items(tys) =~= parts.flatten());
}

/// The declarations that named fields need are those of each field's type
/// in turn, in the fields' order.
pub proof fn lemma_named_items_order(fs: Seq<(String, Type)>)
    ensures
        named_items(fs) == Seq::new(fs.len(), |i: int| type_items(fs[i].1)).flatten(),
    decreases fs.len(),
{
    let parts = Seq::new(fs.len(), |i: int| type_items(fs[i].1));
    if fs.len() > 0 {
        let prev = fs.drop_last();
        lemma_named_items_order(prev);
        let prev_parts = Seq::new(prev.len(), |i: int| type_items(prev[i].1));
        assert(parts =~= prev_parts.push(type_items(fs.last().1)));
        prev_parts.lemma_flatten_push(type_items(fs.last().1));
    }
    assert(named_items(fs) =~= parts.flatten());
}

/// The declarations that variants need are those of each variant's fields
/// in turn, in the variants' order.
pub proof fn lemma_variant_items_order(vs: Seq<Variant>)
    ensures
        variant_items(vs) == Seq::new(vs.len(), |i: int| fields_items(vs[i].fields)).flatten(),
    decreases vs.len(),
{
    let parts = Seq::new(vs.len(), |i: int| fields_items(vs[i].fields));
    if vs.len() > 0 {
        let prev = vs.drop_last();
        lemma_variant_items_order(prev);
        let prev_parts = Seq::new(prev.len(), |i: int| fields_items(prev[i].fields));
        assert(parts =~= prev_parts.push(fields_items(vs.last().fields)));
        prev_parts.lemma_flatten_push(fields_items(vs.last().fields));
    }
    assert(variant_items(vs) =~= parts.flatten());
}

/// The names that a type with valid names declares are identifiers: the
/// name of a struct and of each of its fields (where `_` may also name a
/// field), the name of an enum and of each of its variants and their fields.
pub proof fn lemma_declared_names_ok(ty: Type)
    requires
        type_names_ok(ty),
    ensures
        ty matches Type::Struct { name, fields } ==> ident_ok(name@) && (fields matches Fields::Named {
            named,
        } ==> forall|i: int| 0 <= i < named@.len() ==> field_ident_ok(#[trigger] named@[i].0@)),
        ty matches Type::Enum { name, variants } ==> ident_ok(name@) && forall|i: int|
            0 <= i < variants@.len() ==> ident_ok(#[trigger] variants@[i].name@),
{
    match ty {
        Type::Struct { name, fields } => {
            assert(fields_names_ok(fields));
            if let Fields::Named { named } = fields {
                assert(named_names_ok(named@));
                assert forall|i: int| 0 <= i < named@.len() implies field_ident_ok(
                    #[trigger] named@[i].0@,
                ) by {
                    lemma_named_field_name_ok(named@, i);
                }
            }
        },
        Type::Enum { name, variants } => {
            assert forall|i: int| 0 <= i < variants@.len() implies ident_ok(
                #[trigger] variants@[i].name@,
            ) by {
                lemma_variant_name_ok(variants@, i);
            }
        },
        _ => {},
    }
}

proof fn lemma_named_field_name_ok(fs: Seq<(String, Type)>, i: int)
    requires
        named_names_ok(fs),
        0 <= i < fs.len(),
    ensures
        field_ident_ok(fs[i].0@),
    decreases fs.len(),
{
    if i < fs.len() - 1 {
        lemma_named_field_name_ok(fs.drop_last(), i);
    }
}

proof fn lemma_variant_name_ok(vs: Seq<Variant>, i: int)
    requires
        variants_names_ok(vs),
        0 <= i < vs.len(),
    ensures
        ident_ok(vs[i].name@),
    decreases vs.len(),
{
    if i < vs.len() - 1 {
        lemma_variant_name_ok(vs.drop_last(), i);
    }
}

} // verus!

verus! {

/// A struct or enum is declared after every declaration that its fields
/// need: its own declaration is the last one, and the ones before it are
/// those of its fields in order.
pub proof fn lemma_own_declaration_last(ty: Type)
    ensures
        ty matches Type::Struct { name, fields } ==> (fields matches Fields::Named { named } ==> {
            &&& type_items(ty).len() > 0
            &&& type_items(ty).last() == struct_decl(name@, named@)
            &&& type_items(ty).drop_last() == Seq::new(
                named@.len(),
                |i: int| type_items(named@[i].1),
            ).flatten()
        }),
        ty matches Type::Enum { name, variants } ==> {
            &&& type_items(ty).len() > 0
            &&& type_items(ty).last() == enum_decl(name@, variants@)
            &&& type_items(ty).drop_last() == Seq::new(
                variants@.len(),
                |i: int| fields_items(variants@[i].fields),
            ).flatten()
        },
{
    match ty {
        Type::Struct { name, fields } => {
            if let Fields::Named { named } = fields {
                lemma_named_items_order(named@);
                assert(type_items(ty).drop_last() =~= named_items(named@));
            }
        },
        Type::Enum { name, variants } => {
            lemma_variant_items_order(variants@);
            assert(type_items(ty).drop_last() =~= variant_items(variants@));
        },
        _ => {},
    }
}

} // verus!
