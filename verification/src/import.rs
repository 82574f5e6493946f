//! The code that binds a component: a struct holding its address, and one
//! method per ABI method that calls the component through that address.

use vstd::prelude::*;

use crate::abi::{Component, Method, Mutability, Type};
use crate::ident::{is_plain_ident, plain_ident_ok};
use crate::native::{
    all_names_ok, all_supported, check_all_names, check_all_supported, check_names,
    check_supported, get_native_type, list_count, list_items, named_count, native_types,
    type_items, type_names_ok, type_ok, type_supported, type_text, type_texts,
};
use crate::text::{
    decimal, join, join_strings, lines, lines_string, push_decimal, quoted, string_literal,
};

verus! {

/// Why a component cannot be bound.
#[derive(Debug, Clone, Copy, PartialEq, Eq, Structural)]
pub enum ImportError {
    /// A struct in some method's signature has unnamed fields or none.
    UnnamedFields,
    /// A name that the generated code would use is not an identifier.
    InvalidIdent,
}

// ---------------------------------------------------------------------------
// Which components can be bound
// ---------------------------------------------------------------------------

/// Every type in the signatures of `ms` is supported.
pub open spec fn methods_supported(ms: Seq<Method>) -> bool
    decreases ms.len(),
{
    ms.len() == 0 || (methods_supported(ms.drop_last()) && all_supported(ms.last().inputs@)
        && type_supported(ms.last().output))
}

/// Every method name of `ms` is a plain identifier, and so is every name
/// inside their signatures' types.
pub open spec fn methods_names_ok(ms: Seq<Method>) -> bool
    decreases ms.len(),
{
    ms.len() == 0 || (methods_names_ok(ms.drop_last()) && plain_ident_ok(ms.last().name@)
        && all_names_ok(ms.last().inputs@) && type_names_ok(ms.last().output))
}

/// Every struct in the signatures of `c`'s methods has named fields.
pub open spec fn component_supported(c: Component) -> bool {
    methods_supported(c.methods@)
}

/// The component's name, its method names and every name in their
/// signatures are identifiers.
pub open spec fn component_names_ok(c: Component) -> bool {
    plain_ident_ok(c.name@) && methods_names_ok(c.methods@)
}

/// `c` can be bound.
pub open spec fn component_ok(c: Component) -> bool {
    component_supported(c) && component_names_ok(c)
}

// ---------------------------------------------------------------------------
// The generated code
// ---------------------------------------------------------------------------

/// The struct that holds the component's address.
pub open spec fn component_struct(name: Seq<char>) -> Seq<char> {
    "pub struct "@ + name + " { address : scrypto::types::Address }"@
}

/// The declarations that the signatures of `ms` need, method by method,
/// inputs before output.
pub open spec fn methods_items(ms: Seq<Method>) -> Seq<Seq<char>>
    decreases ms.len(),
{
    if ms.len() == 0 {
        Seq::empty()
    } else {
        methods_items(ms.drop_last()) + list_items(ms.last().inputs@) + type_items(ms.last().output)
    }
}

/// All declarations: the component's struct, then what the methods need.
pub open spec fn import_items(c: Component) -> Seq<Seq<char>> {
    seq![component_struct(c.name@)] + methods_items(c.methods@)
}

/// The name of the `i`-th argument.
pub open spec fn arg_name(i: nat) -> Seq<char> {
    "arg"@ + decimal(i)
}

/// `argI : type` for each input type.
pub open spec fn arg_decls(tys: Seq<Type>) -> Seq<Seq<char>> {
    Seq::new(tys.len(), |i: int| arg_name(i as nat) + " : "@ + type_text(tys[i]))
}

/// The receiver that a method of the given mutability takes, if any.
pub open spec fn receiver(m: Mutability) -> Seq<Seq<char>> {
    match m {
        Mutability::Stateless => Seq::empty(),
        Mutability::Immutable => seq!["&self"@],
        Mutability::Mutable => seq!["&mut self"@],
    }
}

/// The parameter list of the generated method for `m`.
pub open spec fn params(m: Method) -> Seq<char> {
    join(receiver(m.mutability) + arg_decls(m.inputs@), " , "@)
}

/// `, arg0 , arg1 ...` for `n` arguments.
pub open spec fn call_args(n: nat) -> Seq<char>
    decreases n,
{
    if n == 0 {
        Seq::empty()
    } else {
        call_args((n - 1) as nat) + " , "@ + arg_name((n - 1) as nat)
    }
}

/// The statement that binds `address`: the component's own address, or for
/// a stateless method the blueprint's address.
pub open spec fn address_stmt(blueprint: Seq<char>, m: Mutability) -> Seq<char> {
    match m {
        Mutability::Stateless => "let address = scrypto::types::Address::from_hex ( "@
            + quoted(blueprint) + " ) .unwrap ( ) ;"@,
        _ => "let address = self.address ;"@,
    }
}

/// The generated method that calls the component's method `m`.
pub open spec fn method_fn(c: Component, m: Method) -> Seq<char> {
    "pub fn "@ + m.name@ + " ( "@ + params(m) + " ) -> "@ + type_text(m.output) + " { "@
        + address_stmt(c.blueprint@, m.mutability) + " scrypto::call! ( "@ + type_text(m.output)
        + " , "@ + quoted(c.name@) + " , "@ + quoted(m.name@) + " , address"@
        + call_args(m.inputs@.len()) + " ) }"@
}

/// The generated methods for `ms`, each after a space.
pub open spec fn method_fns(c: Component, ms: Seq<Method>) -> Seq<char>
    decreases ms.len(),
{
    if ms.len() == 0 {
        Seq::empty()
    } else {
        method_fns(c, ms.drop_last()) + " "@ + method_fn(c, ms.last())
    }
}

/// The constructor from an address.
pub open spec fn from_address_fn() -> Seq<char> {
    "pub fn from_address ( address : scrypto::types::Address ) -> Self { Self { address } }"@
}

/// The `impl` block of the component's struct.
pub open spec fn impl_text(c: Component) -> Seq<char> {
    "impl "@ + c.name@ + " { "@ + from_address_fn() + method_fns(c, c.methods@) + " }"@
}

/// The whole generated code: every declaration on a line of its own, then
/// the `impl` block.
pub open spec fn import_text(c: Component) -> Seq<char> {
    lines(import_items(c)) + impl_text(c)
}

// ---------------------------------------------------------------------------
// Generation
// ---------------------------------------------------------------------------

proof fn lemma_methods_ok(ms: Seq<Method>, i: int)
    requires
        methods_supported(ms),
        methods_names_ok(ms),
        0 <= i < ms.len(),
    ensures
        all_supported(ms[i].inputs@),
        all_names_ok(ms[i].inputs@),
        type_ok(ms[i].output),
        plain_ident_ok(ms[i].name@),
    decreases ms.len(),
{
    if i < ms.len() - 1 {
        lemma_methods_ok(ms.drop_last(), i);
    }
}

/// The parameter list of the method for `m`, given the texts of its input types.
fn params_string(m: &Method, texts: &Vec<String>) -> (r: String)
    requires
        texts.deep_view() == type_texts(m.inputs@),
    ensures
        r@ == params(*m),
{
    let mut ps: Vec<String> = Vec::new();
    match m.mutability {
        Mutability::Stateless => {},
        Mutability::Immutable => ps.push(String::from_str("&self")),
        Mutability::Mutable => ps.push(String::from_str("&mut self")),
    }
    let ghost recv = receiver(m.mutability);
    let ghost decls = arg_decls(m.inputs@);
    assert(ps.deep_view() =~= recv);
    let n = m.inputs.len();
    proof {
        crate::native::lemma_type_texts_len(m.inputs@);
    }
    for i in 0..n
        invariant
            n == m.inputs@.len(),
            texts.deep_view() == type_texts(m.inputs@),
            type_texts(m.inputs@).len() == n,
            decls == arg_decls(m.inputs@),
            ps.deep_view() == recv + decls.take(i as int),
    {
        proof {
            crate::native::lemma_type_texts_index(m.inputs@, i as int);
        }
        let mut a = String::from_str("arg");
        push_decimal(&mut a, i as u64);
        a.append(" : ");
        a.append(texts[i].as_str());
        let ghost before = ps.deep_view();
        ps.push(a);
        assert(ps.deep_view() =~= before.push(a@));
        assert(decls.take(i + 1) =~= decls.take(i as int).push(decls[i as int]));
        assert(ps.deep_view() =~= recv + decls.take(i + 1));
    }
    assert(decls.take(n as int) =~= decls);
    join_strings(&ps, " , ")
}

/// `, arg0 , arg1 ...` for `n` arguments.
fn call_args_string(n: usize) -> (r: String)
    ensures
        r@ == call_args(n as nat),
{
    let mut s = String::new();
    for i in 0..n
        invariant
            s@ == call_args(i as nat),
    {
        s.append(" , ");
        s.append("arg");
        push_decimal(&mut s, i as u64);
        assert(s@ =~= call_args((i + 1) as nat));
    }
    s
}

/// The generated method for `m`, given the texts of its input and output types.
fn method_string(c: &Component, m: &Method, texts: &Vec<String>, out: &String) -> (r: String)
    requires
        texts.deep_view() == type_texts(m.inputs@),
        out@ == type_text(m.output),
    ensures
        r@ == method_fn(*c, *m),
{
    let ps = params_string(m, texts);
    let mut s = String::from_str("pub fn ");
    s.append(m.name.as_str());
    s.append(" ( ");
    s.append(ps.as_str());
    s.append(" ) -> ");
    s.append(out.as_str());
    s.append(" { ");
    match m.mutability {
        Mutability::Stateless => {
            let lit = string_literal(c.blueprint.as_str());
            s.append("let address = scrypto::types::Address::from_hex ( ");
            s.append(lit.as_str());
            s.append(" ) .unwrap ( ) ;");
        },
        _ => {
            s.append("let address = self.address ;");
        },
    }
    let cname = string_literal(c.name.as_str());
    let mname = string_literal(m.name.as_str());
    let args = call_args_string(m.inputs.len());
    s.append(" scrypto::call! ( ");
    s.append(out.as_str());
    s.append(" , ");
    s.append(cname.as_str());
    s.append(" , ");
    s.append(mname.as_str());
    s.append(" , address");
    s.append(args.as_str());
    s.append(" ) }");
    assert(s@ =~= method_fn(*c, *m));
    s
}

/// Generates the binding code of a component that can be bound.
pub fn generate_import(c: &Component) -> (r: String)
    requires
        component_ok(*c),
    ensures
        r@ == import_text(*c),
{
    let ghost ms = c.methods@;
    let mut items: Vec<String> = Vec::new();
    let mut decl = String::from_str("pub struct ");
    decl.append(c.name.as_str());
    decl.append(" { address : scrypto::types::Address }");
    items.push(decl);
    let mut fns = String::new();
    assert(items.deep_view() =~= seq![component_struct(c.name@)] + methods_items(ms.take(0)));
    let n = c.methods.len();
    for i in 0..n
        invariant
            n == ms.len(),
            ms == c.methods@,
            component_ok(*c),
            items.deep_view() == seq![component_struct(c.name@)] + methods_items(ms.take(i as int)),
            fns@ == method_fns(*c, ms.take(i as int)),
    {
        proof {
            lemma_methods_ok(ms, i as int);
        }
        let m = &c.methods[i];
        let (texts, mut in_items) = native_types(&m.inputs);
        let (out, mut out_items) = get_native_type(&m.output);
        let ghost (a, b, d) = (items.deep_view(), in_items.deep_view(), out_items.deep_view());
        items.append(&mut in_items);
        items.append(&mut out_items);
        let f = method_string(c, m, &texts, &out);
        fns.append(" ");
        fns.append(f.as_str());
        assert(ms.take(i + 1).drop_last() =~= ms.take(i as int));
        assert(items.deep_view() =~= a + b + d);
        assert(items.deep_view() =~= seq![component_struct(c.name@)] + methods_items(
            ms.take(i + 1),
        ));
        assert(fns@ =~= method_fns(*c, ms.take(i + 1)));
    }
    assert(ms.take(n as int) =~= ms);
    let mut out = lines_string(&items);
    out.append("impl ");
    out.append(c.name.as_str());
    out.append(" { ");
    out.append("pub fn from_address ( address : scrypto::types::Address ) -> Self { Self { address } }");
    out.append(fns.as_str());
    out.append(" }");
    assert(out@ =~= import_text(*c));
    out
}

/// Whether every struct in the signatures of `c`'s methods has named fields.
pub fn check_component_supported(c: &Component) -> (b: bool)
    ensures
        b == component_supported(*c),
{
    let ghost ms = c.methods@;
    let mut ok = true;
    let n = c.methods.len();
    for i in 0..n
        invariant
            n == ms.len(),
            ms == c.methods@,
            ok == methods_supported(ms.take(i as int)),
    {
        let m = &c.methods[i];
        let a = check_all_supported(&m.inputs);
        let b = check_supported(&m.output);
        ok = ok && a && b;
        assert(ms.take(i + 1).drop_last() =~= ms.take(i as int));
    }
    assert(ms.take(n as int) =~= ms);
    ok
}

/// Whether the names that the generated code would use are identifiers.
pub fn check_component_names(c: &Component) -> (b: bool)
    ensures
        b == component_names_ok(*c),
{
    let ghost ms = c.methods@;
    let mut ok = is_plain_ident(c.name.as_str());
    let ghost first = ok;
    let n = c.methods.len();
    for i in 0..n
        invariant
            n == ms.len(),
            ms == c.methods@,
            first == plain_ident_ok(c.name@),
            ok == (first && methods_names_ok(ms.take(i as int))),
    {
        let m = &c.methods[i];
        let p = is_plain_ident(m.name.as_str());
        let a = check_all_names(&m.inputs);
        let b = check_names(&m.output);
        ok = ok && p && a && b;
        assert(ms.take(i + 1).drop_last() =~= ms.take(i as int));
    }
    assert(ms.take(n as int) =~= ms);
    ok
}

/// Generates the binding code of the component `c`, or says why it cannot
/// be bound: first a struct without named fields, then a name that is not
/// an identifier.
pub fn handle_import(c: &Component) -> (r: Result<String, ImportError>)
    ensures
        !component_supported(*c) <==> r matches Err(ImportError::UnnamedFields),
        (component_supported(*c) && !component_names_ok(*c)) <==> r matches Err(
            ImportError::InvalidIdent,
        ),
        component_ok(*c) <==> r is Ok,
        r matches Ok(s) ==> s@ == import_text(*c),
{
    if !check_component_supported(c) {
        return Err(ImportError::UnnamedFields);
    }
    if !check_component_names(c) {
        return Err(ImportError::InvalidIdent);
    }
    Ok(generate_import(c))
}

} // verus!

verus! {

/// Distinct argument positions get distinct names, so no generated method
/// declares a parameter twice.
pub proof fn lemma_arg_names_distinct(i: nat, j: nat)
    requires
        i != j,
    ensures
        arg_name(i) != arg_name(j),
{
    reveal_strlit("arg");
    if arg_name(i) == arg_name(j) {
        assert(arg_name(i).subrange(3, arg_name(i).len() as int) =~= decimal(i));
        assert(arg_name(j).subrange(3, arg_name(j).len() as int) =~= decimal(j));
        crate::text::lemma_decimal_injective(i, j);
    }
}

/// The first declaration is the component's own struct, and after it come
/// exactly one declaration per struct and enum node in the methods'
/// signatures.
pub proof fn lemma_import_items(c: Component)
    requires
        component_supported(c),
    ensures
        import_items(c)[0] == component_struct(c.name@),
        import_items(c).len() == 1 + methods_count(c.methods@),
{
    lemma_methods_items_count(c.methods@);
}

/// The number of struct and enum nodes in the signatures of `ms`.
pub open spec fn methods_count(ms: Seq<Method>) -> nat
    decreases ms.len(),
{
    if ms.len() == 0 {
        0
    } else {
        methods_count(ms.drop_last()) + list_count(ms.last().inputs@) + named_count(
            ms.last().output,
        )
    }
}

/// The declarations that supported signatures need number their struct
/// and enum nodes.
pub proof fn lemma_methods_items_count(ms: Seq<Method>)
    requires
        methods_supported(ms),
    ensures
        methods_items(ms).len() == methods_count(ms),
    decreases ms.len(),
{
    if ms.len() > 0 {
        lemma_methods_items_count(ms.drop_last());
        crate::native::lemma_list_items_count(ms.last().inputs@);
        crate::native::lemma_items_count(ms.last().output);
    }
}

} // verus!

verus! {

// ---------------------------------------------------------------------------
// Receivers, argument order and method order
// ---------------------------------------------------------------------------

/// The parameter list of a generated method: `&self` for an immutable
/// method, `&mut self` for a mutable one, nothing for a stateless one,
/// whatever its inputs; then `argI : type` for each input in the ABI's
/// order; all separated by commas.
pub proof fn lemma_params_order(m: Method)
    ensures
        ({
            let args = Seq::new(
                m.inputs@.len(),
                |i: int| "arg"@ + decimal(i as nat) + " : "@ + type_text(m.inputs@[i]),
            );
            match m.mutability {
                Mutability::Stateless => params(m) == join(args, " , "@),
                Mutability::Immutable => params(m) == join(seq!["&self"@] + args, " , "@),
                Mutability::Mutable => params(m) == join(seq!["&mut self"@] + args, " , "@),
            }
        }),
{
    let args = Seq::new(
        m.inputs@.len(),
        |i: int| "arg"@ + decimal(i as nat) + " : "@ + type_text(m.inputs@[i]),
    );
    assert(arg_decls(m.inputs@) =~= args);
    match m.mutability {
        Mutability::Stateless => assert(receiver(m.mutability) + args =~= args),
        _ => {},
    }
}

/// The receiver text that a method of the given mutability takes.
pub open spec fn receiver_text(m: Mutability) -> Seq<char> {
    match m {
        Mutability::Stateless => Seq::empty(),
        Mutability::Immutable => "&self"@,
        Mutability::Mutable => "&mut self"@,
    }
}

/// The parameter list starts with the receiver text.
proof fn lemma_params_receiver(m: Method)
    ensures
        receiver_text(m.mutability).len() <= params(m).len(),
        params(m).subrange(0, receiver_text(m.mutability).len() as int) == receiver_text(
            m.mutability,
        ),
{
    lemma_params_order(m);
    let args = Seq::new(
        m.inputs@.len(),
        |i: int| "arg"@ + decimal(i as nat) + " : "@ + type_text(m.inputs@[i]),
    );
    let r = receiver_text(m.mutability);
    let p = params(m);
    match m.mutability {
        Mutability::Stateless => {
            assert(p.subrange(0, 0) =~= r);
        },
        Mutability::Immutable => {
            let parts = seq!["&self"@] + args;
            assert(parts[0] == r);
            crate::text::lemma_join_first(parts, " , "@);
        },
        Mutability::Mutable => {
            let parts = seq!["&mut self"@] + args;
            assert(parts[0] == r);
            crate::text::lemma_join_first(parts, " , "@);
        },
    }
}

/// What follows the parameter list in a generated method.
spec fn method_tail(c: Component, m: Method) -> Seq<char> {
    " ) -> "@ + type_text(m.output) + " { "@ + address_stmt(c.blueprint@, m.mutability)
        + " scrypto::call! ( "@ + type_text(m.output) + " , "@ + quoted(c.name@) + " , "@
        + quoted(m.name@) + " , address"@ + call_args(m.inputs@.len()) + " ) }"@
}

proof fn lemma_method_fn_split(c: Component, m: Method)
    ensures
        method_fn(c, m) == "pub fn "@ + m.name@ + " ( "@ + params(m) + method_tail(c, m),
{
    assert(method_fn(c, m) =~= "pub fn "@ + m.name@ + " ( "@ + params(m) + method_tail(c, m));
}

/// Every generated method starts with `pub fn`, its name, the opening
/// parenthesis and then its receiver: `&self` for an immutable method and
/// `&mut self` for a mutable one, with or without inputs.
pub proof fn lemma_method_receiver(c: Component, m: Method)
    ensures
        ({
            let head = "pub fn "@ + m.name@ + " ( "@ + receiver_text(m.mutability);
            method_fn(c, m).subrange(0, head.len() as int) == head
        }),
{
    lemma_method_fn_split(c, m);
    lemma_params_receiver(m);
    let open = "pub fn "@ + m.name@ + " ( "@;
    let p = params(m);
    let r = receiver_text(m.mutability);
    let w = open + p + method_tail(c, m);
    assert(w.subrange(0, (open.len() + r.len()) as int) =~= open + p.subrange(0, r.len() as int));
}

/// The arguments of the call, `, argI` for each input in the ABI's order.
pub proof fn lemma_call_args_order(n: nat)
    ensures
        call_args(n) == join(
            Seq::new(n, |i: int| " , "@ + "arg"@ + decimal(i as nat)),
            Seq::<char>::empty(),
        ),
    decreases n,
{
    let parts = Seq::new(n, |i: int| " , "@ + "arg"@ + decimal(i as nat));
    if n >= 1 {
        lemma_call_args_order((n - 1) as nat);
        let prev = Seq::new((n - 1) as nat, |i: int| " , "@ + "arg"@ + decimal(i as nat));
        assert(parts.drop_last() =~= prev);
        if n == 1 {
            assert(call_args(n) =~= parts[0]);
        } else {
            assert(join(parts, Seq::<char>::empty()) =~= join(prev, Seq::<char>::empty())
                + parts[n - 1]);
            assert(call_args(n) =~= join(parts, Seq::<char>::empty()));
        }
    }
}

/// The generated methods come in the ABI's order, each after a space.
pub proof fn lemma_method_fns_order(c: Component, ms: Seq<Method>)
    ensures
        method_fns(c, ms) == join(
            Seq::new(ms.len(), |i: int| " "@ + method_fn(c, ms[i])),
            Seq::<char>::empty(),
        ),
    decreases ms.len(),
{
    let parts = Seq::new(ms.len(), |i: int| " "@ + method_fn(c, ms[i]));
    if ms.len() >= 1 {
        let prev = ms.drop_last();
        lemma_method_fns_order(c, prev);
        let prev_parts = Seq::new(prev.len(), |i: int| " "@ + method_fn(c, prev[i]));
        assert(parts.drop_last() =~= prev_parts);
        if ms.len() == 1 {
            assert(method_fns(c, ms) =~= parts[0]);
        } else {
            assert(join(parts, Seq::<char>::empty()) =~= join(prev_parts, Seq::<char>::empty())
                + parts[ms.len() - 1]);
            assert(method_fns(c, ms) =~= join(parts, Seq::<char>::empty()));
        }
    }
}

/// The declarations that the signatures need: for each method in the ABI's
/// order, those of its inputs in order and then those of its output.
pub proof fn lemma_methods_items_order(ms: Seq<Method>)
    ensures
        methods_items(ms) == Seq::new(
            ms.len(),
            |i: int| list_items(ms[i].inputs@) + type_items(ms[i].output),
        ).flatten(),
    decreases ms.len(),
{
    let parts = Seq::new(ms.len(), |i: int| list_items(ms[i].inputs@) + type_items(ms[i].output));
    if ms.len() > 0 {
        let prev = ms.drop_last();
        lemma_methods_items_order(prev);
        let prev_parts = Seq::new(
            prev.len(),
            |i: int| list_items(prev[i].inputs@) + type_items(prev[i].output),
        );
        let last = list_items(ms.last().inputs@) + type_items(ms.last().output);
        assert(parts =~= prev_parts.push(last));
        prev_parts.lemma_flatten_push(last);
        assert(methods_items(ms) =~= methods_items(prev) + last);
    }
    assert(methods_items(ms) =~= parts.flatten());
}

/// A component with valid names has a plain identifier as its name and as
/// the name of each of its methods.
pub proof fn lemma_component_names(c: Component)
    requires
        component_names_ok(c),
    ensures
        plain_ident_ok(c.name@),
        forall|i: int| 0 <= i < c.methods@.len() ==> plain_ident_ok(#[trigger] c.methods@[i].name@),
{
    assert forall|i: int| 0 <= i < c.methods@.len() implies plain_ident_ok(
        #[trigger] c.methods@[i].name@,
    ) by {
        lemma_method_name_ok(c.methods@, i);
    }
}

proof fn lemma_method_name_ok(ms: Seq<Method>, i: int)
    requires
        methods_names_ok(ms),
        0 <= i < ms.len(),
    ensures
        plain_ident_ok(ms[i].name@),
    decreases ms.len(),
{
    if i < ms.len() - 1 {
        lemma_method_name_ok(ms.drop_last(), i);
    }
}

} // verus!
