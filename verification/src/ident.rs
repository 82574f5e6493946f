//! Which names the generated code may use as identifiers.
//!
//! A name is checked character by character against the Unicode
//! identifier properties, and against the words that cannot be parsed as an
//! identifier. The answer depends on the name alone.

use vstd::prelude::*;

verus! {

/// Whether `c` has the Unicode property XID_Start.
pub uninterp spec fn xid_start(c: char) -> bool;

/// Whether `c` has the Unicode property XID_Continue.
pub uninterp spec fn xid_continue(c: char) -> bool;

/// Calls `unicode_ident::is_xid_start`, a lookup in the crate's static
/// Unicode tables. The contract names its answer `xid_start(c)`.
#[verifier::external_body]
fn xid_start_of(c: char) -> (b: bool)
    ensures
        b == xid_start(c),
{
    unicode_ident::is_xid_start(c)
}

/// Calls `unicode_ident::is_xid_continue`, a lookup in the crate's static
/// Unicode tables. The contract names its answer `xid_continue(c)`.
#[verifier::external_body]
fn xid_continue_of(c: char) -> (b: bool)
    ensures
        b == xid_continue(c),
{
    unicode_ident::is_xid_continue(c)
}

/// A character that can start an identifier: `_` or an XID_Start character.
pub open spec fn ident_start(c: char) -> bool {
    c == '_' || xid_start(c)
}

/// One identifier token without the raw prefix: a start character followed
/// by XID_Continue characters.
pub open spec fn bare_ident(s: Seq<char>) -> bool {
    &&& s.len() > 0
    &&& ident_start(s[0])
    &&& forall|i: int| 1 <= i < s.len() ==> #[trigger] xid_continue(s[i])
}

/// The words that the parser of the generated code does not take as an
/// identifier: `_` and the keywords, reserved words included.
pub open spec fn reserved_word(s: Seq<char>) -> bool {
    ||| s == "_"@
    ||| s == "abstract"@
    ||| s == "as"@
    ||| s == "become"@
    ||| s == "box"@
    ||| s == "break"@
    ||| s == "const"@
    ||| s == "continue"@
    ||| s == "crate"@
    ||| s == "do"@
    ||| s == "else"@
    ||| s == "enum"@
    ||| s == "extern"@
    ||| s == "false"@
    ||| s == "final"@
    ||| s == "fn"@
    ||| s == "for"@
    ||| s == "if"@
    ||| s == "impl"@
    ||| s == "in"@
    ||| s == "let"@
    ||| s == "loop"@
    ||| s == "macro"@
    ||| s == "match"@
    ||| s == "mod"@
    ||| s == "move"@
    ||| s == "mut"@
    ||| s == "override"@
    ||| s == "priv"@
    ||| s == "pub"@
    ||| s == "ref"@
    ||| s == "return"@
    ||| s == "Self"@
    ||| s == "self"@
    ||| s == "static"@
    ||| s == "struct"@
    ||| s == "super"@
    ||| s == "trait"@
    ||| s == "true"@
    ||| s == "type"@
    ||| s == "typeof"@
    ||| s == "unsafe"@
    ||| s == "unsized"@
    ||| s == "use"@
    ||| s == "virtual"@
    ||| s == "where"@
    ||| s == "while"@
    ||| s == "yield"@
}

/// The words that cannot follow the raw prefix `r#`.
pub open spec fn raw_forbidden(s: Seq<char>) -> bool {
    ||| s == "_"@
    ||| s == "super"@
    ||| s == "self"@
    ||| s == "Self"@
    ||| s == "crate"@
}

/// Whether `s` starts with the raw-identifier prefix `r#`.
pub open spec fn has_raw_prefix(s: Seq<char>) -> bool {
    s.len() >= 2 && s[0] == 'r' && s[1] == '#'
}

/// A name that can stand as an identifier in the generated code: a raw
/// identifier (`r#type`) whose word may be raw, or an identifier token that
/// is not a reserved word.
pub open spec fn ident_ok(s: Seq<char>) -> bool {
    if has_raw_prefix(s) {
        bare_ident(s.skip(2)) && !raw_forbidden(s.skip(2))
    } else {
        bare_ident(s) && !reserved_word(s)
    }
}

/// A name that can stand as a field name: an identifier, or `_`.
pub open spec fn field_ident_ok(s: Seq<char>) -> bool {
    ident_ok(s) || s == "_"@
}

/// An identifier written without the raw prefix: what the component's name
/// and its method names must be, since they are taken as written.
pub open spec fn plain_ident_ok(s: Seq<char>) -> bool {
    ident_ok(s) && !has_raw_prefix(s)
}

/// Whether two strings are equal.
fn same_str(a: &str, b: &str) -> (r: bool)
    ensures
        r == (a@ == b@),
{
    String::from_str(a) == String::from_str(b)
}

/// Whether `s` is `_` or a keyword.
pub fn is_reserved_word(s: &str) -> (b: bool)
    ensures
        b == reserved_word(s@),
{
    same_str(s, "_")
        || same_str(s, "abstract")
        || same_str(s, "as")
        || same_str(s, "become")
        || same_str(s, "box")
        || same_str(s, "break")
        || same_str(s, "const")
        || same_str(s, "continue")
        || same_str(s, "crate")
        || same_str(s, "do")
        || same_str(s, "else")
        || same_str(s, "enum")
        || same_str(s, "extern")
        || same_str(s, "false")
        || same_str(s, "final")
        || same_str(s, "fn")
        || same_str(s, "for")
        || same_str(s, "if")
        || same_str(s, "impl")
        || same_str(s, "in")
        || same_str(s, "let")
        || same_str(s, "loop")
        || same_str(s, "macro")
        || same_str(s, "match")
        || same_str(s, "mod")
        || same_str(s, "move")
        || same_str(s, "mut")
        || same_str(s, "override")
        || same_str(s, "priv")
        || same_str(s, "pub")
        || same_str(s, "ref")
        || same_str(s, "return")
        || same_str(s, "Self")
        || same_str(s, "self")
        || same_str(s, "static")
        || same_str(s, "struct")
        || same_str(s, "super")
        || same_str(s, "trait")
        || same_str(s, "true")
        || same_str(s, "type")
        || same_str(s, "typeof")
        || same_str(s, "unsafe")
        || same_str(s, "unsized")
        || same_str(s, "use")
        || same_str(s, "virtual")
        || same_str(s, "where")
        || same_str(s, "while")
        || same_str(s, "yield")
}

/// Whether `s` is one identifier token without the raw prefix.
pub fn is_bare_ident(s: &str) -> (b: bool)
    ensures
        b == bare_ident(s@),
{
    let n = s.unicode_len();
    if n == 0 {
        return false;
    }
    let first = s.get_char(0);
    if !(first == '_' || xid_start_of(first)) {
        return false;
    }
    for i in 1..n
        invariant
            n == s@.len(),
            forall|j: int| 1 <= j < i ==> #[trigger] xid_continue(s@[j]),
    {
        if !xid_continue_of(s.get_char(i)) {
            return false;
        }
    }
    true
}

/// Whether `s` can name a generated struct, enum or variant.
pub fn is_ident(s: &str) -> (b: bool)
    ensures
        b == ident_ok(s@),
{
    let n = s.unicode_len();
    if n >= 2 && s.get_char(0) == 'r' && s.get_char(1) == '#' {
        let rest = s.substring_char(2, n);
        assert(rest@ =~= s@.skip(2));
        let bare = is_bare_ident(rest);
        let forbidden = same_str(rest, "_") || same_str(rest, "super") || same_str(rest, "self")
            || same_str(rest, "Self") || same_str(rest, "crate");
        bare && !forbidden
    } else {
        let bare = is_bare_ident(s);
        let reserved = is_reserved_word(s);
        bare && !reserved
    }
}

/// Whether `s` can name a field of a generated struct or variant.
pub fn is_field_ident(s: &str) -> (b: bool)
    ensures
        b == field_ident_ok(s@),
{
    let a = is_ident(s);
    a || same_str(s, "_")
}

/// Whether `s` can name the generated component or one of its methods.
pub fn is_plain_ident(s: &str) -> (b: bool)
    ensures
        b == plain_ident_ok(s@),
{
    let raw = s.unicode_len() >= 2 && s.get_char(0) == 'r' && s.get_char(1) == '#';
    !raw && is_ident(s)
}

} // verus!

verus! {

/// No keyword of Rust 2015, strict or reserved, can name anything in the
/// generated code: not a struct, enum or variant, not a field, not the
/// component or a method.
pub proof fn lemma_keywords_not_idents(s: Seq<char>)
    requires
        ({
        ||| s == "as"@
        ||| s == "break"@
        ||| s == "const"@
        ||| s == "continue"@
        ||| s == "crate"@
        ||| s == "else"@
        ||| s == "enum"@
        ||| s == "extern"@
        ||| s == "false"@
        ||| s == "fn"@
        ||| s == "for"@
        ||| s == "if"@
        ||| s == "impl"@
        ||| s == "in"@
        ||| s == "let"@
        ||| s == "loop"@
        ||| s == "match"@
        ||| s == "mod"@
        ||| s == "move"@
        ||| s == "mut"@
        ||| s == "pub"@
        ||| s == "ref"@
        ||| s == "return"@
        ||| s == "self"@
        ||| s == "Self"@
        ||| s == "static"@
        ||| s == "struct"@
        ||| s == "super"@
        ||| s == "trait"@
        ||| s == "true"@
        ||| s == "type"@
        ||| s == "unsafe"@
        ||| s == "use"@
        ||| s == "where"@
        ||| s == "while"@
        ||| s == "abstract"@
        ||| s == "become"@
        ||| s == "box"@
        ||| s == "do"@
        ||| s == "final"@
        ||| s == "macro"@
        ||| s == "override"@
        ||| s == "priv"@
        ||| s == "typeof"@
        ||| s == "unsized"@
        ||| s == "virtual"@
        ||| s == "yield"@
        }),
    ensures
        !ident_ok(s),
        !field_ident_ok(s),
        !plain_ident_ok(s),
{
    reveal_strlit("_");
    reveal_strlit("as");
    reveal_strlit("break");
    reveal_strlit("const");
    reveal_strlit("continue");
    reveal_strlit("crate");
    reveal_strlit("else");
    reveal_strlit("enum");
    reveal_strlit("extern");
    reveal_strlit("false");
    reveal_strlit("fn");
    reveal_strlit("for");
    reveal_strlit("if");
    reveal_strlit("impl");
    reveal_strlit("in");
    reveal_strlit("let");
    reveal_strlit("loop");
    reveal_strlit("match");
    reveal_strlit("mod");
    reveal_strlit("move");
    reveal_strlit("mut");
    reveal_strlit("pub");
    reveal_strlit("ref");
    reveal_strlit("return");
    reveal_strlit("self");
    reveal_strlit("Self");
    reveal_strlit("static");
    reveal_strlit("struct");
    reveal_strlit("super");
    reveal_strlit("trait");
    reveal_strlit("true");
    reveal_strlit("type");
    reveal_strlit("unsafe");
    reveal_strlit("use");
    reveal_strlit("where");
    reveal_strlit("while");
    reveal_strlit("abstract");
    reveal_strlit("become");
    reveal_strlit("box");
    reveal_strlit("do");
    reveal_strlit("final");
    reveal_strlit("macro");
    reveal_strlit("override");
    reveal_strlit("priv");
    reveal_strlit("typeof");
    reveal_strlit("unsized");
    reveal_strlit("virtual");
    reveal_strlit("yield");
    assert(s.len() >= 2);
    assert("_"@.len() == 1);
    assert(s != "_"@);
}

} // verus!
