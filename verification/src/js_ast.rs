//! The shape of a parsed source file, as far as bundle extraction reads it:
//! top-level variable declarations, object literals and string literals. Any
//! construct beyond that shape is kept as an opaque marker and skipped by the
//! extraction logic.

use vstd::prelude::*;

verus! {

/// A JavaScript expression as far as extraction reads it.
pub enum JsValue {
    /// A string literal, carrying its unescaped value.
    Str(String),
    /// An object literal, carrying its properties in source order.
    Object(Vec<JsProperty>),
    /// Any other expression.
    Other,
}

/// One entry of an object literal.
pub enum JsProperty {
    /// A plain `key: value` property.
    Entry(JsKey, JsValue),
    /// A spread entry (`...expr`).
    Spread,
}

/// The key of an object-literal property.
pub enum JsKey {
    /// An identifier key, as in `{ name: ... }`.
    Ident(String),
    /// A string-literal key, as in `{ "lib.wgsl": ... }`.
    Lit(String),
    /// A computed or private key.
    Computed,
}

/// One declarator of a variable declaration.
pub enum JsDeclarator {
    /// A plain identifier binding with its initializer, if any.
    Ident(String, Option<JsValue>),
    /// A destructuring pattern.
    Pattern,
}

/// A top-level statement.
pub enum JsStatement {
    /// A variable declaration, possibly behind `export`, with its
    /// declarators in source order.
    VarDecl(Vec<JsDeclarator>),
    /// Any other statement.
    Other,
}

/// The name a property key contributes: computed keys contribute the empty
/// name, which matches no field and names no module.
pub open spec fn key_name(k: JsKey) -> Seq<char> {
    match k {
        JsKey::Ident(s) => s@,
        JsKey::Lit(s) => s@,
        JsKey::Computed => Seq::empty(),
    }
}

/// The characters of a string-literal value; `None` for anything else.
pub open spec fn str_value(v: JsValue) -> Option<Seq<char>> {
    match v {
        JsValue::Str(s) => Some(s@),
        _ => None,
    }
}

} // verus!
