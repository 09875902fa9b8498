//! Extraction of a bundle descriptor from a source file that binds
//! `weslBundle` to an object literal at top level.
//!
//! The outside parser turns the text into a syntax tree; the shapes that
//! extraction reads (see `js_ast`) are recovered from it behind trusted
//! conversions, and everything from there on — finding the first `weslBundle`
//! binding, reading its `name`, `edition` and `modules` properties, deciding
//! which error to report — is verified against the specification functions
//! below.

use vstd::prelude::*;

use crate::js_ast::{key_name, str_value, JsDeclarator, JsKey, JsProperty, JsStatement, JsValue};
use crate::{WeslBundle, WeslResolveError};

verus! {

// ---------------------------------------------------------------------------
// Specification of extraction
// ---------------------------------------------------------------------------

/// The module entries contributed by an object literal's properties, in
/// source order: every plain property whose value is a string literal
/// contributes its key's name and the string; other properties contribute
/// nothing.
pub open spec fn modules_of(props: Seq<JsProperty>) -> Seq<(Seq<char>, Seq<char>)>
    decreases props.len(),
{
    if props.len() == 0 {
        Seq::empty()
    } else {
        let rest = modules_of(props.drop_last());
        match props.last() {
            JsProperty::Entry(k, v) => match v {
                JsValue::Str(s) => rest.push((key_name(k), s@)),
                _ => rest,
            },
            JsProperty::Spread => rest,
        }
    }
}

/// The module entries a `modules` value contributes: those of an object
/// literal, nothing for any other value.
pub open spec fn modules_list(v: JsValue) -> Seq<(Seq<char>, Seq<char>)> {
    match v {
        JsValue::Object(props) => modules_of(props@),
        _ => Seq::empty(),
    }
}

/// The fields gathered while scanning the bundle object's properties.
pub struct BundleFields {
    pub name: Option<Seq<char>>,
    pub edition: Option<Seq<char>>,
    pub modules: Seq<(Seq<char>, Seq<char>)>,
}

/// One property's effect on the gathered fields: a later `name`, `edition`
/// or `modules` property overwrites an earlier one, a `name` or `edition`
/// whose value is not a string literal overwrites with absence, and any
/// other property changes nothing.
pub open spec fn scan_step(acc: BundleFields, p: JsProperty) -> BundleFields {
    match p {
        JsProperty::Entry(k, v) => {
            if key_name(k) == "name"@ {
                BundleFields { name: str_value(v), edition: acc.edition, modules: acc.modules }
            } else if key_name(k) == "edition"@ {
                BundleFields { name: acc.name, edition: str_value(v), modules: acc.modules }
            } else if key_name(k) == "modules"@ {
                BundleFields { name: acc.name, edition: acc.edition, modules: modules_list(v) }
            } else {
                acc
            }
        },
        JsProperty::Spread => acc,
    }
}

/// The fields gathered from all properties of the bundle object, in order.
pub open spec fn scan_fields(props: Seq<JsProperty>) -> BundleFields
    decreases props.len(),
{
    if props.len() == 0 {
        BundleFields { name: None, edition: None, modules: Seq::empty() }
    } else {
        scan_step(scan_fields(props.drop_last()), props.last())
    }
}

/// The initializer of the first declarator in `decls` that binds the plain
/// identifier `weslBundle` and has an initializer.
pub open spec fn decl_bundle_init(decls: Seq<JsDeclarator>) -> Option<JsValue>
    decreases decls.len(),
{
    if decls.len() == 0 {
        None
    } else {
        match decls.first() {
            JsDeclarator::Ident(name, oinit) => match oinit {
                Some(init) => {
                    if name@ == "weslBundle"@ {
                        Some(init)
                    } else {
                        decl_bundle_init(decls.drop_first())
                    }
                },
                None => decl_bundle_init(decls.drop_first()),
            },
            JsDeclarator::Pattern => decl_bundle_init(decls.drop_first()),
        }
    }
}

/// The initializer of the first top-level `weslBundle` binding of the file.
pub open spec fn first_bundle_init(statements: Seq<JsStatement>) -> Option<JsValue>
    decreases statements.len(),
{
    if statements.len() == 0 {
        None
    } else {
        let head = match statements.first() {
            JsStatement::VarDecl(ds) => decl_bundle_init(ds@),
            JsStatement::Other => None,
        };
        if head is Some {
            head
        } else {
            first_bundle_init(statements.drop_first())
        }
    }
}

/// Extraction succeeds exactly when the first `weslBundle` initializer is an
/// object literal carrying both a `name` and an `edition`.
pub open spec fn extraction_succeeds(statements: Seq<JsStatement>) -> bool {
    match first_bundle_init(statements) {
        Some(init) => match init {
            JsValue::Object(props) => scan_fields(props@).name is Some && scan_fields(
                props@,
            ).edition is Some,
            _ => false,
        },
        None => false,
    }
}

/// `b` is the descriptor extraction owes for `statements`: the gathered
/// `name` and `edition`, the gathered module entries in order, and no
/// dependencies.
pub open spec fn extraction_ok(statements: Seq<JsStatement>, b: WeslBundle) -> bool {
    match first_bundle_init(statements) {
        Some(init) => match init {
            JsValue::Object(props) => {
                let f = scan_fields(props@);
                &&& f.name matches Some(n)
                &&& f.edition matches Some(ed)
                &&& b.name@ == n
                &&& b.edition@ == ed
                &&& b.modules.deep_view() == f.modules
                &&& b.dependencies@.len() == 0
            },
            _ => false,
        },
        None => false,
    }
}

/// `e` is the error extraction owes for `statements`: no usable `weslBundle`
/// binding (none at all, or one whose value is not an object literal) is
/// reported as absent, and an object literal lacking `name` or `edition` is
/// reported with exactly the missing fields.
pub open spec fn extraction_err(path: Seq<char>, statements: Seq<JsStatement>, e: WeslResolveError) -> bool {
    match first_bundle_init(statements) {
        Some(init) => match init {
            JsValue::Object(props) => {
                let f = scan_fields(props@);
                &&& !(f.name is Some && f.edition is Some)
                &&& e matches WeslResolveError::MissingFieldError {
                    path: p,
                    missing_name,
                    missing_edition,
                }
                &&& p@ == path
                &&& missing_name == (f.name is None)
                &&& missing_edition == (f.edition is None)
            },
            _ => e matches WeslResolveError::NotFoundError { path: p } && p@ == path,
        },
        None => e matches WeslResolveError::NotFoundError { path: p } && p@ == path,
    }
}

/// What the outside parser yields for a file: the shapes of the top-level
/// statements, or the diagnostics of a failed parse. A function of the path
/// (whose extension selects the source kind) and the text alone.
pub uninterp spec fn js_parse(path: Seq<char>, text: Seq<char>) -> Result<
    Seq<JsStatement>,
    Seq<Seq<char>>,
>;

/// Parsing `path`/`text` succeeds and yields statements owing descriptor `b`.
pub open spec fn bundle_matches_source(path: Seq<char>, text: Seq<char>, b: WeslBundle) -> bool {
    js_parse(path, text) matches Ok(statements) && extraction_ok(statements, b)
}

/// `e` is the error owed for `path`/`text`: the parser's own diagnostics as
/// a syntax error, or the extraction error owed for the parsed statements.
pub open spec fn error_matches_source(path: Seq<char>, text: Seq<char>, e: WeslResolveError) -> bool {
    match js_parse(path, text) {
        Err(d) => {
            &&& e matches WeslResolveError::SyntaxError { path: p, diagnostics }
            &&& p@ == path
            &&& diagnostics.deep_view() == d
        },
        Ok(statements) => extraction_err(path, statements, e),
    }
}

/// Parsing `path`/`text` succeeds and extraction of a descriptor is owed.
pub open spec fn source_ok(path: Seq<char>, text: Seq<char>) -> bool {
    js_parse(path, text) matches Ok(statements) && extraction_succeeds(statements)
}

// ---------------------------------------------------------------------------
// The outside parser, behind trusted items
// ---------------------------------------------------------------------------

/// oxc's statement node, declared so that the conversions below can take it.
#[verifier::external_type_specification]
#[verifier::external_body]
pub struct ExStatement<'a>(oxc_ast::ast::Statement<'a>);

/// oxc's variable declarator node.
#[verifier::external_type_specification]
#[verifier::external_body]
pub struct ExVariableDeclarator<'a>(oxc_ast::ast::VariableDeclarator<'a>);

/// oxc's expression node.
#[verifier::external_type_specification]
#[verifier::external_body]
pub struct ExExpression<'a>(oxc_ast::ast::Expression<'a>);

/// oxc's object-literal property node.
#[verifier::external_type_specification]
#[verifier::external_body]
pub struct ExObjectPropertyKind<'a>(oxc_ast::ast::ObjectPropertyKind<'a>);

/// Relies on `oxc_ast::ast::Statement`: a variable declaration, bare or
/// behind `export`, carries its declarators in source order; every other
/// statement kind is opaque to extraction.
#[verifier::external_body]
fn statement_shape(s: &oxc_ast::ast::Statement) -> JsStatement {
    match s {
        oxc_ast::ast::Statement::VariableDeclaration(d) => {
            JsStatement::VarDecl(d.declarations.iter().map(declarator_shape).collect())
        },
        oxc_ast::ast::Statement::ExportNamedDeclaration(e) => match &e.declaration {
            Some(oxc_ast::ast::Declaration::VariableDeclaration(d)) => {
                JsStatement::VarDecl(d.declarations.iter().map(declarator_shape).collect())
            },
            _ => JsStatement::Other,
        },
        _ => JsStatement::Other,
    }
}

/// Relies on `oxc_ast::ast::VariableDeclarator`: a plain identifier binding
/// carries its name and its initializer, if any; a destructuring pattern is
/// opaque to extraction.
#[verifier::external_body]
fn declarator_shape(d: &oxc_ast::ast::VariableDeclarator) -> JsDeclarator {
    match &d.id {
        oxc_ast::ast::BindingPattern::BindingIdentifier(b) => {
            JsDeclarator::Ident(b.name.as_str().to_owned(), d.init.as_ref().map(expression_shape))
        },
        _ => JsDeclarator::Pattern,
    }
}

/// Relies on `oxc_ast::ast::Expression`: a string literal carries its
/// unescaped value, an object literal its properties in source order; every
/// other expression kind is opaque to extraction.
#[verifier::external_body]
fn expression_shape(e: &oxc_ast::ast::Expression) -> JsValue {
    match e {
        oxc_ast::ast::Expression::StringLiteral(lit) => JsValue::Str(lit.value.as_str().to_owned()),
        oxc_ast::ast::Expression::ObjectExpression(obj) => {
            JsValue::Object(obj.properties.iter().map(property_shape).collect())
        },
        _ => JsValue::Other,
    }
}

/// Relies on `oxc_ast::ast::ObjectPropertyKind`: a plain property carries its
/// key — an identifier, a string literal, or a computed key — and its value;
/// a spread entry is kept as such.
#[verifier::external_body]
fn property_shape(p: &oxc_ast::ast::ObjectPropertyKind) -> JsProperty {
    match p {
        oxc_ast::ast::ObjectPropertyKind::ObjectProperty(prop) => {
            let key = match &prop.key {
                oxc_ast::ast::PropertyKey::StaticIdentifier(id) => {
                    JsKey::Ident(id.name.as_str().to_owned())
                },
                oxc_ast::ast::PropertyKey::StringLiteral(lit) => {
                    JsKey::Lit(lit.value.as_str().to_owned())
                },
                _ => JsKey::Computed,
            };
            JsProperty::Entry(key, expression_shape(&prop.value))
        },
        oxc_ast::ast::ObjectPropertyKind::SpreadProperty(_) => JsProperty::Spread,
    }
}

/// Relies on `oxc_parser::Parser::parse`, with the source kind inferred from
/// the path's extension by `oxc_span::SourceType::from_path` (an ECMAScript
/// module when inference fails): a clean parse yields the shapes of the
/// program's top-level statements in order, a failed one the parser's
/// diagnostics; both are functions of the path and the text alone, which
/// `js_parse` names.
#[verifier::external_body]
fn parse_program(file_path: &String, source_text: &String) -> (r: Result<
    Vec<JsStatement>,
    Vec<String>,
>)
    ensures
        match r {
            Ok(statements) => js_parse(file_path@, source_text@) matches Ok(s) && statements@ == s,
            Err(diagnostics) => js_parse(file_path@, source_text@) matches Err(d)
                && diagnostics.deep_view() == d,
        },
{
    let source_type = oxc_span::SourceType::from_path(file_path.as_str())
        .unwrap_or(oxc_span::SourceType::mjs());
    let allocator = oxc_allocator::Allocator::default();
    let ret = oxc_parser::Parser::new(&allocator, source_text.as_str(), source_type).parse();
    if ret.diagnostics.has_errors() {
        return Err(ret.diagnostics.into_vec().iter().map(|e| e.to_string()).collect());
    }
    Ok(ret.program.body.iter().map(statement_shape).collect())
}

// ---------------------------------------------------------------------------
// Verified extraction
// ---------------------------------------------------------------------------

/// The characters of an exec option of a string.
pub open spec fn opt_str_view(o: Option<String>) -> Option<Seq<char>> {
    match o {
        Some(s) => Some(s@),
        None => None,
    }
}

/// The string a property key contributes; computed keys contribute the empty
/// string.
pub fn get_property_key(key: &JsKey) -> (r: String)
    ensures
        r@ == key_name(*key),
{
    match key {
        JsKey::Ident(s) => s.clone(),
        JsKey::Lit(s) => s.clone(),
        JsKey::Computed => String::new(),
    }
}

/// The value of a string-literal expression; `None` for anything else.
pub fn extract_string(value: &JsValue) -> (r: Option<String>)
    ensures
        opt_str_view(r) == str_value(*value),
{
    match value {
        JsValue::Str(s) => Some(s.clone()),
        _ => None,
    }
}

/// The module entries of a `modules` value: each plain property of an object
/// literal whose value is a string literal, as a (module path, source text)
/// pair, in source order.
pub fn extract_modules_object(value: &JsValue) -> (r: Vec<(String, String)>)
    ensures
        r.deep_view() == modules_list(*value),
{
    let mut out: Vec<(String, String)> = Vec::new();
    match value {
        JsValue::Object(props) => {
            let mut k: usize = 0;
            while k < props.len()
                invariant
                    k <= props@.len(),
                    out.deep_view() == modules_of(props@.take(k as int)),
                decreases props@.len() - k,
            {
                let ghost old_out = out@;
                let ghost old_dv = out.deep_view();
                match &props[k] {
                    JsProperty::Entry(key, val) => match val {
                        JsValue::Str(s) => {
                            let ks = get_property_key(key);
                            out.push((ks, s.clone()));
                        },
                        _ => {},
                    },
                    JsProperty::Spread => {},
                }
                k = k + 1;
                proof {
                    assert(props@.take(k as int).drop_last() =~= props@.take(k - 1));
                    assert(props@.take(k as int).last() == props@[k - 1]);
                    assert forall|t: int| 0 <= t < old_out.len() implies out.deep_view()[t]
                        == old_dv[t] by {
                        assert(out@[t] == old_out[t]);
                    }
                    assert(out.deep_view() =~= modules_of(props@.take(k as int)));
                }
            }
            proof {
                assert(props@.take(props@.len() as int) =~= props@);
            }
        },
        _ => {},
    }
    out
}

/// The initializer of the first declarator in `decls` binding `weslBundle`.
fn decl_list_bundle_init<'a>(decls: &'a Vec<JsDeclarator>) -> (r: Option<&'a JsValue>)
    ensures
        match r {
            Some(v) => decl_bundle_init(decls@) == Some(*v),
            None => decl_bundle_init(decls@) is None,
        },
{
    let target = String::from_str("weslBundle");
    let mut j: usize = 0;
    proof {
        assert(decls@.skip(0) =~= decls@);
    }
    while j < decls.len()
        invariant
            j <= decls@.len(),
            target@ == "weslBundle"@,
            decl_bundle_init(decls@) == decl_bundle_init(decls@.skip(j as int)),
        decreases decls@.len() - j,
    {
        proof {
            assert(decls@.skip(j as int).first() == decls@[j as int]);
        }
        match &decls[j] {
            JsDeclarator::Ident(name, oinit) => {
                if *name == target {
                    if let Some(init) = oinit {
                        return Some(init);
                    }
                }
            },
            JsDeclarator::Pattern => {},
        }
        j = j + 1;
        proof {
            assert(decls@.skip(j - 1).drop_first() =~= decls@.skip(j as int));
        }
    }
    None
}

/// The initializer of the first top-level `weslBundle` binding.
fn statements_bundle_init<'a>(statements: &'a Vec<JsStatement>) -> (r: Option<&'a JsValue>)
    ensures
        match r {
            Some(v) => first_bundle_init(statements@) == Some(*v),
            None => first_bundle_init(statements@) is None,
        },
{
    let mut i: usize = 0;
    proof {
        assert(statements@.skip(0) =~= statements@);
    }
    while i < statements.len()
        invariant
            i <= statements@.len(),
            first_bundle_init(statements@) == first_bundle_init(statements@.skip(i as int)),
        decreases statements@.len() - i,
    {
        proof {
            assert(statements@.skip(i as int).first() == statements@[i as int]);
        }
        match &statements[i] {
            JsStatement::VarDecl(ds) => {
                if let Some(init) = decl_list_bundle_init(ds) {
                    return Some(init);
                }
            },
            JsStatement::Other => {},
        }
        i = i + 1;
        proof {
            assert(statements@.skip(i - 1).drop_first() =~= statements@.skip(i as int));
        }
    }
    None
}

/// Extract the bundle descriptor owed for the top-level statements of the
/// file at `file_path` (the path only labels errors). The first `weslBundle`
/// binding's object literal provides `name`, `edition` and `modules`; a
/// missing binding — or one whose value is not an object literal — is
/// reported as `NotFoundError`, and a missing `name` or `edition` as
/// `MissingFieldError` naming exactly the absent fields. Dependencies are
/// not extracted yet: they are always empty.
pub fn extract_bundle(file_path: &String, statements: &Vec<JsStatement>) -> (r: Result<
    WeslBundle,
    WeslResolveError,
>)
    ensures
        match r {
            Ok(b) => extraction_ok(statements@, b),
            Err(e) => extraction_err(file_path@, statements@, e),
        },
        r is Ok <==> extraction_succeeds(statements@),
{
    match statements_bundle_init(statements) {
        None => Err(WeslResolveError::NotFoundError { path: file_path.clone() }),
        Some(init) => match init {
            JsValue::Object(props) => {
                let name_key = String::from_str("name");
                let edition_key = String::from_str("edition");
                let modules_key = String::from_str("modules");
                let mut name: Option<String> = None;
                let mut edition: Option<String> = None;
                let mut modules: Vec<(String, String)> = Vec::new();
                let mut k: usize = 0;
                while k < props.len()
                    invariant
                        k <= props@.len(),
                        name_key@ == "name"@,
                        edition_key@ == "edition"@,
                        modules_key@ == "modules"@,
                        opt_str_view(name) == scan_fields(props@.take(k as int)).name,
                        opt_str_view(edition) == scan_fields(props@.take(k as int)).edition,
                        modules.deep_view() == scan_fields(props@.take(k as int)).modules,
                    decreases props@.len() - k,
                {
                    match &props[k] {
                        JsProperty::Entry(key, value) => {
                            let key_str = get_property_key(key);
                            if key_str == name_key {
                                name = extract_string(value);
                            } else if key_str == edition_key {
                                edition = extract_string(value);
                            } else if key_str == modules_key {
                                modules = extract_modules_object(value);
                            }
                        },
                        JsProperty::Spread => {},
                    }
                    k = k + 1;
                    proof {
                        assert(props@.take(k as int).drop_last() =~= props@.take(k - 1));
                        assert(props@.take(k as int).last() == props@[k - 1]);
                    }
                }
                proof {
                    assert(props@.take(props@.len() as int) =~= props@);
                }
                match (name, edition) {
                    (Some(name), Some(edition)) => Ok(
                        WeslBundle { name, edition, modules, dependencies: Vec::new() },
                    ),
                    (name_opt, edition_opt) => Err(
                        WeslResolveError::MissingFieldError {
                            path: file_path.clone(),
                            missing_name: name_opt.is_none(),
                            missing_edition: edition_opt.is_none(),
                        },
                    ),
                }
            },
            _ => Err(WeslResolveError::NotFoundError { path: file_path.clone() }),
        },
    }
}

/// Parse a source text as the file at `file_path` (whose extension selects
/// the source kind) and extract the bundle descriptor it owes: the first
/// top-level `weslBundle` binding's object literal. Parser diagnostics are
/// reported as `SyntaxError`; see `extract_bundle` for the extraction
/// errors. Succeeds exactly when the parse is clean and the descriptor is
/// owed.
pub fn parse_wesl_bundle(file_path: &String, source_text: &String) -> (r: Result<
    WeslBundle,
    WeslResolveError,
>)
    ensures
        r matches Ok(b) ==> bundle_matches_source(file_path@, source_text@, b),
        r matches Err(e) ==> error_matches_source(file_path@, source_text@, e),
        r is Ok <==> source_ok(file_path@, source_text@),
{
    match parse_program(file_path, source_text) {
        Ok(statements) => extract_bundle(file_path, &statements),
        Err(diagnostics) => Err(
            WeslResolveError::SyntaxError { path: file_path.clone(), diagnostics },
        ),
    }
}

} // verus!
