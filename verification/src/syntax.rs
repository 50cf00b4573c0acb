//! The items of a module's syntax tree that the semantic graph reads, held as plain values,
//! and what is read from them: imports, exports, dependencies, top-level names and the
//! properties components take.
use crate::model::{ComponentPropKind, LocalSymbol, LocalView, SourceSpan, SymbolKind};
use crate::parser::{Export, ExportKind, ExportKindView, Import, ImportView, SpecifierView};
use crate::text::str_eq;
use crate::types::duplicate_option;
use swc_ecma_ast::{
    Callee, Decl, DefaultDecl, Expr, Lit, MemberProp, ModuleDecl, ModuleExportName, ModuleItem, NamedExport, Pat, Stmt,
    TsFnOrConstructorType, TsModuleName, TsType, TsTypeElement, VarDeclarator,
};
use vstd::prelude::*;

verus! {

// ─── The items ───────────────────────────────────────────────────────────────

/// One name an import statement binds, as written.
#[derive(Debug)]
pub enum ImportName {
    /// `{ imported as local }`, or `{ local }` when nothing is renamed.
    Named { imported: Option<String>, local: String },
    Default(String),
    Namespace(String),
}

/// One name an export statement lists, as written.
#[derive(Debug)]
pub enum ExportName {
    /// `{ orig as exported }`, or `{ orig }`.
    Named { orig: String, exported: Option<String> },
    /// `default as exported` (in `export default from`).
    Default(String),
    /// `* as name`.
    Namespace(String),
}

/// The key of a member of an object type.
#[derive(Debug)]
pub enum PropKey {
    Ident(String),
    /// A string key, when its value is valid Unicode.
    Str(Option<String>),
    Other,
}

/// The type annotation of a property signature.
#[derive(Debug)]
pub enum PropType {
    Function,
    Other,
    Absent,
}

/// A member of an object type literal.
#[derive(Debug)]
pub enum TypeMember {
    Method(PropKey),
    Property(PropKey, PropType),
    Other,
}

/// The type annotation of an object pattern.
#[derive(Debug)]
pub enum ParamType {
    Literal(Vec<TypeMember>),
    Other,
    Absent,
}

/// A function's first parameter.
#[derive(Debug)]
pub enum Param {
    Object(ParamType),
    Other,
}

/// What a call calls.
#[derive(Debug)]
pub enum CalleeShape {
    Ident(String),
    /// `object.property`, each when it is a plain name.
    Member { object: Option<String>, property: Option<String> },
    Other,
}

/// An expression, as far as the reading looks into it.
#[derive(Debug)]
pub enum ExprShape {
    /// An arrow function, with its first parameter.
    Arrow(Option<Param>),
    /// A function expression, with its first parameter.
    Function(Option<Param>),
    Ident(String),
    /// A call, with its first argument.
    Call { callee: CalleeShape, first_arg: Option<Box<ExprShape>> },
    Other,
}

/// One declarator of a variable declaration.
#[derive(Debug)]
pub struct Declarator {
    /// The declared name, when the target is a plain name.
    pub name: Option<String>,
    pub span: SourceSpan,
    pub init: Option<ExprShape>,
}

/// A declaration.
#[derive(Debug)]
pub enum Declaration {
    Class { name: String, span: SourceSpan },
    Function { name: String, span: SourceSpan, first_param: Option<Param> },
    Var(Vec<Declarator>),
    Using(Vec<Declarator>),
    /// An interface, type alias, enum or namespace, by name.
    Type(String),
}

/// What `export default` declares.
#[derive(Debug)]
pub enum DefaultDeclaration {
    Class(Option<String>),
    Function(Option<String>),
    Interface(String),
}

/// A top-level item of a module.
#[derive(Debug)]
pub enum SyntaxItem {
    Import { source: String, specifiers: Vec<ImportName>, type_only: bool },
    ExportNamed { source: Option<String>, specifiers: Vec<ExportName> },
    ExportAll { source: String },
    ExportDefaultExpr(ExprShape),
    ExportDefaultDecl { decl: DefaultDeclaration, span: SourceSpan },
    ExportDecl(Declaration),
    Declaration(Declaration),
    Other,
}

// ─── Reading the syntax tree ─────────────────────────────────────────────────

#[verifier::external_type_specification]
#[verifier::external_body]
pub struct ExModuleItem(swc_ecma_ast::ModuleItem);

#[verifier::external_type_specification]
#[verifier::external_body]
pub struct ExModuleDecl(swc_ecma_ast::ModuleDecl);

#[verifier::external_type_specification]
#[verifier::external_body]
pub struct ExImportDecl(swc_ecma_ast::ImportDecl);

#[verifier::external_type_specification]
#[verifier::external_body]
pub struct ExNamedExport(swc_ecma_ast::NamedExport);

#[verifier::external_type_specification]
#[verifier::external_body]
pub struct ExModuleExportName(swc_ecma_ast::ModuleExportName);

#[verifier::external_type_specification]
#[verifier::external_body]
pub struct ExDefaultDecl(swc_ecma_ast::DefaultDecl);

#[verifier::external_type_specification]
#[verifier::external_body]
pub struct ExDecl(swc_ecma_ast::Decl);

#[verifier::external_type_specification]
#[verifier::external_body]
pub struct ExVarDeclarator(swc_ecma_ast::VarDeclarator);

#[verifier::external_type_specification]
#[verifier::external_body]
pub struct ExExpr(swc_ecma_ast::Expr);

#[verifier::external_type_specification]
#[verifier::external_body]
pub struct ExCallee(swc_ecma_ast::Callee);

#[verifier::external_type_specification]
#[verifier::external_body]
pub struct ExPat(swc_ecma_ast::Pat);

#[verifier::external_type_specification]
#[verifier::external_body]
pub struct ExTsTypeElement(swc_ecma_ast::TsTypeElement);

/// Converts the items of an `swc_ecma_ast::Module` body, in order.
#[verifier::external_body]
pub(crate) fn module_items(module: &swc_ecma_ast::Module) -> Vec<SyntaxItem> {
    module.body.iter().map(item_of).collect()
}

/// Converts an `swc_ecma_ast::ModuleItem`: module declarations, declaration statements,
/// and everything else as `Other`.
#[verifier::external_body]
fn item_of(item: &ModuleItem) -> SyntaxItem {
    match item {
        ModuleItem::ModuleDecl(decl) => module_decl_of(decl),
        ModuleItem::Stmt(Stmt::Decl(decl)) => SyntaxItem::Declaration(decl_of(decl)),
        _ => SyntaxItem::Other,
    }
}

/// Converts an `swc_ecma_ast::ModuleDecl`; string literals are decoded lossily.
#[verifier::external_body]
fn module_decl_of(decl: &ModuleDecl) -> SyntaxItem {
    match decl {
        ModuleDecl::Import(i) => import_of(i),
        ModuleDecl::ExportNamed(e) => export_named_of(e),
        ModuleDecl::ExportAll(e) => SyntaxItem::ExportAll { source: e.src.value.to_string_lossy().into_owned() },
        ModuleDecl::ExportDefaultExpr(e) => SyntaxItem::ExportDefaultExpr(expr_of(&e.expr)),
        ModuleDecl::ExportDefaultDecl(e) => SyntaxItem::ExportDefaultDecl { decl: default_decl_of(&e.decl), span: SourceSpan { lo: e.span.lo.0, hi: e.span.hi.0 } },
        ModuleDecl::ExportDecl(e) => SyntaxItem::ExportDecl(decl_of(&e.decl)),
        _ => SyntaxItem::Other,
    }
}

/// Converts an `swc_ecma_ast::ImportDecl` (its source decoded lossily).
#[verifier::external_body]
fn import_of(i: &swc_ecma_ast::ImportDecl) -> SyntaxItem {
    let specifiers = i.specifiers.iter().map(|s| match s {
        swc_ecma_ast::ImportSpecifier::Named(n) => ImportName::Named { imported: n.imported.as_ref().map(export_name_text), local: n.local.sym.to_string() },
        swc_ecma_ast::ImportSpecifier::Default(d) => ImportName::Default(d.local.sym.to_string()),
        swc_ecma_ast::ImportSpecifier::Namespace(n) => ImportName::Namespace(n.local.sym.to_string()),
    });
    SyntaxItem::Import { source: i.src.value.to_string_lossy().into_owned(), specifiers: specifiers.collect(), type_only: i.type_only }
}

/// Converts an `swc_ecma_ast::NamedExport` (its source decoded lossily).
#[verifier::external_body]
fn export_named_of(e: &NamedExport) -> SyntaxItem {
    let specifiers = e.specifiers.iter().map(|s| match s {
        swc_ecma_ast::ExportSpecifier::Named(n) => ExportName::Named { orig: export_name_text(&n.orig), exported: n.exported.as_ref().map(export_name_text) },
        swc_ecma_ast::ExportSpecifier::Default(d) => ExportName::Default(d.exported.sym.to_string()),
        swc_ecma_ast::ExportSpecifier::Namespace(n) => ExportName::Namespace(export_name_text(&n.name)),
    });
    SyntaxItem::ExportNamed { source: e.src.as_ref().map(|s| s.value.to_string_lossy().into_owned()), specifiers: specifiers.collect() }
}

/// The text of an `swc_ecma_ast::ModuleExportName`: an identifier's name, or a string's
/// value (decoded lossily when it is not valid Unicode).
#[verifier::external_body]
fn export_name_text(name: &ModuleExportName) -> String {
    match name {
        ModuleExportName::Ident(ident) => ident.sym.to_string(),
        ModuleExportName::Str(s) => s.value.as_str().map(|t| t.to_string()).unwrap_or_else(|| s.value.to_string_lossy().to_string()),
    }
}

/// Converts an `swc_ecma_ast::DefaultDecl`.
#[verifier::external_body]
fn default_decl_of(decl: &DefaultDecl) -> DefaultDeclaration {
    match decl {
        DefaultDecl::Class(c) => DefaultDeclaration::Class(c.ident.as_ref().map(|i| i.sym.to_string())),
        DefaultDecl::Fn(f) => DefaultDeclaration::Function(f.ident.as_ref().map(|i| i.sym.to_string())),
        DefaultDecl::TsInterfaceDecl(i) => DefaultDeclaration::Interface(i.id.sym.to_string()),
    }
}

/// Converts an `swc_ecma_ast::Decl` (a function with its name's span).
#[verifier::external_body]
fn decl_of(decl: &Decl) -> Declaration {
    match decl {
        Decl::Fn(f) => Declaration::Function {
            name: f.ident.sym.to_string(),
            span: SourceSpan { lo: f.ident.span.lo.0, hi: f.ident.span.hi.0 },
            first_param: f.function.params.first().map(|p| param_of(&p.pat)),
        },
        Decl::Var(v) => Declaration::Var(v.decls.iter().map(declarator_of).collect()),
        Decl::Using(u) => Declaration::Using(u.decls.iter().map(declarator_of).collect()),
        other => class_or_type_of(other),
    }
}

/// Converts a class (with its name's span) or type `swc_ecma_ast::Decl`.
#[verifier::external_body]
fn class_or_type_of(decl: &Decl) -> Declaration {
    match decl {
        Decl::Class(c) => Declaration::Class { name: c.ident.sym.to_string(), span: SourceSpan { lo: c.ident.span.lo.0, hi: c.ident.span.hi.0 } },
        other => Declaration::Type(type_decl_name(other)),
    }
}

/// The name an interface, type alias, enum or namespace `swc_ecma_ast::Decl` declares.
#[verifier::external_body]
fn type_decl_name(decl: &Decl) -> String {
    match decl {
        Decl::TsInterface(i) => i.id.sym.to_string(),
        Decl::TsTypeAlias(t) => t.id.sym.to_string(),
        Decl::TsEnum(e) => e.id.sym.to_string(),
        Decl::TsModule(m) => match &m.id {
            TsModuleName::Ident(ident) => ident.sym.to_string(),
            TsModuleName::Str(s) => s.value.as_str().map(|t| t.to_string()).unwrap_or_else(|| s.value.to_string_lossy().to_string()),
        },
        _ => String::new(),
    }
}

/// Converts an `swc_ecma_ast::VarDeclarator`.
#[verifier::external_body]
fn declarator_of(d: &VarDeclarator) -> Declarator {
    Declarator {
        name: match &d.name { Pat::Ident(ident) => Some(ident.id.sym.to_string()), _ => None },
        span: SourceSpan { lo: d.span.lo.0, hi: d.span.hi.0 },
        init: d.init.as_ref().map(|e| expr_of(e)),
    }
}

/// Converts an `swc_ecma_ast::Expr`: functions with their first parameter, names, calls
/// with their callee and first argument, everything else as `Other`.
#[verifier::external_body]
fn expr_of(e: &Expr) -> ExprShape {
    match e {
        Expr::Arrow(a) => ExprShape::Arrow(a.params.first().map(param_of)),
        Expr::Fn(f) => ExprShape::Function(f.function.params.first().map(|p| param_of(&p.pat))),
        Expr::Ident(i) => ExprShape::Ident(i.sym.to_string()),
        Expr::Call(c) => ExprShape::Call { callee: callee_of(&c.callee), first_arg: c.args.first().map(|a| Box::new(expr_of(&a.expr))) },
        _ => ExprShape::Other,
    }
}

/// Converts an `swc_ecma_ast::Callee`.
#[verifier::external_body]
fn callee_of(c: &Callee) -> CalleeShape {
    match c {
        Callee::Expr(e) => match &**e {
            Expr::Ident(i) => CalleeShape::Ident(i.sym.to_string()),
            Expr::Member(m) => CalleeShape::Member {
                object: match &*m.obj { Expr::Ident(i) => Some(i.sym.to_string()), _ => None },
                property: match &m.prop { MemberProp::Ident(p) => Some(p.sym.to_string()), _ => None },
            },
            _ => CalleeShape::Other,
        },
        _ => CalleeShape::Other,
    }
}

/// Converts an `swc_ecma_ast::Pat` used as a parameter: an object pattern with its type
/// annotation's members when that is a type literal.
#[verifier::external_body]
fn param_of(p: &Pat) -> Param {
    match p {
        Pat::Object(o) => Param::Object(match &o.type_ann {
            Some(ann) => match &*ann.type_ann {
                TsType::TsTypeLit(lit) => ParamType::Literal(lit.members.iter().map(member_of).collect()),
                _ => ParamType::Other,
            },
            None => ParamType::Absent,
        }),
        _ => Param::Other,
    }
}

/// Converts an `swc_ecma_ast::TsTypeElement`: method and property signatures with their
/// keys, and whether a property's annotation is a function type.
#[verifier::external_body]
fn member_of(m: &TsTypeElement) -> TypeMember {
    match m {
        TsTypeElement::TsMethodSignature(s) => TypeMember::Method(key_of(&s.key)),
        TsTypeElement::TsPropertySignature(s) => TypeMember::Property(key_of(&s.key), match s.type_ann.as_deref().map(|a| a.type_ann.as_ref()) {
            Some(TsType::TsFnOrConstructorType(TsFnOrConstructorType::TsFnType(_))) => PropType::Function,
            Some(_) => PropType::Other,
            None => PropType::Absent,
        }),
        _ => TypeMember::Other,
    }
}

/// Converts the key `swc_ecma_ast::Expr` of a type member.
#[verifier::external_body]
fn key_of(key: &Expr) -> PropKey {
    match key {
        Expr::Ident(i) => PropKey::Ident(i.sym.to_string()),
        Expr::Lit(Lit::Str(s)) => PropKey::Str(s.value.as_str().map(|t| t.to_string())),
        _ => PropKey::Other,
    }
}

// ─── What is read from the items ─────────────────────────────────────────────

/// An import name as the graph sees it: an unrenamed `{ x }` imports `x`.
pub open spec fn import_name_view(n: ImportName) -> SpecifierView {
    match n {
        ImportName::Named { imported, local } => SpecifierView::Named {
            imported: match imported { Some(i) => i@, None => local@ },
            local: local@,
        },
        ImportName::Default(l) => SpecifierView::Default(l@),
        ImportName::Namespace(l) => SpecifierView::Namespace(l@),
    }
}

pub open spec fn import_names_view(ns: Seq<ImportName>) -> Seq<SpecifierView>
    decreases ns.len(),
{
    if ns.len() == 0 { Seq::empty() } else { import_names_view(ns.drop_last()).push(import_name_view(ns.last())) }
}

/// The import an item makes, if it is an import statement.
pub open spec fn item_imports(it: SyntaxItem) -> Seq<ImportView> {
    match it {
        SyntaxItem::Import { source, specifiers, type_only } =>
            seq![ImportView { source: source@, specifiers: import_names_view(specifiers@), type_only }],
        _ => Seq::empty(),
    }
}

/// The import statements of a module, in order.
pub open spec fn spec_collect_imports(items: Seq<SyntaxItem>) -> Seq<ImportView>
    decreases items.len(),
{
    if items.len() == 0 { Seq::empty() } else { spec_collect_imports(items.drop_last()) + item_imports(items.last()) }
}

/// One listed export name, re-exported from `source` when there is one: `default as x`
/// exports `default`, `* as x` exports `*`.
pub open spec fn export_name_view(source: Option<String>, n: ExportName) -> ExportKindView {
    let (local, exported) = match n {
        ExportName::Named { orig, exported } => (orig@, exported.deep_view()),
        ExportName::Default(e) => ("default"@, Some(e@)),
        ExportName::Namespace(e) => ("*"@, Some(e@)),
    };
    match source {
        Some(s) => ExportKindView::ReExport { source: s@, local, exported },
        None => ExportKindView::Local { local, exported },
    }
}

pub open spec fn export_names_view(source: Option<String>, ns: Seq<ExportName>) -> Seq<ExportKindView>
    decreases ns.len(),
{
    if ns.len() == 0 { Seq::empty() } else { export_names_view(source, ns.drop_last()).push(export_name_view(source, ns.last())) }
}

/// The name of a declaration's first declarator (empty when it is not a plain name).
pub open spec fn first_declarator_name(ds: Seq<Declarator>) -> Seq<char> {
    if ds.len() > 0 {
        match ds[0].name { Some(n) => n@, None => Seq::empty() }
    } else {
        Seq::empty()
    }
}

/// The name an exported declaration exports.
pub open spec fn declared_name(d: Declaration) -> Seq<char> {
    match d {
        Declaration::Class { name, .. } => name@,
        Declaration::Function { name, .. } => name@,
        Declaration::Var(ds) => first_declarator_name(ds@),
        Declaration::Using(ds) => first_declarator_name(ds@),
        Declaration::Type(n) => n@,
    }
}

/// The name `export default` declares (empty when anonymous).
pub open spec fn default_name(d: DefaultDeclaration) -> Seq<char> {
    match d {
        DefaultDeclaration::Class(o) => match o { Some(n) => n@, None => Seq::empty() },
        DefaultDeclaration::Function(o) => match o { Some(n) => n@, None => Seq::empty() },
        DefaultDeclaration::Interface(n) => n@,
    }
}

/// The exports an item makes.
pub open spec fn item_exports(it: SyntaxItem) -> Seq<ExportKindView> {
    match it {
        SyntaxItem::ExportNamed { source, specifiers } => export_names_view(source, specifiers@),
        SyntaxItem::ExportAll { source } => seq![ExportKindView::ReExportAll { source: source@ }],
        SyntaxItem::ExportDefaultExpr(e) => seq![ExportKindView::Default(match e { ExprShape::Ident(n) => n@, _ => "default"@ })],
        SyntaxItem::ExportDefaultDecl { decl, .. } => seq![ExportKindView::Default(default_name(decl))],
        SyntaxItem::ExportDecl(d) => seq![ExportKindView::Local { local: declared_name(d), exported: None }],
        _ => Seq::empty(),
    }
}

/// The export statements of a module, in order.
pub open spec fn spec_collect_exports(items: Seq<SyntaxItem>) -> Seq<ExportKindView>
    decreases items.len(),
{
    if items.len() == 0 { Seq::empty() } else { spec_collect_exports(items.drop_last()) + item_exports(items.last()) }
}

/// The module an item imports or re-exports from.
pub open spec fn item_source(it: SyntaxItem) -> Option<Seq<char>> {
    match it {
        SyntaxItem::Import { source, .. } => Some(source@),
        SyntaxItem::ExportAll { source } => Some(source@),
        SyntaxItem::ExportNamed { source, .. } => match source { Some(s) => Some(s@), None => None },
        _ => None,
    }
}

/// The modules a module imports or re-exports from, each once, in first-mention order.
pub open spec fn spec_dependencies(items: Seq<SyntaxItem>) -> Seq<Seq<char>>
    decreases items.len(),
{
    if items.len() == 0 {
        Seq::empty()
    } else {
        let prev = spec_dependencies(items.drop_last());
        match item_source(items.last()) {
            Some(s) => if prev.contains(s) { prev } else { prev.push(s) },
            None => prev,
        }
    }
}

/// A call of `forwardRef` or `React.forwardRef`.
pub open spec fn factory_callee(c: CalleeShape) -> bool {
    match c {
        CalleeShape::Ident(n) => n@ == "forwardRef"@,
        CalleeShape::Member { object, property } => match (object, property) {
            (Some(o), Some(p)) => o@ == "React"@ && p@ == "forwardRef"@,
            _ => false,
        },
        CalleeShape::Other => false,
    }
}

pub open spec fn is_function_shape(e: ExprShape) -> bool {
    e is Arrow || e is Function
}

/// Whether a variable is initialised with a function, directly or through a component
/// factory call whose first argument is one.
pub open spec fn function_valued(init: Option<ExprShape>) -> bool {
    match init {
        None => false,
        Some(e) => match e {
            ExprShape::Call { callee, first_arg } => factory_callee(callee) && match first_arg {
                Some(a) => is_function_shape(*a),
                None => false,
            },
            other => is_function_shape(other),
        },
    }
}

pub open spec fn declarator_local(d: Declarator) -> Seq<LocalView> {
    match d.name {
        Some(n) => seq![LocalView {
            name: n@,
            kind: if function_valued(d.init) { SymbolKind::Function } else { SymbolKind::Variable },
            span: d.span,
        }],
        None => Seq::empty(),
    }
}

pub open spec fn declarator_locals(ds: Seq<Declarator>) -> Seq<LocalView>
    decreases ds.len(),
{
    if ds.len() == 0 { Seq::empty() } else { declarator_locals(ds.drop_last()) + declarator_local(ds.last()) }
}

/// The names a declaration declares.
pub open spec fn decl_locals(d: Declaration) -> Seq<LocalView> {
    match d {
        Declaration::Function { name, span, .. } => seq![LocalView { name: name@, kind: SymbolKind::Function, span }],
        Declaration::Var(ds) => declarator_locals(ds@),
        Declaration::Class { name, span } => seq![LocalView { name: name@, kind: SymbolKind::Class, span }],
        _ => Seq::empty(),
    }
}

/// The top-level names an item declares.
pub open spec fn item_locals(it: SyntaxItem) -> Seq<LocalView> {
    match it {
        SyntaxItem::ExportDecl(d) => decl_locals(d),
        SyntaxItem::Declaration(d) => decl_locals(d),
        SyntaxItem::ExportDefaultDecl { decl, span } => match decl {
            DefaultDeclaration::Function(Some(n)) => seq![LocalView { name: n@, kind: SymbolKind::Function, span }],
            DefaultDeclaration::Class(Some(n)) => seq![LocalView { name: n@, kind: SymbolKind::Class, span }],
            _ => Seq::empty(),
        },
        _ => Seq::empty(),
    }
}

/// The names a module declares at top level, in order.
pub open spec fn spec_collect_locals(items: Seq<SyntaxItem>) -> Seq<LocalView>
    decreases items.len(),
{
    if items.len() == 0 { Seq::empty() } else { spec_collect_locals(items.drop_last()) + item_locals(items.last()) }
}

/// The name of a type member's key.
pub open spec fn key_name(k: PropKey) -> Option<Seq<char>> {
    match k {
        PropKey::Ident(n) => Some(n@),
        PropKey::Str(Some(v)) => Some(v@),
        _ => None,
    }
}

/// The property a type member describes: methods and function-typed properties are
/// callable, other properties are values.
pub open spec fn member_prop(m: TypeMember) -> Option<(Seq<char>, ComponentPropKind)> {
    match m {
        TypeMember::Method(k) => match key_name(k) { Some(n) => Some((n, ComponentPropKind::Callable)), None => None },
        TypeMember::Property(k, t) => match key_name(k) {
            Some(n) => Some((n, if t is Function { ComponentPropKind::Callable } else { ComponentPropKind::Value })),
            None => None,
        },
        TypeMember::Other => None,
    }
}

/// A property list without the entries named `n`.
pub open spec fn without_name(ps: Seq<(Seq<char>, ComponentPropKind)>, n: Seq<char>) -> Seq<(Seq<char>, ComponentPropKind)>
    decreases ps.len(),
{
    if ps.len() == 0 {
        Seq::empty()
    } else {
        let prev = without_name(ps.drop_last(), n);
        if ps.last().0 == n { prev } else { prev.push(ps.last()) }
    }
}

/// The properties of an object type's members; a later member of a name replaces an
/// earlier one and goes last.
pub open spec fn members_props(ms: Seq<TypeMember>) -> Seq<(Seq<char>, ComponentPropKind)>
    decreases ms.len(),
{
    if ms.len() == 0 {
        Seq::empty()
    } else {
        let prev = members_props(ms.drop_last());
        match member_prop(ms.last()) {
            Some(p) => without_name(prev, p.0).push(p),
            None => prev,
        }
    }
}

/// The properties a component's first parameter declares, when it is an object pattern
/// typed with a type literal.
pub open spec fn param_props(p: Option<Param>) -> Seq<(Seq<char>, ComponentPropKind)> {
    match p {
        Some(Param::Object(ParamType::Literal(ms))) => members_props(ms@),
        _ => Seq::empty(),
    }
}

/// The entry for component `name`, when it declares any property.
pub open spec fn component_entry(name: Seq<char>, p: Option<Param>) -> Seq<(Seq<char>, Seq<(Seq<char>, ComponentPropKind)>)> {
    if param_props(p).len() > 0 { seq![(name, param_props(p))] } else { Seq::empty() }
}

pub open spec fn declarator_props(d: Declarator) -> Seq<(Seq<char>, Seq<(Seq<char>, ComponentPropKind)>)> {
    match d.name {
        Some(n) => match d.init {
            Some(ExprShape::Arrow(p)) => component_entry(n@, p),
            Some(ExprShape::Function(p)) => component_entry(n@, p),
            _ => Seq::empty(),
        },
        None => Seq::empty(),
    }
}

pub open spec fn declarators_props(ds: Seq<Declarator>) -> Seq<(Seq<char>, Seq<(Seq<char>, ComponentPropKind)>)>
    decreases ds.len(),
{
    if ds.len() == 0 { Seq::empty() } else { declarators_props(ds.drop_last()) + declarator_props(ds.last()) }
}

pub open spec fn decl_props(d: Declaration) -> Seq<(Seq<char>, Seq<(Seq<char>, ComponentPropKind)>)> {
    match d {
        Declaration::Function { name, first_param, .. } => component_entry(name@, first_param),
        Declaration::Var(ds) => declarators_props(ds@),
        _ => Seq::empty(),
    }
}

pub open spec fn item_props(it: SyntaxItem) -> Seq<(Seq<char>, Seq<(Seq<char>, ComponentPropKind)>)> {
    match it {
        SyntaxItem::ExportDecl(d) => decl_props(d),
        SyntaxItem::Declaration(d) => decl_props(d),
        _ => Seq::empty(),
    }
}

/// The properties each component of a module takes, by component, in order.
pub open spec fn spec_collect_component_props(items: Seq<SyntaxItem>) -> Seq<(Seq<char>, Seq<(Seq<char>, ComponentPropKind)>)>
    decreases items.len(),
{
    if items.len() == 0 { Seq::empty() } else { spec_collect_component_props(items.drop_last()) + item_props(items.last()) }
}

/// The declarator at position `j` of an item that declares variables (exported or not).
pub open spec fn var_declarator(it: SyntaxItem, j: int) -> Option<Declarator> {
    match it {
        SyntaxItem::Declaration(Declaration::Var(ds)) => if 0 <= j < ds@.len() { Some(ds@[j]) } else { None },
        SyntaxItem::ExportDecl(Declaration::Var(ds)) => if 0 <= j < ds@.len() { Some(ds@[j]) } else { None },
        _ => None,
    }
}

proof fn lemma_declarator_locals_has(ds: Seq<Declarator>, j: int, n: nat)
    requires
        0 <= j < n <= ds.len(),
    ensures
        forall|x: LocalView| declarator_local(ds[j]).contains(x) ==> declarator_locals(ds.take(n as int)).contains(x),
    decreases n,
{
    let t = ds.take(n as int);
    assert(t.drop_last() =~= ds.take(n - 1));
    assert(t.last() == ds[n - 1]);
    if j < n - 1 {
        lemma_declarator_locals_has(ds, j, (n - 1) as nat);
    }
    assert forall|x: LocalView| declarator_local(ds[j]).contains(x) implies declarator_locals(t).contains(x) by {
        let a = declarator_locals(ds.take(n - 1));
        let b = declarator_local(ds[n - 1]);
        if j < n - 1 {
            let m = choose|m: int| 0 <= m < a.len() && a[m] == x;
            assert((a + b)[m] == x);
        } else {
            let m = choose|m: int| 0 <= m < b.len() && b[m] == x;
            assert((a + b)[a.len() + m] == x);
        }
    }
}

proof fn lemma_collect_locals_has(items: Seq<SyntaxItem>, i: int, n: nat)
    requires
        0 <= i < n <= items.len(),
    ensures
        forall|x: LocalView| item_locals(items[i]).contains(x) ==> spec_collect_locals(items.take(n as int)).contains(x),
    decreases n,
{
    let t = items.take(n as int);
    assert(t.drop_last() =~= items.take(n - 1));
    assert(t.last() == items[n - 1]);
    if i < n - 1 {
        lemma_collect_locals_has(items, i, (n - 1) as nat);
    }
    assert forall|x: LocalView| item_locals(items[i]).contains(x) implies spec_collect_locals(t).contains(x) by {
        let a = spec_collect_locals(items.take(n - 1));
        let b = item_locals(items[n - 1]);
        if i < n - 1 {
            let m = choose|m: int| 0 <= m < a.len() && a[m] == x;
            assert((a + b)[m] == x);
        } else {
            let m = choose|m: int| 0 <= m < b.len() && b[m] == x;
            assert((a + b)[a.len() + m] == x);
        }
    }
}

/// Whether an initialiser is written as a function: a function expression, an arrow
/// function, or a `forwardRef(…)` / `React.forwardRef(…)` call whose first argument is one.
pub open spec fn written_as_function(init: Option<ExprShape>) -> bool {
    match init {
        Some(ExprShape::Function(_)) => true,
        Some(ExprShape::Arrow(_)) => true,
        Some(ExprShape::Call { callee, first_arg }) => {
            let wraps = match callee {
                CalleeShape::Ident(n) => n@ == "forwardRef"@,
                CalleeShape::Member { object: Some(o), property: Some(p) } => o@ == "React"@ && p@ == "forwardRef"@,
                _ => false,
            };
            let arg_is_function = match first_arg {
                Some(a) => match *a {
                    ExprShape::Function(_) => true,
                    ExprShape::Arrow(_) => true,
                    _ => false,
                },
                None => false,
            };
            wraps && arg_is_function
        },
        _ => false,
    }
}

/// A top-level variable is read as a function exactly when it is initialised with a
/// function expression, an arrow function, or a `forwardRef` call wrapping one; any other
/// variable (no initialiser, a value, another call) is read as a variable. Either way the
/// module's declared names include it, with the declarator's span.
pub proof fn lemma_variable_kinds(items: Seq<SyntaxItem>, i: int, j: int)
    requires
        0 <= i < items.len(),
        var_declarator(items[i], j) matches Some(d) && d.name is Some,
    ensures
        spec_collect_locals(items).contains(LocalView {
            name: var_declarator(items[i], j)->0.name->0@,
            kind: if written_as_function(var_declarator(items[i], j)->0.init) { SymbolKind::Function } else { SymbolKind::Variable },
            span: var_declarator(items[i], j)->0.span,
        }),
{
    let d = var_declarator(items[i], j)->0;
    let kind = if written_as_function(d.init) { SymbolKind::Function } else { SymbolKind::Variable };
    let x = LocalView { name: d.name->0@, kind, span: d.span };
    let ds: Seq<Declarator> = match items[i] {
        SyntaxItem::Declaration(Declaration::Var(v)) => v@,
        SyntaxItem::ExportDecl(Declaration::Var(v)) => v@,
        _ => Seq::empty(),
    };
    assert(ds[j] == d);
    assert(function_valued(d.init) == written_as_function(d.init));
    assert(declarator_local(d) == seq![x]);
    assert(declarator_local(d).contains(x)) by {
        assert(declarator_local(d)[0] == x);
    }
    lemma_declarator_locals_has(ds, j, ds.len());
    assert(ds.take(ds.len() as int) =~= ds);
    assert(item_locals(items[i]) == declarator_locals(ds));
    lemma_collect_locals_has(items, i, items.len());
    assert(items.take(items.len() as int) =~= items);
}

// ─── Reading the items ───────────────────────────────────────────────────────

fn import_specifiers(ns: &Vec<ImportName>) -> (r: Vec<crate::parser::ImportSpecifier>)
    ensures
        r.deep_view() == import_names_view(ns@),
{
    let mut out: Vec<crate::parser::ImportSpecifier> = Vec::new();
    for j in 0..ns.len()
        invariant
            out.deep_view() == import_names_view(ns@.take(j as int)),
    {
        proof { assert(ns@.take(j + 1).drop_last() =~= ns@.take(j as int)); }
        let sp = match &ns[j] {
            ImportName::Named { imported, local } => crate::parser::ImportSpecifier::Named {
                imported: match imported { Some(i) => i.clone(), None => local.clone() },
                local: local.clone(),
            },
            ImportName::Default(l) => crate::parser::ImportSpecifier::Default(l.clone()),
            ImportName::Namespace(l) => crate::parser::ImportSpecifier::Namespace(l.clone()),
        };
        let ghost before = out.deep_view();
        out.push(sp);
        proof { assert(out.deep_view() =~= before.push(import_name_view(ns@[j as int]))); }
    }
    proof { assert(ns@.take(ns@.len() as int) =~= ns@); }
    out
}

/// The import statements of a module, in order; an unrenamed `{ x }` imports `x`.
pub fn collect_imports(items: &Vec<SyntaxItem>) -> (r: Vec<Import>)
    ensures
        r.deep_view() == spec_collect_imports(items@),
{
    let mut out: Vec<Import> = Vec::new();
    for i in 0..items.len()
        invariant
            out.deep_view() == spec_collect_imports(items@.take(i as int)),
    {
        proof { assert(items@.take(i + 1).drop_last() =~= items@.take(i as int)); }
        let ghost before = out.deep_view();
        match &items[i] {
            SyntaxItem::Import { source, specifiers, type_only } => {
                let specs = import_specifiers(specifiers);
                out.push(Import { source: source.clone(), specifiers: specs, type_only: *type_only });
            },
            _ => {},
        }
        proof { assert(out.deep_view() =~= before + item_imports(items@[i as int])); }
    }
    proof { assert(items@.take(items@.len() as int) =~= items@); }
    out
}

fn export_of(source: &Option<String>, n: &ExportName) -> (r: Export)
    ensures
        r.deep_view() == export_name_view(*source, *n),
{
    let (local, exported) = match n {
        ExportName::Named { orig, exported } => (orig.clone(), duplicate_option(exported)),
        ExportName::Default(e) => (String::from_str("default"), Some(e.clone())),
        ExportName::Namespace(e) => (String::from_str("*"), Some(e.clone())),
    };
    proof {
        reveal_strlit("default");
        reveal_strlit("*");
    }
    match source {
        Some(s) => Export { kind: ExportKind::ReExport { source: s.clone(), local, exported } },
        None => Export { kind: ExportKind::Local { local, exported } },
    }
}

fn first_name(ds: &Vec<Declarator>) -> (r: String)
    ensures
        r@ == first_declarator_name(ds@),
{
    if ds.len() > 0 {
        match &ds[0].name {
            Some(n) => n.clone(),
            None => String::new(),
        }
    } else {
        String::new()
    }
}

fn name_of_declaration(d: &Declaration) -> (r: String)
    ensures
        r@ == declared_name(*d),
{
    match d {
        Declaration::Class { name, .. } => name.clone(),
        Declaration::Function { name, .. } => name.clone(),
        Declaration::Var(ds) => first_name(ds),
        Declaration::Using(ds) => first_name(ds),
        Declaration::Type(n) => n.clone(),
    }
}

fn name_of_default(d: &DefaultDeclaration) -> (r: String)
    ensures
        r@ == default_name(*d),
{
    match d {
        DefaultDeclaration::Class(o) => match o { Some(n) => n.clone(), None => String::new() },
        DefaultDeclaration::Function(o) => match o { Some(n) => n.clone(), None => String::new() },
        DefaultDeclaration::Interface(n) => n.clone(),
    }
}

fn push_item_exports(out: &mut Vec<Export>, it: &SyntaxItem)
    ensures
        final(out).deep_view() == old(out).deep_view() + item_exports(*it),
{
    let ghost start = out.deep_view();
    match it {
        SyntaxItem::ExportNamed { source, specifiers } => {
            for j in 0..specifiers.len()
                invariant
                    out.deep_view() == start + export_names_view(*source, specifiers@.take(j as int)),
            {
                proof { assert(specifiers@.take(j + 1).drop_last() =~= specifiers@.take(j as int)); }
                let ghost before = out.deep_view();
                out.push(export_of(source, &specifiers[j]));
                proof {
                    assert(out.deep_view() =~= before.push(export_name_view(*source, specifiers@[j as int])));
                    assert(out.deep_view() =~= start + export_names_view(*source, specifiers@.take(j + 1)));
                }
            }
            proof { assert(specifiers@.take(specifiers@.len() as int) =~= specifiers@); }
        },
        SyntaxItem::ExportAll { source } => {
            out.push(Export { kind: ExportKind::ReExportAll { source: source.clone() } });
            proof { assert(out.deep_view() =~= start + item_exports(*it)); }
        },
        SyntaxItem::ExportDefaultExpr(e) => {
            let name = match e {
                ExprShape::Ident(n) => n.clone(),
                _ => String::from_str("default"),
            };
            proof { reveal_strlit("default"); }
            out.push(Export { kind: ExportKind::Default(name) });
            proof { assert(out.deep_view() =~= start + item_exports(*it)); }
        },
        SyntaxItem::ExportDefaultDecl { decl, .. } => {
            out.push(Export { kind: ExportKind::Default(name_of_default(decl)) });
            proof { assert(out.deep_view() =~= start + item_exports(*it)); }
        },
        SyntaxItem::ExportDecl(d) => {
            out.push(Export { kind: ExportKind::Local { local: name_of_declaration(d), exported: None } });
            proof { assert(out.deep_view() =~= start + item_exports(*it)); }
        },
        _ => {
            proof { assert(out.deep_view() =~= start + item_exports(*it)); }
        },
    }
}

/// The export statements of a module, in order.
pub fn collect_exports(items: &Vec<SyntaxItem>) -> (r: Vec<Export>)
    ensures
        r.deep_view() == spec_collect_exports(items@),
{
    let mut out: Vec<Export> = Vec::new();
    for i in 0..items.len()
        invariant
            out.deep_view() == spec_collect_exports(items@.take(i as int)),
    {
        proof { assert(items@.take(i + 1).drop_last() =~= items@.take(i as int)); }
        push_item_exports(&mut out, &items[i]);
    }
    proof { assert(items@.take(items@.len() as int) =~= items@); }
    out
}

fn contains_text(v: &Vec<String>, t: &str) -> (r: bool)
    ensures
        r == v.deep_view().contains(t@),
{
    for j in 0..v.len()
        invariant
            forall|k: int| 0 <= k < j ==> v.deep_view()[k] != t@,
    {
        if str_eq(v[j].as_str(), t) {
            assert(v.deep_view()[j as int] == t@);
            return true;
        }
    }
    false
}

/// The modules a module imports or re-exports from, each once, in first-mention order.
pub fn module_dependencies(items: &Vec<SyntaxItem>) -> (r: Vec<String>)
    ensures
        r.deep_view() == spec_dependencies(items@),
{
    let mut out: Vec<String> = Vec::new();
    for i in 0..items.len()
        invariant
            out.deep_view() == spec_dependencies(items@.take(i as int)),
    {
        proof { assert(items@.take(i + 1).drop_last() =~= items@.take(i as int)); }
        let source: Option<&String> = match &items[i] {
            SyntaxItem::Import { source, .. } => Some(source),
            SyntaxItem::ExportAll { source } => Some(source),
            SyntaxItem::ExportNamed { source, .. } => match source {
                Some(s) => Some(s),
                None => None,
            },
            _ => None,
        };
        if let Some(s) = source {
            if !contains_text(&out, s.as_str()) {
                let ghost before = out.deep_view();
                out.push(s.clone());
                proof { assert(out.deep_view() =~= before.push(s@)); }
            }
        }
    }
    proof { assert(items@.take(items@.len() as int) =~= items@); }
    out
}

fn is_factory(c: &CalleeShape) -> (r: bool)
    ensures
        r == factory_callee(*c),
{
    match c {
        CalleeShape::Ident(n) => str_eq(n.as_str(), "forwardRef"),
        CalleeShape::Member { object, property } => match (object, property) {
            (Some(o), Some(p)) => str_eq(o.as_str(), "React") && str_eq(p.as_str(), "forwardRef"),
            _ => false,
        },
        CalleeShape::Other => false,
    }
}

fn is_function(e: &ExprShape) -> (r: bool)
    ensures
        r == is_function_shape(*e),
{
    match e {
        ExprShape::Arrow(_) => true,
        ExprShape::Function(_) => true,
        _ => false,
    }
}

fn is_function_valued(init: &Option<ExprShape>) -> (r: bool)
    ensures
        r == function_valued(*init),
{
    match init {
        None => false,
        Some(e) => match e {
            ExprShape::Call { callee, first_arg } => is_factory(callee) && match first_arg {
                Some(a) => is_function(a),
                None => false,
            },
            other => is_function(other),
        },
    }
}

fn push_decl_locals(out: &mut Vec<LocalSymbol>, d: &Declaration)
    ensures
        final(out).deep_view() == old(out).deep_view() + decl_locals(*d),
{
    let ghost start = out.deep_view();
    match d {
        Declaration::Function { name, span, .. } => {
            out.push(LocalSymbol { name: name.clone(), kind: SymbolKind::Function, span: *span });
        },
        Declaration::Class { name, span } => {
            out.push(LocalSymbol { name: name.clone(), kind: SymbolKind::Class, span: *span });
        },
        Declaration::Var(ds) => {
            for j in 0..ds.len()
                invariant
                    out.deep_view() == start + declarator_locals(ds@.take(j as int)),
            {
                proof { assert(ds@.take(j + 1).drop_last() =~= ds@.take(j as int)); }
                let ghost before = out.deep_view();
                let dr = &ds[j];
                match &dr.name {
                    Some(n) => {
                        let kind = if is_function_valued(&dr.init) { SymbolKind::Function } else { SymbolKind::Variable };
                        out.push(LocalSymbol { name: n.clone(), kind, span: dr.span });
                    },
                    None => {},
                }
                proof {
                    assert(out.deep_view() =~= before + declarator_local(ds@[j as int]));
                    assert(out.deep_view() =~= start + declarator_locals(ds@.take(j + 1)));
                }
            }
            proof { assert(ds@.take(ds@.len() as int) =~= ds@); }
        },
        _ => {},
    }
    proof { assert(out.deep_view() =~= start + decl_locals(*d)); }
}

/// The names a module declares at top level, in order (where the graph looks a name up,
/// a later declaration replaces an earlier one).
pub fn collect_local_declarations(items: &Vec<SyntaxItem>) -> (r: Vec<LocalSymbol>)
    ensures
        r.deep_view() == spec_collect_locals(items@),
{
    let mut out: Vec<LocalSymbol> = Vec::new();
    for i in 0..items.len()
        invariant
            out.deep_view() == spec_collect_locals(items@.take(i as int)),
    {
        proof { assert(items@.take(i + 1).drop_last() =~= items@.take(i as int)); }
        let ghost before = out.deep_view();
        match &items[i] {
            SyntaxItem::ExportDecl(d) => push_decl_locals(&mut out, d),
            SyntaxItem::Declaration(d) => push_decl_locals(&mut out, d),
            SyntaxItem::ExportDefaultDecl { decl, span } => match decl {
                DefaultDeclaration::Function(Some(n)) => {
                    out.push(LocalSymbol { name: n.clone(), kind: SymbolKind::Function, span: *span });
                },
                DefaultDeclaration::Class(Some(n)) => {
                    out.push(LocalSymbol { name: n.clone(), kind: SymbolKind::Class, span: *span });
                },
                _ => {},
            },
            _ => {},
        }
        proof { assert(out.deep_view() =~= before + item_locals(items@[i as int])); }
    }
    proof { assert(items@.take(items@.len() as int) =~= items@); }
    out
}

fn prop_of_member(m: &TypeMember) -> (r: Option<(String, ComponentPropKind)>)
    ensures
        r.deep_view() == member_prop(*m),
{
    let (key, kind) = match m {
        TypeMember::Method(k) => (k, ComponentPropKind::Callable),
        TypeMember::Property(k, t) => (k, match t {
            PropType::Function => ComponentPropKind::Callable,
            _ => ComponentPropKind::Value,
        }),
        TypeMember::Other => return None,
    };
    match key {
        PropKey::Ident(n) => Some((n.clone(), kind)),
        PropKey::Str(Some(v)) => Some((v.clone(), kind)),
        _ => None,
    }
}

fn drop_named(ps: &Vec<(String, ComponentPropKind)>, n: &str) -> (r: Vec<(String, ComponentPropKind)>)
    ensures
        r.deep_view() == without_name(ps.deep_view(), n@),
{
    let ghost all = ps.deep_view();
    let mut out: Vec<(String, ComponentPropKind)> = Vec::new();
    for j in 0..ps.len()
        invariant
            all == ps.deep_view(),
            out.deep_view() == without_name(all.take(j as int), n@),
    {
        proof {
            assert(all.take(j + 1).drop_last() =~= all.take(j as int));
            assert(all.take(j + 1).last() == all[j as int]);
        }
        if !str_eq(ps[j].0.as_str(), n) {
            let ghost before = out.deep_view();
            out.push((ps[j].0.clone(), ps[j].1));
            proof { assert(out.deep_view() =~= before.push(all[j as int])); }
        }
    }
    proof { assert(all.take(all.len() as int) =~= all); }
    out
}

fn object_props(ms: &Vec<TypeMember>) -> (r: Vec<(String, ComponentPropKind)>)
    ensures
        r.deep_view() == members_props(ms@),
{
    let mut out: Vec<(String, ComponentPropKind)> = Vec::new();
    for j in 0..ms.len()
        invariant
            out.deep_view() == members_props(ms@.take(j as int)),
    {
        proof { assert(ms@.take(j + 1).drop_last() =~= ms@.take(j as int)); }
        match prop_of_member(&ms[j]) {
            Some((name, kind)) => {
                let mut kept = drop_named(&out, name.as_str());
                let ghost before = kept.deep_view();
                let ghost p = (name@, kind);
                kept.push((name, kind));
                proof { assert(kept.deep_view() =~= before.push(p)); }
                out = kept;
            },
            None => {},
        }
    }
    proof { assert(ms@.take(ms@.len() as int) =~= ms@); }
    out
}

fn props_of_param(p: &Option<Param>) -> (r: Vec<(String, ComponentPropKind)>)
    ensures
        r.deep_view() == param_props(*p),
{
    match p {
        Some(Param::Object(ParamType::Literal(ms))) => object_props(ms),
        _ => {
            let r: Vec<(String, ComponentPropKind)> = Vec::new();
            assert(r.deep_view() =~= Seq::<(Seq<char>, ComponentPropKind)>::empty());
            r
        },
    }
}

fn push_component(out: &mut Vec<(String, Vec<(String, ComponentPropKind)>)>, name: &String, p: &Option<Param>)
    ensures
        final(out).deep_view() == old(out).deep_view() + component_entry(name@, *p),
{
    let ghost start = out.deep_view();
    let props = props_of_param(p);
    if props.len() > 0 {
        let ghost pv = props.deep_view();
        out.push((name.clone(), props));
        proof { assert(out.deep_view() =~= start.push((name@, pv))); }
    }
    proof { assert(out.deep_view() =~= start + component_entry(name@, *p)); }
}

fn push_decl_props(out: &mut Vec<(String, Vec<(String, ComponentPropKind)>)>, d: &Declaration)
    ensures
        final(out).deep_view() == old(out).deep_view() + decl_props(*d),
{
    let ghost start = out.deep_view();
    match d {
        Declaration::Function { name, first_param, .. } => push_component(out, name, first_param),
        Declaration::Var(ds) => {
            for j in 0..ds.len()
                invariant
                    out.deep_view() == start + declarators_props(ds@.take(j as int)),
            {
                proof { assert(ds@.take(j + 1).drop_last() =~= ds@.take(j as int)); }
                let ghost before = out.deep_view();
                let dr = &ds[j];
                match &dr.name {
                    Some(n) => match &dr.init {
                        Some(ExprShape::Arrow(p)) => push_component(out, n, p),
                        Some(ExprShape::Function(p)) => push_component(out, n, p),
                        _ => {},
                    },
                    None => {},
                }
                proof {
                    assert(out.deep_view() =~= before + declarator_props(ds@[j as int]));
                    assert(out.deep_view() =~= start + declarators_props(ds@.take(j + 1)));
                }
            }
            proof { assert(ds@.take(ds@.len() as int) =~= ds@); }
        },
        _ => {},
    }
    proof { assert(out.deep_view() =~= start + decl_props(*d)); }
}

/// The properties each component of a module takes, by component, in order.
pub fn collect_component_props(items: &Vec<SyntaxItem>) -> (r: Vec<(String, Vec<(String, ComponentPropKind)>)>)
    ensures
        r.deep_view() == spec_collect_component_props(items@),
{
    let mut out: Vec<(String, Vec<(String, ComponentPropKind)>)> = Vec::new();
    for i in 0..items.len()
        invariant
            out.deep_view() == spec_collect_component_props(items@.take(i as int)),
    {
        proof { assert(items@.take(i + 1).drop_last() =~= items@.take(i as int)); }
        let ghost before = out.deep_view();
        match &items[i] {
            SyntaxItem::ExportDecl(d) => push_decl_props(&mut out, d),
            SyntaxItem::Declaration(d) => push_decl_props(&mut out, d),
            _ => {},
        }
        proof { assert(out.deep_view() =~= before + item_props(items@[i as int])); }
    }
    proof { assert(items@.take(items@.len() as int) =~= items@); }
    out
}

} // verus!
