//! What a source module declares about its imports and exports.
use crate::model::{ComponentPropKind, LocalSymbol, LocalView};
use crate::syntax::{
    collect_component_props, collect_exports, collect_imports, collect_local_declarations, module_items,
    spec_collect_component_props, spec_collect_exports, spec_collect_imports, spec_collect_locals, SyntaxItem,
};
use crate::text::{push_char, push_str};
use swc_common::sync::Lrc;
use swc_common::{FileName, SourceMap};
use swc_ecma_parser::lexer::Lexer;
use swc_ecma_parser::{Parser, StringInput, Syntax, TsSyntax};
use vstd::prelude::*;

verus! {

/// One name an import statement binds.
#[derive(Debug, PartialEq, Eq)]
pub enum ImportSpecifier {
    /// `import { imported as local }`.
    Named { imported: String, local: String },
    /// `import local from …`.
    Default(String),
    /// `import * as local from …`.
    Namespace(String),
}

/// The abstract content of an [`ImportSpecifier`].
pub enum SpecifierView {
    Named { imported: Seq<char>, local: Seq<char> },
    Default(Seq<char>),
    Namespace(Seq<char>),
}

impl DeepView for ImportSpecifier {
    type V = SpecifierView;

    open spec fn deep_view(&self) -> SpecifierView {
        match self {
            ImportSpecifier::Named { imported, local } => SpecifierView::Named { imported: imported@, local: local@ },
            ImportSpecifier::Default(l) => SpecifierView::Default(l@),
            ImportSpecifier::Namespace(l) => SpecifierView::Namespace(l@),
        }
    }
}

/// An import statement: where from, which names, and whether only types are imported.
#[derive(Debug, PartialEq, Eq)]
pub struct Import {
    pub source: String,
    pub specifiers: Vec<ImportSpecifier>,
    pub type_only: bool,
}

/// The abstract content of an [`Import`].
pub struct ImportView {
    pub source: Seq<char>,
    pub specifiers: Seq<SpecifierView>,
    pub type_only: bool,
}

impl DeepView for Import {
    type V = ImportView;

    open spec fn deep_view(&self) -> ImportView {
        ImportView { source: self.source@, specifiers: self.specifiers.deep_view(), type_only: self.type_only }
    }
}

/// What an export statement exports.
#[derive(Debug, PartialEq, Eq)]
pub enum ExportKind {
    /// `export { local as exported }` or an exported declaration.
    Local { local: String, exported: Option<String> },
    /// `export { local as exported } from source`.
    ReExport { source: String, local: String, exported: Option<String> },
    /// `export * from source`.
    ReExportAll { source: String },
    /// `export default …`, with the declared name (empty when anonymous).
    Default(String),
}

/// The abstract content of an [`ExportKind`].
pub enum ExportKindView {
    Local { local: Seq<char>, exported: Option<Seq<char>> },
    ReExport { source: Seq<char>, local: Seq<char>, exported: Option<Seq<char>> },
    ReExportAll { source: Seq<char> },
    Default(Seq<char>),
}

/// An export statement.
#[derive(Debug, PartialEq, Eq)]
pub struct Export {
    pub kind: ExportKind,
}

impl DeepView for Export {
    type V = ExportKindView;

    open spec fn deep_view(&self) -> ExportKindView {
        match &self.kind {
            ExportKind::Local { local, exported } => ExportKindView::Local { local: local@, exported: exported.deep_view() },
            ExportKind::ReExport { source, local, exported } => ExportKindView::ReExport {
                source: source@,
                local: local@,
                exported: exported.deep_view(),
            },
            ExportKind::ReExportAll { source } => ExportKindView::ReExportAll { source: source@ },
            ExportKind::Default(name) => ExportKindView::Default(name@),
        }
    }
}

/// A module's identifier and source text.
#[derive(Debug)]
pub struct SourceModule {
    pub id: String,
    pub source: String,
}

/// A parsed module: its identifier, source and syntax tree, the tree's top-level items as
/// plain values, its imports and exports, the names it declares at top level and the
/// properties each of its components takes.
#[derive(Debug)]
pub struct ParsedModule {
    pub id: String,
    pub source: String,
    pub ast: swc_ecma_ast::Module,
    pub items: Vec<SyntaxItem>,
    pub imports: Vec<Import>,
    pub exports: Vec<Export>,
    pub locals: Vec<LocalSymbol>,
    pub component_props: Vec<(String, Vec<(String, ComponentPropKind)>)>,
}

/// The abstract content of a [`ParsedModule`].
pub struct ParsedView {
    pub id: Seq<char>,
    pub source: Seq<char>,
    pub items: Seq<SyntaxItem>,
    pub imports: Seq<ImportView>,
    pub exports: Seq<ExportKindView>,
    pub locals: Seq<LocalView>,
    pub component_props: Seq<(Seq<char>, Seq<(Seq<char>, ComponentPropKind)>)>,
}

impl DeepView for ParsedModule {
    type V = ParsedView;

    open spec fn deep_view(&self) -> ParsedView {
        ParsedView {
            id: self.id@,
            source: self.source@,
            items: self.items@,
            imports: self.imports.deep_view(),
            exports: self.exports.deep_view(),
            locals: self.locals.deep_view(),
            component_props: self.component_props.deep_view(),
        }
    }
}

// ─── Parsing ─────────────────────────────────────────────────────────────────

#[verifier::external_type_specification]
#[verifier::external_body]
pub struct ExModule(swc_ecma_ast::Module);

/// What the TSX parser makes of a source text named `id`: whether it gives a module, the
/// text of its fatal error (when it gives none), the texts of the errors it recovered
/// from, and the top-level items of the module it gives.
pub uninterp spec fn tsx_outcome(id: Seq<char>, source: Seq<char>) -> (bool, Seq<char>, Seq<Seq<char>>, Seq<SyntaxItem>);

/// Parses `source` with `swc_ecma_parser` as a TypeScript module with JSX (a source map
/// holding one file named `id`, the default ECMAScript target, no comments), giving the
/// module together with its top-level items (converted to [`SyntaxItem`]s) or the debug
/// text of the parse error, and the debug texts of the errors the parser recovered from.
/// The contract claims that these are functions of `id` and `source` alone; the module
/// itself is opaque to it. It also takes the parser to return on every source text: that
/// no input reaches one of the parser's internal panics is assumed, not shown by its
/// source here.
#[verifier::external_body]
fn parse_tsx(id: &str, source: &str) -> (r: (Result<(swc_ecma_ast::Module, Vec<SyntaxItem>), String>, Vec<String>))
    ensures
        (r.0 is Ok) == tsx_outcome(id@, source@).0,
        r.0 matches Err(e) ==> e@ == tsx_outcome(id@, source@).1,
        r.0 matches Ok(m) ==> m.1@ == tsx_outcome(id@, source@).3,
        r.1.deep_view() == tsx_outcome(id@, source@).2,
{
    let source_map: Lrc<SourceMap> = Default::default();
    let file = source_map.new_source_file(FileName::Custom(id.to_string()).into(), source.to_string());
    let syntax = Syntax::Typescript(TsSyntax { tsx: true, ..Default::default() });
    let lexer = Lexer::new(syntax, Default::default(), StringInput::from(&*file), None);
    let mut parser = Parser::new_from(lexer);
    let ast = parser.parse_module().map(|m| { let items = module_items(&m); (m, items) }).map_err(|error| format!("{error:?}"));
    let errors = parser.take_errors().into_iter().map(|error| format!("{error:?}")).collect();
    (ast, errors)
}

/// Lines joined with newlines.
pub open spec fn lines_text(ls: Seq<Seq<char>>) -> Seq<char>
    decreases ls.len(),
{
    if ls.len() == 0 {
        Seq::empty()
    } else if ls.len() == 1 {
        ls[0]
    } else {
        lines_text(ls.drop_last()) + seq!['\n'] + ls.last()
    }
}

fn join_lines(ls: &Vec<String>) -> (r: String)
    ensures
        r@ == lines_text(ls.deep_view()),
{
    let ghost all = ls.deep_view();
    let mut out = String::new();
    assert(out@ =~= lines_text(all.take(0)));
    for i in 0..ls.len()
        invariant
            all == ls.deep_view(),
            out@ == lines_text(all.take(i as int)),
    {
        assert(all.take(i + 1).drop_last() =~= all.take(i as int));
        assert(all.take(i + 1).last() == ls[i as int]@);
        if i > 0 {
            push_char(&mut out, '\n');
        }
        push_str(&mut out, ls[i].as_str());
        if i == 0 {
            assert(out@ =~= lines_text(all.take(1)));
        } else {
            assert(out@ =~= lines_text(all.take(i + 1)));
        }
    }
    assert(all.take(ls.len() as int) =~= all);
    out
}

/// The outcome of parsing a source text named `id`: a module when the parser gives one
/// and recovered from no error; else the fatal error's text, or the recovered errors'
/// texts, one per line.
pub open spec fn parse_outcome(id: Seq<char>, source: Seq<char>) -> Result<(), Seq<char>> {
    let o = tsx_outcome(id, source);
    if !o.0 {
        Err(o.1)
    } else if o.2.len() > 0 {
        Err(lines_text(o.2))
    } else {
        Ok(())
    }
}

/// What a parse comes to, given the parser's module (or fatal error) and the errors it
/// recovered from: the fatal error; else the recovered errors, one per line; else the
/// module.
pub fn parse_result(ast: Result<swc_ecma_ast::Module, String>, errors: Vec<String>) -> (r: Result<swc_ecma_ast::Module, String>)
    ensures
        match ast {
            Err(e) => r == Err::<swc_ecma_ast::Module, String>(e),
            Ok(m) => if errors@.len() > 0 {
                r matches Err(t) && t@ == lines_text(errors.deep_view())
            } else {
                r == Ok::<swc_ecma_ast::Module, String>(m)
            },
        },
{
    let ast = ast?;
    if errors.len() > 0 {
        return Err(join_lines(&errors));
    }
    Ok(ast)
}

/// Parses a source text named `id` as a TypeScript module with JSX.
pub fn parse_source(id: &str, source: &str) -> (r: Result<swc_ecma_ast::Module, String>)
    ensures
        (r is Ok) == (parse_outcome(id@, source@) is Ok),
        r matches Err(e) ==> parse_outcome(id@, source@) == Err::<(), Seq<char>>(e@),
{
    let (parsed, errors) = parse_tsx(id, source);
    let ast = match parsed {
        Ok((m, _items)) => Ok(m),
        Err(e) => Err(e),
    };
    parse_result(ast, errors)
}

/// Parses a source text as a TypeScript module with JSX (named `<entry>`).
pub fn parse(source: &str) -> (r: Result<swc_ecma_ast::Module, String>)
    ensures
        (r is Ok) == (parse_outcome("<entry>"@, source@) is Ok),
        r matches Err(e) ==> parse_outcome("<entry>"@, source@) == Err::<(), Seq<char>>(e@),
{
    parse_source("<entry>", source)
}

/// What is read from a module named `id` with source text `source` whose syntax tree has
/// the top-level items `items`.
pub open spec fn module_view(id: Seq<char>, source: Seq<char>, items: Seq<SyntaxItem>) -> ParsedView {
    ParsedView {
        id,
        source,
        items,
        imports: spec_collect_imports(items),
        exports: spec_collect_exports(items),
        locals: spec_collect_locals(items),
        component_props: spec_collect_component_props(items),
    }
}

/// Parses a module and reads what the semantic graph needs of it.
pub fn parse_module(id: &str, source: &str) -> (r: Result<ParsedModule, String>)
    ensures
        (r is Ok) == (parse_outcome(id@, source@) is Ok),
        r matches Err(e) ==> parse_outcome(id@, source@) == Err::<(), Seq<char>>(e@),
        r matches Ok(m) ==> m.deep_view() == module_view(id@, source@, tsx_outcome(id@, source@).3),
{
    let (parsed, errors) = parse_tsx(id, source);
    match parsed {
        Err(e) => Err(e),
        Ok((ast, items)) => {
            if errors.len() > 0 {
                return Err(join_lines(&errors));
            }
            let imports = collect_imports(&items);
            let exports = collect_exports(&items);
            let locals = collect_local_declarations(&items);
            let component_props = collect_component_props(&items);
            Ok(ParsedModule {
                id: String::from_str(id),
                source: String::from_str(source),
                ast,
                items,
                imports,
                exports,
                locals,
                component_props,
            })
        },
    }
}

/// Parses modules in order; the first that fails decides the error.
pub fn parse_modules(modules: Vec<SourceModule>) -> (r: Result<Vec<ParsedModule>, String>)
    ensures
        (r is Ok) == (forall|i: int| 0 <= i < modules.len() ==> (#[trigger] parse_outcome(modules[i].id@, modules[i].source@)) is Ok),
        r matches Ok(ms) ==> ms.len() == modules.len() && forall|i: int| 0 <= i < modules.len() ==>
            (#[trigger] ms[i]).deep_view() == module_view(modules[i].id@, modules[i].source@, tsx_outcome(modules[i].id@, modules[i].source@).3),
        r matches Err(e) ==> exists|i: int| 0 <= i < modules.len()
            && parse_outcome(modules[i].id@, modules[i].source@) == Err::<(), Seq<char>>(e@)
            && forall|j: int| 0 <= j < i ==> (#[trigger] parse_outcome(modules[j].id@, modules[j].source@)) is Ok,
{
    let mut out: Vec<ParsedModule> = Vec::new();
    for i in 0..modules.len()
        invariant
            out.len() == i,
            forall|j: int| 0 <= j < i ==> (#[trigger] parse_outcome(modules[j].id@, modules[j].source@)) is Ok,
            forall|j: int| 0 <= j < i ==> (#[trigger] out[j]).deep_view() == module_view(modules[j].id@, modules[j].source@, tsx_outcome(modules[j].id@, modules[j].source@).3),
    {
        match parse_module(modules[i].id.as_str(), modules[i].source.as_str()) {
            Ok(m) => out.push(m),
            Err(e) => {
                assert(0 <= i < modules.len());
                return Err(e);
            },
        }
    }
    Ok(out)
}

} // verus!
