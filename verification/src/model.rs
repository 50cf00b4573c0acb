//! The semantic graph of a set of modules: what each declares, imports and exports, and
//! the resolution of a name to the declaration it stands for.
use crate::parser::{
    Export, ExportKind, ExportKindView, Import, ImportSpecifier, ImportView, ParsedModule, ParsedView, SpecifierView,
};
use crate::text::{chars_of, str_eq};
use vstd::prelude::*;

verus! {

// ─── Symbols ─────────────────────────────────────────────────────────────────

/// What a declared name is.
#[derive(Clone, Copy, PartialEq, Eq, Structural, Debug)]
pub enum SymbolKind {
    Function,
    Variable,
    Class,
    Namespace,
}

/// A range of source bytes, `lo..hi`.
#[derive(Clone, Copy, PartialEq, Eq, Structural, Debug)]
pub struct SourceSpan {
    pub lo: u32,
    pub hi: u32,
}

impl SourceSpan {
    /// The empty range at the start of a file.
    pub open spec fn spec_empty() -> SourceSpan {
        SourceSpan { lo: 0, hi: 0 }
    }

    pub fn empty() -> (r: SourceSpan)
        ensures
            r == SourceSpan::spec_empty(),
    {
        SourceSpan { lo: 0, hi: 0 }
    }
}

/// A name in a module.
#[derive(Debug)]
pub struct SymbolRef {
    pub module_id: String,
    pub name: String,
}

/// A name declared in a module.
#[derive(Debug)]
pub struct LocalSymbol {
    pub name: String,
    pub kind: SymbolKind,
    pub span: SourceSpan,
}

/// The abstract content of a [`LocalSymbol`].
pub struct LocalView {
    pub name: Seq<char>,
    pub kind: SymbolKind,
    pub span: SourceSpan,
}

impl DeepView for LocalSymbol {
    type V = LocalView;

    open spec fn deep_view(&self) -> LocalView {
        LocalView { name: self.name@, kind: self.kind, span: self.span }
    }
}

/// The declaration a name resolves to.
#[derive(Debug)]
pub struct ResolvedSymbol {
    pub module_id: String,
    pub local_name: String,
    pub exported_name: Option<String>,
    pub kind: SymbolKind,
    pub span: SourceSpan,
}

/// The abstract content of a [`ResolvedSymbol`].
pub struct ResolvedView {
    pub module_id: Seq<char>,
    pub local_name: Seq<char>,
    pub exported_name: Option<Seq<char>>,
    pub kind: SymbolKind,
    pub span: SourceSpan,
}

impl DeepView for ResolvedSymbol {
    type V = ResolvedView;

    open spec fn deep_view(&self) -> ResolvedView {
        ResolvedView {
            module_id: self.module_id@,
            local_name: self.local_name@,
            exported_name: self.exported_name.deep_view(),
            kind: self.kind,
            span: self.span,
        }
    }
}

/// A name a module imports.
#[derive(Debug)]
pub struct ImportSymbol {
    pub local_name: String,
    pub imported_name: String,
    pub target_module_id: String,
    pub type_only: bool,
}

/// The abstract content of an [`ImportSymbol`].
pub struct ImportSymbolView {
    pub local_name: Seq<char>,
    pub imported_name: Seq<char>,
    pub target_module_id: Seq<char>,
    pub type_only: bool,
}

impl DeepView for ImportSymbol {
    type V = ImportSymbolView;

    open spec fn deep_view(&self) -> ImportSymbolView {
        ImportSymbolView {
            local_name: self.local_name@,
            imported_name: self.imported_name@,
            target_module_id: self.target_module_id@,
            type_only: self.type_only,
        }
    }
}

/// Where an exported name comes from.
#[derive(Debug)]
pub enum ExportSymbolKind {
    /// Declared in the exporting module.
    Local,
    /// Exported again from another module.
    ReExport { target_module_id: String },
}

/// A name a module exports.
#[derive(Debug)]
pub struct ExportSymbol {
    pub exported_name: String,
    pub local_name: Option<String>,
    pub kind: ExportSymbolKind,
}

/// The abstract content of an [`ExportSymbol`]; `target` is the module a re-export
/// comes from (`None` for a local export).
pub struct ExportSymbolView {
    pub exported_name: Seq<char>,
    pub local_name: Option<Seq<char>>,
    pub target: Option<Seq<char>>,
}

impl DeepView for ExportSymbol {
    type V = ExportSymbolView;

    open spec fn deep_view(&self) -> ExportSymbolView {
        ExportSymbolView {
            exported_name: self.exported_name@,
            local_name: self.local_name.deep_view(),
            target: match &self.kind {
                ExportSymbolKind::Local => None,
                ExportSymbolKind::ReExport { target_module_id } => Some(target_module_id@),
            },
        }
    }
}

/// What a component property is.
#[derive(Clone, Copy, PartialEq, Eq, Structural, Debug)]
pub enum ComponentPropKind {
    Value,
    Callable,
}

impl DeepView for ComponentPropKind {
    type V = ComponentPropKind;

    open spec fn deep_view(&self) -> ComponentPropKind {
        *self
    }
}

// ─── Keyed lists ─────────────────────────────────────────────────────────────

/// The value of the last entry with key `k` (later entries replace earlier ones).
pub open spec fn lookup<V>(s: Seq<(Seq<char>, V)>, k: Seq<char>) -> Option<V>
    decreases s.len(),
{
    if s.len() == 0 {
        None
    } else if s.last().0 == k {
        Some(s.last().1)
    } else {
        lookup(s.drop_last(), k)
    }
}

/// The entry with key `k` in a keyed list, if any (the last one given).
pub fn find<'a, V: DeepView>(s: &'a Vec<(String, V)>, k: &str) -> (r: Option<&'a V>)
    ensures
        match lookup(s.deep_view(), k@) {
            Some(v) => r matches Some(x) && x.deep_view() == v,
            None => r is None,
        },
{
    let ghost all = s.deep_view();
    let mut i: usize = s.len();
    assert(all.take(i as int) =~= all);
    while i > 0
        invariant
            i <= s.len(),
            all == s.deep_view(),
            lookup(all, k@) == lookup(all.take(i as int), k@),
        decreases i,
    {
        i -= 1;
        assert(all.take(i + 1).drop_last() =~= all.take(i as int));
        assert(all.take(i + 1).last() == s[i as int].deep_view());
        if str_eq(s[i].0.as_str(), k) {
            return Some(&s[i].1);
        }
    }
    assert(all.take(0) =~= Seq::<(Seq<char>, V::V)>::empty());
    None
}

// ─── Modules and the graph ───────────────────────────────────────────────────

/// What a module declares, imports and exports, each keyed by name.
#[derive(Debug)]
pub struct SemanticModule {
    pub id: String,
    pub locals: Vec<(String, LocalSymbol)>,
    pub component_props: Vec<(String, Vec<(String, ComponentPropKind)>)>,
    pub imports: Vec<(String, ImportSymbol)>,
    pub exports: Vec<(String, ExportSymbol)>,
    pub export_all: Vec<String>,
}

/// The abstract content of a [`SemanticModule`].
pub struct ModuleView {
    pub id: Seq<char>,
    pub locals: Seq<(Seq<char>, LocalView)>,
    pub component_props: Seq<(Seq<char>, Seq<(Seq<char>, ComponentPropKind)>)>,
    pub imports: Seq<(Seq<char>, ImportSymbolView)>,
    pub exports: Seq<(Seq<char>, ExportSymbolView)>,
    pub export_all: Seq<Seq<char>>,
}

impl DeepView for SemanticModule {
    type V = ModuleView;

    open spec fn deep_view(&self) -> ModuleView {
        ModuleView {
            id: self.id@,
            locals: self.locals.deep_view(),
            component_props: self.component_props.deep_view(),
            imports: self.imports.deep_view(),
            exports: self.exports.deep_view(),
            export_all: self.export_all.deep_view(),
        }
    }
}

/// The modules of a program; a module added under an identifier already present
/// replaces the earlier one.
#[derive(Debug)]
pub struct SemanticGraph {
    pub modules: Vec<SemanticModule>,
}

/// The module with identifier `id` (the last one added).
pub open spec fn module_of(g: Seq<ModuleView>, id: Seq<char>) -> Option<ModuleView>
    decreases g.len(),
{
    if g.len() == 0 {
        None
    } else if g.last().id == id {
        Some(g.last())
    } else {
        module_of(g.drop_last(), id)
    }
}

impl SemanticGraph {
    /// The modules, in the order they were added.
    pub open spec fn spec_modules(&self) -> Seq<ModuleView> {
        self.modules.deep_view()
    }

    /// An empty graph.
    pub fn new() -> (r: Self)
        ensures
            r.spec_modules() == Seq::<ModuleView>::empty(),
    {
        let r = SemanticGraph { modules: Vec::new() };
        assert(r.spec_modules() =~= Seq::<ModuleView>::empty());
        r
    }

    /// Adds a module, replacing any module with the same identifier.
    pub fn add_module(&mut self, module: SemanticModule)
        ensures
            final(self).spec_modules() == old(self).spec_modules().push(module.deep_view()),
    {
        let ghost before = self.spec_modules();
        let ghost m = module.deep_view();
        self.modules.push(module);
        assert(self.spec_modules() =~= before.push(m));
    }

    /// The module with identifier `id`.
    pub fn get_module(&self, id: &str) -> (r: Option<&SemanticModule>)
        ensures
            match module_of(self.spec_modules(), id@) {
                Some(m) => r matches Some(x) && x.deep_view() == m,
                None => r is None,
            },
    {
        let ghost all = self.spec_modules();
        let mut i: usize = self.modules.len();
        assert(all.take(i as int) =~= all);
        while i > 0
            invariant
                i <= self.modules.len(),
                all == self.spec_modules(),
                module_of(all, id@) == module_of(all.take(i as int), id@),
            decreases i,
        {
            i -= 1;
            assert(all.take(i + 1).drop_last() =~= all.take(i as int));
            assert(all.take(i + 1).last() == self.modules[i as int].deep_view());
            if str_eq(self.modules[i].id.as_str(), id) {
                return Some(&self.modules[i]);
            }
        }
        assert(all.take(0) =~= Seq::<ModuleView>::empty());
        None
    }
}

// ─── Building the graph ──────────────────────────────────────────────────────

/// Resolved import sources: `((module, source), target module)`, later entries replacing
/// earlier ones.
pub open spec fn resolved_target(r: Seq<((Seq<char>, Seq<char>), Seq<char>)>, m: Seq<char>, src: Seq<char>) -> Option<Seq<char>>
    decreases r.len(),
{
    if r.len() == 0 {
        None
    } else if r.last().0 == (m, src) {
        Some(r.last().1)
    } else {
        resolved_target(r.drop_last(), m, src)
    }
}

fn find_target(r: &Vec<((String, String), String)>, m: &str, src: &str) -> (t: Option<String>)
    ensures
        t.deep_view() == resolved_target(r.deep_view(), m@, src@),
{
    let ghost all = r.deep_view();
    let mut i: usize = r.len();
    assert(all.take(i as int) =~= all);
    while i > 0
        invariant
            i <= r.len(),
            all == r.deep_view(),
            resolved_target(all, m@, src@) == resolved_target(all.take(i as int), m@, src@),
        decreases i,
    {
        i -= 1;
        assert(all.take(i + 1).drop_last() =~= all.take(i as int));
        assert(all.take(i + 1).last() == r[i as int].deep_view());
        if str_eq(r[i].0.0.as_str(), m) && str_eq(r[i].0.1.as_str(), src) {
            return Some(r[i].1.clone());
        }
    }
    assert(all.take(0) =~= Seq::<((Seq<char>, Seq<char>), Seq<char>)>::empty());
    None
}

/// The import entry a specifier adds, keyed by the local name it binds.
pub open spec fn specifier_entry(sp: SpecifierView, target: Seq<char>, type_only: bool) -> (Seq<char>, ImportSymbolView) {
    match sp {
        SpecifierView::Named { imported, local } => (local, ImportSymbolView { local_name: local, imported_name: imported, target_module_id: target, type_only }),
        SpecifierView::Default(l) => (l, ImportSymbolView { local_name: l, imported_name: "default"@, target_module_id: target, type_only }),
        SpecifierView::Namespace(l) => (l, ImportSymbolView { local_name: l, imported_name: "*"@, target_module_id: target, type_only }),
    }
}

/// The import entries of a module: for each import whose source resolves, one entry per
/// specifier; imports whose source does not resolve are skipped.
pub open spec fn import_entries(m: Seq<char>, imports: Seq<ImportView>, r: Seq<((Seq<char>, Seq<char>), Seq<char>)>) -> Seq<(Seq<char>, ImportSymbolView)>
    decreases imports.len(),
{
    if imports.len() == 0 {
        Seq::empty()
    } else {
        let prev = import_entries(m, imports.drop_last(), r);
        let imp = imports.last();
        match resolved_target(r, m, imp.source) {
            None => prev,
            Some(t) => prev + imp.specifiers.map_values(|sp: SpecifierView| specifier_entry(sp, t, imp.type_only)),
        }
    }
}

/// The export entries of a module, keyed by exported name; re-exports whose source does
/// not resolve are skipped.
pub open spec fn export_entries(m: Seq<char>, exports: Seq<ExportKindView>, r: Seq<((Seq<char>, Seq<char>), Seq<char>)>) -> Seq<(Seq<char>, ExportSymbolView)>
    decreases exports.len(),
{
    if exports.len() == 0 {
        Seq::empty()
    } else {
        let prev = export_entries(m, exports.drop_last(), r);
        match exports.last() {
            ExportKindView::Local { local, exported } => {
                let name = match exported { Some(e) => e, None => local };
                prev.push((name, ExportSymbolView { exported_name: name, local_name: Some(local), target: None }))
            },
            ExportKindView::ReExport { source, local, exported } => match resolved_target(r, m, source) {
                None => prev,
                Some(t) => {
                    let name = match exported { Some(e) => e, None => local };
                    prev.push((name, ExportSymbolView { exported_name: name, local_name: Some(local), target: Some(t) }))
                },
            },
            ExportKindView::ReExportAll { .. } => prev,
            ExportKindView::Default(n) => prev.push(("default"@, ExportSymbolView {
                exported_name: "default"@,
                local_name: if n.len() == 0 { None } else { Some(n) },
                target: None,
            })),
        }
    }
}

/// The modules whose exports a module re-exports wholesale, in order; sources that do
/// not resolve are skipped.
pub open spec fn export_all_targets(m: Seq<char>, exports: Seq<ExportKindView>, r: Seq<((Seq<char>, Seq<char>), Seq<char>)>) -> Seq<Seq<char>>
    decreases exports.len(),
{
    if exports.len() == 0 {
        Seq::empty()
    } else {
        let prev = export_all_targets(m, exports.drop_last(), r);
        match exports.last() {
            ExportKindView::ReExportAll { source } => match resolved_target(r, m, source) {
                None => prev,
                Some(t) => prev.push(t),
            },
            _ => prev,
        }
    }
}

/// The semantic module of a parsed module.
pub open spec fn semantic_module(p: ParsedView, r: Seq<((Seq<char>, Seq<char>), Seq<char>)>) -> ModuleView {
    ModuleView {
        id: p.id,
        locals: p.locals.map_values(|l: LocalView| (l.name, l)),
        component_props: p.component_props,
        imports: import_entries(p.id, p.imports, r),
        exports: export_entries(p.id, p.exports, r),
        export_all: export_all_targets(p.id, p.exports, r),
    }
}

fn copy_local(l: &LocalSymbol) -> (r: LocalSymbol)
    ensures
        r.deep_view() == l.deep_view(),
{
    LocalSymbol { name: l.name.clone(), kind: l.kind, span: l.span }
}

fn copy_props(v: &Vec<(String, ComponentPropKind)>) -> (r: Vec<(String, ComponentPropKind)>)
    ensures
        r.deep_view() == v.deep_view(),
{
    let mut r: Vec<(String, ComponentPropKind)> = Vec::new();
    for i in 0..v.len()
        invariant
            r.deep_view() == v.deep_view().take(i as int),
    {
        let ghost before = r.deep_view();
        let e = (v[i].0.clone(), v[i].1);
        assert(e.deep_view() == v.deep_view()[i as int]);
        r.push(e);
        assert(r.deep_view() =~= before.push(v.deep_view()[i as int]));
        assert(v.deep_view().take(i + 1) =~= v.deep_view().take(i as int).push(v.deep_view()[i as int]));
    }
    assert(v.deep_view().take(v.len() as int) =~= v.deep_view());
    r
}

fn specifier_symbol(sp: &ImportSpecifier, target: &String, type_only: bool) -> (r: (String, ImportSymbol))
    ensures
        r.deep_view() == specifier_entry(sp.deep_view(), target@, type_only),
{
    match sp {
        ImportSpecifier::Named { imported, local } => (local.clone(), ImportSymbol {
            local_name: local.clone(),
            imported_name: imported.clone(),
            target_module_id: target.clone(),
            type_only,
        }),
        ImportSpecifier::Default(l) => (l.clone(), ImportSymbol {
            local_name: l.clone(),
            imported_name: String::from_str("default"),
            target_module_id: target.clone(),
            type_only,
        }),
        ImportSpecifier::Namespace(l) => (l.clone(), ImportSymbol {
            local_name: l.clone(),
            imported_name: String::from_str("*"),
            target_module_id: target.clone(),
            type_only,
        }),
    }
}

fn collect_import_symbols(id: &String, imports: &Vec<Import>, r: &Vec<((String, String), String)>) -> (out: Vec<(String, ImportSymbol)>)
    ensures
        out.deep_view() == import_entries(id@, imports.deep_view(), r.deep_view()),
{
    let ghost all = imports.deep_view();
    let mut out: Vec<(String, ImportSymbol)> = Vec::new();
    assert(out.deep_view() =~= import_entries(id@, all.take(0), r.deep_view()));
    for i in 0..imports.len()
        invariant
            all == imports.deep_view(),
            out.deep_view() == import_entries(id@, all.take(i as int), r.deep_view()),
    {
        assert(all.take(i + 1).drop_last() =~= all.take(i as int));
        let imp = &imports[i];
        assert(all.take(i + 1).last() == imp.deep_view());
        match find_target(r, id.as_str(), imp.source.as_str()) {
            None => {},
            Some(t) => {
                let ghost before = out.deep_view();
                let ghost specs = imp.specifiers.deep_view();
                let ghost added = specs.map_values(|sp: SpecifierView| specifier_entry(sp, t@, imp.type_only));
                for j in 0..imp.specifiers.len()
                    invariant
                        specs == imp.specifiers.deep_view(),
                        added == specs.map_values(|sp: SpecifierView| specifier_entry(sp, t@, imp.type_only)),
                        out.deep_view() == before + added.take(j as int),
                {
                    let e = specifier_symbol(&imp.specifiers[j], &t, imp.type_only);
                    let ghost mid = out.deep_view();
                    out.push(e);
                    assert(out.deep_view() =~= mid.push(added[j as int]));
                    assert(added.take(j + 1) =~= added.take(j as int).push(added[j as int]));
                }
                assert(added.take(imp.specifiers.len() as int) =~= added);
            },
        }
    }
    assert(all.take(imports.len() as int) =~= all);
    out
}

fn export_name(local: &String, exported: &Option<String>) -> (r: String)
    ensures
        r@ == match exported.deep_view() { Some(e) => e, None => local@ },
{
    match exported {
        Some(e) => e.clone(),
        None => local.clone(),
    }
}

fn collect_export_symbols(id: &String, exports: &Vec<Export>, r: &Vec<((String, String), String)>) -> (out: (Vec<(String, ExportSymbol)>, Vec<String>))
    ensures
        out.0.deep_view() == export_entries(id@, exports.deep_view(), r.deep_view()),
        out.1.deep_view() == export_all_targets(id@, exports.deep_view(), r.deep_view()),
{
    let ghost all = exports.deep_view();
    let mut entries: Vec<(String, ExportSymbol)> = Vec::new();
    let mut all_targets: Vec<String> = Vec::new();
    assert(entries.deep_view() =~= export_entries(id@, all.take(0), r.deep_view()));
    assert(all_targets.deep_view() =~= export_all_targets(id@, all.take(0), r.deep_view()));
    for i in 0..exports.len()
        invariant
            all == exports.deep_view(),
            entries.deep_view() == export_entries(id@, all.take(i as int), r.deep_view()),
            all_targets.deep_view() == export_all_targets(id@, all.take(i as int), r.deep_view()),
    {
        assert(all.take(i + 1).drop_last() =~= all.take(i as int));
        assert(all.take(i + 1).last() == exports[i as int].deep_view());
        let ghost before = entries.deep_view();
        let ghost before_all = all_targets.deep_view();
        match &exports[i].kind {
            ExportKind::Local { local, exported } => {
                let name = export_name(local, exported);
                entries.push((name.clone(), ExportSymbol { exported_name: name, local_name: Some(local.clone()), kind: ExportSymbolKind::Local }));
                assert(entries.deep_view() =~= before.push(entries.deep_view().last()));
            },
            ExportKind::ReExport { source, local, exported } => {
                match find_target(r, id.as_str(), source.as_str()) {
                    None => {},
                    Some(t) => {
                        let name = export_name(local, exported);
                        entries.push((name.clone(), ExportSymbol {
                            exported_name: name,
                            local_name: Some(local.clone()),
                            kind: ExportSymbolKind::ReExport { target_module_id: t },
                        }));
                        assert(entries.deep_view() =~= before.push(entries.deep_view().last()));
                    },
                }
            },
            ExportKind::ReExportAll { source } => {
                match find_target(r, id.as_str(), source.as_str()) {
                    None => {},
                    Some(t) => {
                        all_targets.push(t);
                        assert(all_targets.deep_view() =~= before_all.push(all_targets.deep_view().last()));
                    },
                }
            },
            ExportKind::Default(n) => {
                let local_name = if chars_of(n.as_str()).len() == 0 { None } else { Some(n.clone()) };
                entries.push((String::from_str("default"), ExportSymbol {
                    exported_name: String::from_str("default"),
                    local_name,
                    kind: ExportSymbolKind::Local,
                }));
                assert(entries.deep_view() =~= before.push(entries.deep_view().last()));
            },
        }
    }
    assert(all.take(exports.len() as int) =~= all);
    (entries, all_targets)
}

fn semantic_module_of(p: &ParsedModule, r: &Vec<((String, String), String)>) -> (m: SemanticModule)
    ensures
        m.deep_view() == semantic_module(p.deep_view(), r.deep_view()),
{
    let mut locals: Vec<(String, LocalSymbol)> = Vec::new();
    for i in 0..p.locals.len()
        invariant
            locals.deep_view() == p.locals.deep_view().take(i as int).map_values(|l: LocalView| (l.name, l)),
    {
        let ghost before = locals.deep_view();
        let e = (p.locals[i].name.clone(), copy_local(&p.locals[i]));
        let ghost lv = p.locals.deep_view()[i as int];
        assert(e.deep_view() == (lv.name, lv));
        locals.push(e);
        assert(locals.deep_view() =~= before.push((lv.name, lv)));
        assert(p.locals.deep_view().take(i + 1).map_values(|l: LocalView| (l.name, l))
            =~= p.locals.deep_view().take(i as int).map_values(|l: LocalView| (l.name, l)).push((lv.name, lv)));
    }
    assert(p.locals.deep_view().take(p.locals.len() as int) =~= p.locals.deep_view());
    let mut props: Vec<(String, Vec<(String, ComponentPropKind)>)> = Vec::new();
    for i in 0..p.component_props.len()
        invariant
            props.deep_view() == p.component_props.deep_view().take(i as int),
    {
        let ghost before = props.deep_view();
        let e = (p.component_props[i].0.clone(), copy_props(&p.component_props[i].1));
        assert(e.deep_view() == p.component_props.deep_view()[i as int]);
        props.push(e);
        assert(props.deep_view() =~= before.push(p.component_props.deep_view()[i as int]));
        assert(p.component_props.deep_view().take(i + 1)
            =~= p.component_props.deep_view().take(i as int).push(p.component_props.deep_view()[i as int]));
    }
    assert(p.component_props.deep_view().take(p.component_props.len() as int) =~= p.component_props.deep_view());
    let imports = collect_import_symbols(&p.id, &p.imports, r);
    let (exports, export_all) = collect_export_symbols(&p.id, &p.exports, r);
    SemanticModule { id: p.id.clone(), locals, component_props: props, imports, exports, export_all }
}

/// The semantic graph of parsed modules, given where each import source resolves to:
/// one semantic module per parsed module, in order.
pub fn build_semantic_graph(parsed_modules: &Vec<ParsedModule>, resolved_imports: &Vec<((String, String), String)>) -> (r: Result<SemanticGraph, String>)
    ensures
        r matches Ok(g) && g.spec_modules() == parsed_modules.deep_view().map_values(
            |p: ParsedView| semantic_module(p, resolved_imports.deep_view()),
        ),
{
    let mut graph = SemanticGraph::new();
    let ghost ps = parsed_modules.deep_view();
    for i in 0..parsed_modules.len()
        invariant
            ps == parsed_modules.deep_view(),
            graph.spec_modules() == ps.take(i as int).map_values(|p: ParsedView| semantic_module(p, resolved_imports.deep_view())),
    {
        let m = semantic_module_of(&parsed_modules[i], resolved_imports);
        graph.add_module(m);
        assert(graph.spec_modules() =~= ps.take(i + 1).map_values(|p: ParsedView| semantic_module(p, resolved_imports.deep_view())));
    }
    assert(ps.take(parsed_modules.len() as int) =~= ps);
    Ok(graph)
}

// ─── Resolution ──────────────────────────────────────────────────────────────

/// A module identifier of the host (`host:…`), whose exports are host functions.
pub open spec fn is_host(m: Seq<char>) -> bool {
    m.len() >= 5 && m.subrange(0, 5) == "host:"@
}

fn host_module(m: &str) -> (r: bool)
    ensures
        r == is_host(m@),
{
    let cs = chars_of(m);
    proof {
        reveal_strlit("host:");
    }
    if cs.len() >= 5 && cs[0] == 'h' && cs[1] == 'o' && cs[2] == 's' && cs[3] == 't' && cs[4] == ':' {
        assert(m@.subrange(0, 5) =~= "host:"@);
        true
    } else {
        proof {
            if m@.len() >= 5 {
                assert(m@.subrange(0, 5)[0] == m@[0]);
                assert(m@.subrange(0, 5)[1] == m@[1]);
                assert(m@.subrange(0, 5)[2] == m@[2]);
                assert(m@.subrange(0, 5)[3] == m@[3]);
                assert(m@.subrange(0, 5)[4] == m@[4]);
            }
        }
        false
    }
}

/// A host function, exported under its own name.
pub open spec fn host_symbol(m: Seq<char>, n: Seq<char>) -> ResolvedView {
    ResolvedView { module_id: m, local_name: n, exported_name: Some(n), kind: SymbolKind::Function, span: SourceSpan::spec_empty() }
}

/// What a local export of module `md` stands for: the declaration it names, or (when the
/// module declares no such name) a variable of that name.
pub open spec fn local_export_symbol(md: ModuleView, e: ExportSymbolView) -> ResolvedView {
    let fallback = ResolvedView {
        module_id: md.id,
        local_name: match e.local_name {
            Some(ln) => ln,
            None => Seq::empty(),
        },
        exported_name: Some(e.exported_name),
        kind: SymbolKind::Variable,
        span: SourceSpan::spec_empty(),
    };
    match e.local_name {
        Some(ln) => match lookup(md.locals, ln) {
            Some(l) => ResolvedView { module_id: md.id, local_name: l.name, exported_name: Some(e.exported_name), kind: l.kind, span: l.span },
            None => fallback,
        },
        None => fallback,
    }
}

/// A resolution, exported under the name `n`.
pub open spec fn exported_as(r: Option<ResolvedView>, n: Seq<char>) -> Option<ResolvedView> {
    match r {
        Some(s) => Some(ResolvedView { exported_name: Some(n), ..s }),
        None => None,
    }
}

/// The depth-first search for what module `m` exports as `n`, given the (module, name)
/// pairs already visited (every pair is looked at once, so cycles end), and a bound on
/// the depth of the search. Gives the resolution and the pairs visited by the end.
pub open spec fn export_search(
    g: Seq<ModuleView>,
    m: Seq<char>,
    n: Seq<char>,
    visited: Seq<(Seq<char>, Seq<char>)>,
    fuel: nat,
) -> (Option<ResolvedView>, Seq<(Seq<char>, Seq<char>)>)
    decreases fuel, 0nat, 0nat,
{
    if is_host(m) {
        (Some(host_symbol(m, n)), visited)
    } else if visited.contains((m, n)) {
        (None, visited)
    } else if fuel == 0 {
        (None, visited.push((m, n)))
    } else {
        let v1 = visited.push((m, n));
        match module_of(g, m) {
            None => (None, v1),
            Some(md) => match lookup(md.exports, n) {
                Some(e) => match e.target {
                    None => (Some(local_export_symbol(md, e)), v1),
                    Some(t) => match e.local_name {
                        Some(ln) => {
                            let (r, v2) = export_search(g, t, ln, v1, (fuel - 1) as nat);
                            (exported_as(r, e.exported_name), v2)
                        },
                        None => all_search(g, md.export_all, 0, n, v1, (fuel - 1) as nat),
                    },
                },
                None => all_search(g, md.export_all, 0, n, v1, (fuel - 1) as nat),
            },
        }
    }
}

/// The search through the modules a module re-exports wholesale, from the `i`th on: the
/// first that exports `n` decides, under the name `n`.
pub open spec fn all_search(
    g: Seq<ModuleView>,
    targets: Seq<Seq<char>>,
    i: nat,
    n: Seq<char>,
    visited: Seq<(Seq<char>, Seq<char>)>,
    fuel: nat,
) -> (Option<ResolvedView>, Seq<(Seq<char>, Seq<char>)>)
    decreases fuel, 1nat, targets.len() - i,
{
    if i >= targets.len() {
        (None, visited)
    } else {
        let (r, v2) = export_search(g, targets[i as int], n, visited, fuel);
        match r {
            Some(_) => (exported_as(r, n), v2),
            None => all_search(g, targets, i + 1, n, v2, fuel),
        }
    }
}

fn visited_contains(visited: &Vec<(String, String)>, m: &str, n: &str) -> (r: bool)
    ensures
        r == visited.deep_view().contains((m@, n@)),
{
    let ghost all = visited.deep_view();
    let mut i: usize = 0;
    while i < visited.len()
        invariant
            i <= visited.len(),
            all == visited.deep_view(),
            forall|k: int| 0 <= k < i ==> all[k] != (m@, n@),
        decreases visited.len() - i,
    {
        if str_eq(visited[i].0.as_str(), m) && str_eq(visited[i].1.as_str(), n) {
            assert(all[i as int] == (m@, n@));
            return true;
        }
        i += 1;
    }
    false
}

fn copy_resolved_as(s: &ResolvedSymbol, n: &String) -> (r: ResolvedSymbol)
    ensures
        r.deep_view() == (ResolvedView { exported_name: Some(n@), ..s.deep_view() }),
{
    ResolvedSymbol { module_id: s.module_id.clone(), local_name: s.local_name.clone(), exported_name: Some(n.clone()), kind: s.kind, span: s.span }
}

fn local_export(md: &SemanticModule, e: &ExportSymbol) -> (r: ResolvedSymbol)
    ensures
        r.deep_view() == local_export_symbol(md.deep_view(), e.deep_view()),
{
    if let Some(ln) = &e.local_name {
        if let Some(l) = find(&md.locals, ln.as_str()) {
            return ResolvedSymbol {
                module_id: md.id.clone(),
                local_name: l.name.clone(),
                exported_name: Some(e.exported_name.clone()),
                kind: l.kind,
                span: l.span,
            };
        }
    }
    let local_name = match &e.local_name {
        Some(ln) => ln.clone(),
        None => String::new(),
    };
    ResolvedSymbol { module_id: md.id.clone(), local_name, exported_name: Some(e.exported_name.clone()), kind: SymbolKind::Variable, span: SourceSpan::empty() }
}

fn resolve_export_with_visited(g: &SemanticGraph, m: &str, n: &str, visited: &mut Vec<(String, String)>, fuel: u64) -> (r: Option<ResolvedSymbol>)
    ensures
        r.deep_view() == export_search(g.spec_modules(), m@, n@, old(visited).deep_view(), fuel as nat).0,
        final(visited).deep_view() == export_search(g.spec_modules(), m@, n@, old(visited).deep_view(), fuel as nat).1,
    decreases fuel,
{
    let ghost gv = g.spec_modules();
    let ghost v0 = visited.deep_view();
    if host_module(m) {
        return Some(ResolvedSymbol {
            module_id: m.to_string(),
            local_name: n.to_string(),
            exported_name: Some(n.to_string()),
            kind: SymbolKind::Function,
            span: SourceSpan::empty(),
        });
    }
    if visited_contains(visited, m, n) {
        return None;
    }
    visited.push((m.to_string(), n.to_string()));
    assert(visited.deep_view() =~= v0.push((m@, n@)));
    if fuel == 0 {
        return None;
    }
    let md = match g.get_module(m) {
        None => return None,
        Some(md) => md,
    };
    let ghost mdv = md.deep_view();
    if let Some(e) = find(&md.exports, n) {
        match &e.kind {
            ExportSymbolKind::Local => {
                return Some(local_export(md, e));
            },
            ExportSymbolKind::ReExport { target_module_id } => {
                if let Some(ln) = &e.local_name {
                    let r = resolve_export_with_visited(g, target_module_id.as_str(), ln.as_str(), visited, fuel - 1);
                    return match r {
                        Some(s) => Some(copy_resolved_as(&s, &e.exported_name)),
                        None => None,
                    };
                }
            },
        }
    }
    let ghost v1 = visited.deep_view();
    assert(export_search(gv, m@, n@, v0, fuel as nat) == all_search(gv, mdv.export_all, 0, n@, v1, (fuel - 1) as nat));
    let mut i: usize = 0;
    while i < md.export_all.len()
        invariant
            gv == g.spec_modules(),
            v0 == old(visited).deep_view(),
            export_search(gv, m@, n@, v0, fuel as nat) == all_search(gv, mdv.export_all, 0, n@, v1, (fuel - 1) as nat),
            mdv == md.deep_view(),
            fuel > 0,
            i <= md.export_all.len(),
            all_search(gv, mdv.export_all, 0, n@, v1, (fuel - 1) as nat)
                == all_search(gv, mdv.export_all, i as nat, n@, visited.deep_view(), (fuel - 1) as nat),
        decreases md.export_all.len() - i,
    {
        let ghost before = visited.deep_view();
        assert(mdv.export_all[i as int] == md.export_all[i as int]@);
        let r = resolve_export_with_visited(g, md.export_all[i].as_str(), n, visited, fuel - 1);
        if let Some(s) = r {
            let name = n.to_string();
            assert(name@ == n@);
            return Some(copy_resolved_as(&s, &name));
        }
        i += 1;
    }
    None
}

/// The number of export entries and wholesale re-exports in a graph (at most `u64::MAX`).
pub open spec fn entry_count(g: Seq<ModuleView>) -> nat
    decreases g.len(),
{
    if g.len() == 0 {
        0
    } else {
        let c = entry_count(g.drop_last()) + g.last().exports.len() + g.last().export_all.len();
        if c > u64::MAX { u64::MAX as nat } else { c }
    }
}

/// The depth bound of a search in a graph: one more than the number of (module, name)
/// pairs it can visit, `(entries + 1)²`, when that fits in a `u64`.
pub open spec fn search_fuel(g: Seq<ModuleView>) -> nat {
    let e = entry_count(g) + 1;
    if e * e + 1 <= u64::MAX { (e * e + 1) as nat } else { u64::MAX as nat }
}

fn graph_fuel(g: &SemanticGraph) -> (f: u64)
    ensures
        f == search_fuel(g.spec_modules()),
{
    let ghost gv = g.spec_modules();
    let mut count: u64 = 0;
    let mut i: usize = 0;
    while i < g.modules.len()
        invariant
            i <= g.modules.len(),
            gv == g.spec_modules(),
            count == entry_count(gv.take(i as int)),
        decreases g.modules.len() - i,
    {
        assert(gv.take(i + 1).drop_last() =~= gv.take(i as int));
        assert(gv.take(i + 1).last() == g.modules[i as int].deep_view());
        count = count.saturating_add(g.modules[i].exports.len() as u64);
        count = count.saturating_add(g.modules[i].export_all.len() as u64);
        i += 1;
    }
    assert(gv.take(g.modules.len() as int) =~= gv);
    if count == u64::MAX {
        assert((entry_count(gv) + 1) * (entry_count(gv) + 1) + 1 > u64::MAX) by (nonlinear_arith)
            requires
                entry_count(gv) == u64::MAX,
        ;
        return u64::MAX;
    }
    let e = count + 1;
    match e.checked_mul(e) {
        Some(sq) => sq.saturating_add(1),
        None => u64::MAX,
    }
}

/// What module `m` exports as `n`: a host function for a host module; else the
/// declaration the export names, following re-exports and wholesale re-exports (the first
/// such module that exports `n` decides) and ending at a cycle.
pub open spec fn export_resolution(g: Seq<ModuleView>, m: Seq<char>, n: Seq<char>) -> Option<ResolvedView> {
    export_search(g, m, n, Seq::empty(), search_fuel(g)).0
}

/// The declaration module `module_id` exports as `exported_name`.
pub fn resolve_export(graph: &SemanticGraph, module_id: &str, exported_name: &str) -> (r: Option<ResolvedSymbol>)
    ensures
        r.deep_view() == export_resolution(graph.spec_modules(), module_id@, exported_name@),
{
    let mut visited: Vec<(String, String)> = Vec::new();
    assert(visited.deep_view() =~= Seq::<(Seq<char>, Seq<char>)>::empty());
    let fuel = graph_fuel(graph);
    resolve_export_with_visited(graph, module_id, exported_name, &mut visited, fuel)
}

/// What the name `name` stands for in module `m`: its own declaration; else, for a name
/// it imports (not only as a type), the namespace of a `* as` import, the host function
/// of a host import, or what the source module exports under the imported name.
pub open spec fn local_resolution(g: Seq<ModuleView>, m: Seq<char>, name: Seq<char>) -> Option<ResolvedView> {
    match module_of(g, m) {
        None => None,
        Some(md) => match lookup(md.locals, name) {
            Some(l) => Some(ResolvedView { module_id: md.id, local_name: l.name, exported_name: None, kind: l.kind, span: l.span }),
            None => match lookup(md.imports, name) {
                None => None,
                Some(imp) => if imp.type_only {
                    None
                } else if imp.imported_name == "*"@ {
                    Some(ResolvedView {
                        module_id: imp.target_module_id,
                        local_name: "*"@,
                        exported_name: None,
                        kind: SymbolKind::Namespace,
                        span: SourceSpan::spec_empty(),
                    })
                } else if is_host(imp.target_module_id) {
                    Some(ResolvedView {
                        module_id: imp.target_module_id,
                        local_name: imp.imported_name,
                        exported_name: Some(imp.imported_name),
                        kind: SymbolKind::Function,
                        span: SourceSpan::spec_empty(),
                    })
                } else {
                    export_resolution(g, imp.target_module_id, imp.imported_name)
                },
            },
        },
    }
}

/// The declaration the name `local_name` stands for in module `module_id`.
pub fn resolve_local_symbol(graph: &SemanticGraph, module_id: &str, local_name: &str) -> (r: Option<ResolvedSymbol>)
    ensures
        r.deep_view() == local_resolution(graph.spec_modules(), module_id@, local_name@),
{
    let module = graph.get_module(module_id)?;
    if let Some(local) = find(&module.locals, local_name) {
        return Some(ResolvedSymbol {
            module_id: module.id.clone(),
            local_name: local.name.clone(),
            exported_name: None,
            kind: local.kind,
            span: local.span,
        });
    }
    if let Some(import) = find(&module.imports, local_name) {
        if import.type_only {
            return None;
        }
        if str_eq(import.imported_name.as_str(), "*") {
            return Some(ResolvedSymbol {
                module_id: import.target_module_id.clone(),
                local_name: String::from_str("*"),
                exported_name: None,
                kind: SymbolKind::Namespace,
                span: SourceSpan::empty(),
            });
        }
        if host_module(import.target_module_id.as_str()) {
            return Some(ResolvedSymbol {
                module_id: import.target_module_id.clone(),
                local_name: import.imported_name.clone(),
                exported_name: Some(import.imported_name.clone()),
                kind: SymbolKind::Function,
                span: SourceSpan::empty(),
            });
        }
        return resolve_export(graph, import.target_module_id.as_str(), import.imported_name.as_str());
    }
    None
}

/// The function the name `name` stands for in module `module_id` (nothing when it stands
/// for something else).
pub fn resolve_function(graph: &SemanticGraph, module_id: &str, name: &str) -> (r: Option<ResolvedSymbol>)
    ensures
        r.deep_view() == match local_resolution(graph.spec_modules(), module_id@, name@) {
            Some(s) => if s.kind == SymbolKind::Function { Some(s) } else { None },
            None => None,
        },
{
    let symbol = resolve_local_symbol(graph, module_id, name)?;
    match symbol.kind {
        SymbolKind::Function => Some(symbol),
        _ => None,
    }
}

/// The component (a function or a variable) the name `name` stands for in module
/// `module_id` (nothing when it stands for a class or a namespace).
pub fn resolve_component(graph: &SemanticGraph, module_id: &str, name: &str) -> (r: Option<ResolvedSymbol>)
    ensures
        r.deep_view() == match local_resolution(graph.spec_modules(), module_id@, name@) {
            Some(s) => if s.kind == SymbolKind::Function || s.kind == SymbolKind::Variable { Some(s) } else { None },
            None => None,
        },
{
    let symbol = resolve_local_symbol(graph, module_id, name)?;
    match symbol.kind {
        SymbolKind::Function | SymbolKind::Variable => Some(symbol),
        _ => None,
    }
}


// ─── The depth bound suffices ────────────────────────────────────────────────

/// The modules that exports of `es` re-export from.
pub open spec fn export_targets(es: Seq<(Seq<char>, ExportSymbolView)>) -> Seq<Seq<char>>
    decreases es.len(),
{
    if es.len() == 0 {
        Seq::empty()
    } else {
        let p = export_targets(es.drop_last());
        match es.last().1.target {
            Some(t) => p.push(t),
            None => p,
        }
    }
}

/// The local names exports of `es` name.
pub open spec fn export_locals(es: Seq<(Seq<char>, ExportSymbolView)>) -> Seq<Seq<char>>
    decreases es.len(),
{
    if es.len() == 0 {
        Seq::empty()
    } else {
        let p = export_locals(es.drop_last());
        match es.last().1.local_name {
            Some(l) => p.push(l),
            None => p,
        }
    }
}

/// Every module a search in `g` can move to.
pub open spec fn graph_targets(g: Seq<ModuleView>) -> Seq<Seq<char>>
    decreases g.len(),
{
    if g.len() == 0 {
        Seq::empty()
    } else {
        graph_targets(g.drop_last()) + export_targets(g.last().exports) + g.last().export_all
    }
}

/// Every name a search in `g` can move to.
pub open spec fn graph_names(g: Seq<ModuleView>) -> Seq<Seq<char>>
    decreases g.len(),
{
    if g.len() == 0 {
        Seq::empty()
    } else {
        graph_names(g.drop_last()) + export_locals(g.last().exports)
    }
}

/// The number of export entries and wholesale re-exports in `g`.
pub open spec fn raw_count(g: Seq<ModuleView>) -> nat
    decreases g.len(),
{
    if g.len() == 0 {
        0
    } else {
        raw_count(g.drop_last()) + g.last().exports.len() + g.last().export_all.len()
    }
}

/// Every pair of an element of `ms` with an element of `ns`.
pub open spec fn pairs(ms: Seq<Seq<char>>, ns: Seq<Seq<char>>) -> Seq<(Seq<char>, Seq<char>)>
    decreases ms.len(),
{
    if ms.len() == 0 {
        Seq::empty()
    } else {
        pairs(ms.drop_last(), ns) + ns.map_values(|n: Seq<char>| (ms.last(), n))
    }
}

/// How many entries of `us` are not in `v`.
pub open spec fn unvisited(us: Seq<(Seq<char>, Seq<char>)>, v: Seq<(Seq<char>, Seq<char>)>) -> nat
    decreases us.len(),
{
    if us.len() == 0 {
        0
    } else {
        unvisited(us.drop_last(), v) + if v.contains(us.last()) { 0nat } else { 1nat }
    }
}

proof fn lemma_export_entry_parts(es: Seq<(Seq<char>, ExportSymbolView)>, n: Seq<char>)
    requires
        lookup(es, n) is Some,
    ensures
        lookup(es, n)->0.target matches Some(t) ==> export_targets(es).contains(t),
        lookup(es, n)->0.local_name matches Some(l) ==> export_locals(es).contains(l),
    decreases es.len(),
{
    if es.last().0 != n {
        lemma_export_entry_parts(es.drop_last(), n);
        let e = lookup(es, n)->0;
        if let Some(t) = e.target {
            let k = choose|k: int| 0 <= k < export_targets(es.drop_last()).len() && export_targets(es.drop_last())[k] == t;
            assert(export_targets(es)[k] == t);
        }
        if let Some(l) = e.local_name {
            let k = choose|k: int| 0 <= k < export_locals(es.drop_last()).len() && export_locals(es.drop_last())[k] == l;
            assert(export_locals(es)[k] == l);
        }
    } else {
        let e = es.last().1;
        if let Some(t) = e.target {
            assert(export_targets(es)[export_targets(es).len() - 1] == t);
        }
        if let Some(l) = e.local_name {
            assert(export_locals(es)[export_locals(es).len() - 1] == l);
        }
    }
}

proof fn lemma_module_parts(g: Seq<ModuleView>, m: Seq<char>)
    requires
        module_of(g, m) is Some,
    ensures
        forall|t: Seq<char>| #[trigger] export_targets(module_of(g, m)->0.exports).contains(t) ==> graph_targets(g).contains(t),
        forall|t: Seq<char>| #[trigger] module_of(g, m)->0.export_all.contains(t) ==> graph_targets(g).contains(t),
        forall|l: Seq<char>| #[trigger] export_locals(module_of(g, m)->0.exports).contains(l) ==> graph_names(g).contains(l),
    decreases g.len(),
{
    let p = g.drop_last();
    let md = module_of(g, m)->0;
    let a = export_targets(g.last().exports);
    let b = g.last().export_all;
    assert(graph_targets(g) == graph_targets(p) + a + b);
    assert(graph_names(g) == graph_names(p) + export_locals(g.last().exports));
    if g.last().id != m {
        lemma_module_parts(p, m);
        assert forall|t: Seq<char>| #[trigger] export_targets(md.exports).contains(t) implies graph_targets(g).contains(t) by {
            let k = choose|k: int| 0 <= k < graph_targets(p).len() && graph_targets(p)[k] == t;
            assert(graph_targets(g)[k] == t);
        }
        assert forall|t: Seq<char>| #[trigger] md.export_all.contains(t) implies graph_targets(g).contains(t) by {
            let k = choose|k: int| 0 <= k < graph_targets(p).len() && graph_targets(p)[k] == t;
            assert(graph_targets(g)[k] == t);
        }
        assert forall|l: Seq<char>| #[trigger] export_locals(md.exports).contains(l) implies graph_names(g).contains(l) by {
            let k = choose|k: int| 0 <= k < graph_names(p).len() && graph_names(p)[k] == l;
            assert(graph_names(g)[k] == l);
        }
    } else {
        assert forall|t: Seq<char>| #[trigger] export_targets(md.exports).contains(t) implies graph_targets(g).contains(t) by {
            let k = choose|k: int| 0 <= k < a.len() && a[k] == t;
            assert(graph_targets(g)[graph_targets(p).len() + k] == t);
        }
        assert forall|t: Seq<char>| #[trigger] md.export_all.contains(t) implies graph_targets(g).contains(t) by {
            let k = choose|k: int| 0 <= k < b.len() && b[k] == t;
            assert(graph_targets(g)[graph_targets(p).len() + a.len() + k] == t);
        }
        assert forall|l: Seq<char>| #[trigger] export_locals(md.exports).contains(l) implies graph_names(g).contains(l) by {
            let k = choose|k: int| 0 <= k < export_locals(md.exports).len() && export_locals(md.exports)[k] == l;
            assert(graph_names(g)[graph_names(p).len() + k] == l);
        }
    }
}

proof fn lemma_export_lens(es: Seq<(Seq<char>, ExportSymbolView)>)
    ensures
        export_targets(es).len() <= es.len(),
        export_locals(es).len() <= es.len(),
    decreases es.len(),
{
    if es.len() > 0 {
        lemma_export_lens(es.drop_last());
    }
}

proof fn lemma_graph_lens(g: Seq<ModuleView>)
    ensures
        graph_targets(g).len() <= raw_count(g),
        graph_names(g).len() <= raw_count(g),
        entry_count(g) == if raw_count(g) > u64::MAX { u64::MAX as nat } else { raw_count(g) },
    decreases g.len(),
{
    if g.len() > 0 {
        lemma_graph_lens(g.drop_last());
        lemma_export_lens(g.last().exports);
    }
}

proof fn lemma_pairs(ms: Seq<Seq<char>>, ns: Seq<Seq<char>>, m: Seq<char>, n: Seq<char>)
    ensures
        pairs(ms, ns).len() == ms.len() * ns.len(),
        ms.contains(m) && ns.contains(n) ==> pairs(ms, ns).contains((m, n)),
    decreases ms.len(),
{
    if ms.len() > 0 {
        let p = ms.drop_last();
        lemma_pairs(p, ns, m, n);
        assert(pairs(ms, ns).len() == p.len() * ns.len() + ns.len());
        assert(p.len() * ns.len() + ns.len() == ms.len() * ns.len()) by (nonlinear_arith)
            requires
                p.len() + 1 == ms.len(),
        ;
        if ms.contains(m) && ns.contains(n) {
            let q = pairs(p, ns);
            if ms.last() == m {
                let j = choose|j: int| 0 <= j < ns.len() && ns[j] == n;
                assert(pairs(ms, ns)[q.len() + j] == (m, n));
            } else {
                let i = choose|i: int| 0 <= i < ms.len() && ms[i] == m;
                assert(p[i] == m);
                let k = choose|k: int| 0 <= k < q.len() && q[k] == (m, n);
                assert(pairs(ms, ns)[k] == (m, n));
            }
        }
    }
}

proof fn lemma_unvisited_bounds(us: Seq<(Seq<char>, Seq<char>)>, v: Seq<(Seq<char>, Seq<char>)>, w: Seq<(Seq<char>, Seq<char>)>)
    requires
        forall|k: (Seq<char>, Seq<char>)| v.contains(k) ==> #[trigger] w.contains(k),
    ensures
        unvisited(us, w) <= unvisited(us, v),
        unvisited(us, v) <= us.len(),
    decreases us.len(),
{
    if us.len() > 0 {
        lemma_unvisited_bounds(us.drop_last(), v, w);
    }
}

proof fn lemma_unvisited_push(us: Seq<(Seq<char>, Seq<char>)>, v: Seq<(Seq<char>, Seq<char>)>, k: (Seq<char>, Seq<char>))
    requires
        us.contains(k),
        !v.contains(k),
    ensures
        unvisited(us, v.push(k)) < unvisited(us, v),
    decreases us.len(),
{
    let w = v.push(k);
    assert forall|x: (Seq<char>, Seq<char>)| v.contains(x) implies #[trigger] w.contains(x) by {
        let i = choose|i: int| 0 <= i < v.len() && v[i] == x;
        assert(w[i] == x);
    }
    assert(w.contains(k)) by {
        assert(w[v.len() as int] == k);
    }
    let p = us.drop_last();
    lemma_unvisited_bounds(p, v, w);
    if us.last() != k {
        let i = choose|i: int| 0 <= i < us.len() && us[i] == k;
        assert(p[i] == k);
        lemma_unvisited_push(p, v, k);
        if v.contains(us.last()) {
            assert(w.contains(us.last()));
        }
    }
}

/// A search step never forgets a visited pair.
pub open spec fn keeps(v: Seq<(Seq<char>, Seq<char>)>, w: Seq<(Seq<char>, Seq<char>)>) -> bool {
    forall|k: (Seq<char>, Seq<char>)| v.contains(k) ==> #[trigger] w.contains(k)
}

proof fn lemma_search_fuel(
    g: Seq<ModuleView>,
    us: Seq<(Seq<char>, Seq<char>)>,
    ms: Seq<Seq<char>>,
    ns: Seq<Seq<char>>,
    m: Seq<char>,
    n: Seq<char>,
    v: Seq<(Seq<char>, Seq<char>)>,
    f1: nat,
    f2: nat,
)
    requires
        us == pairs(ms, ns),
        forall|t: Seq<char>| #[trigger] graph_targets(g).contains(t) ==> ms.contains(t),
        forall|l: Seq<char>| #[trigger] graph_names(g).contains(l) ==> ns.contains(l),
        ms.contains(m),
        ns.contains(n),
        f1 > unvisited(us, v),
        f2 > unvisited(us, v),
    ensures
        export_search(g, m, n, v, f1) == export_search(g, m, n, v, f2),
        keeps(v, export_search(g, m, n, v, f1).1),
    decreases f1, 0nat, 0nat,
{
    if is_host(m) || v.contains((m, n)) {
    } else {
        let v1 = v.push((m, n));
        lemma_pairs(ms, ns, m, n);
        lemma_unvisited_push(us, v, (m, n));
        assert(keeps(v, v1)) by {
            assert forall|x: (Seq<char>, Seq<char>)| v.contains(x) implies #[trigger] v1.contains(x) by {
                let i = choose|i: int| 0 <= i < v.len() && v[i] == x;
                assert(v1[i] == x);
            }
        }
        match module_of(g, m) {
            None => {},
            Some(md) => {
                lemma_module_parts(g, m);
                match lookup(md.exports, n) {
                    Some(e) => {
                        lemma_export_entry_parts(md.exports, n);
                        match e.target {
                            None => {},
                            Some(t) => match e.local_name {
                                Some(ln) => {
                                    lemma_search_fuel(g, us, ms, ns, t, ln, v1, (f1 - 1) as nat, (f2 - 1) as nat);
                                    let w = export_search(g, t, ln, v1, (f1 - 1) as nat).1;
                                    assert(keeps(v, w)) by {
                                        assert forall|x: (Seq<char>, Seq<char>)| v.contains(x) implies #[trigger] w.contains(x) by {
                                            assert(v1.contains(x));
                                        }
                                    }
                                },
                                None => {
                                    lemma_all_fuel(g, us, ms, ns, md.export_all, 0, n, v1, (f1 - 1) as nat, (f2 - 1) as nat);
                                    let w = all_search(g, md.export_all, 0, n, v1, (f1 - 1) as nat).1;
                                    assert(keeps(v, w)) by {
                                        assert forall|x: (Seq<char>, Seq<char>)| v.contains(x) implies #[trigger] w.contains(x) by {
                                            assert(v1.contains(x));
                                        }
                                    }
                                },
                            },
                        }
                    },
                    None => {
                        lemma_all_fuel(g, us, ms, ns, md.export_all, 0, n, v1, (f1 - 1) as nat, (f2 - 1) as nat);
                        let w = all_search(g, md.export_all, 0, n, v1, (f1 - 1) as nat).1;
                        assert(keeps(v, w)) by {
                            assert forall|x: (Seq<char>, Seq<char>)| v.contains(x) implies #[trigger] w.contains(x) by {
                                assert(v1.contains(x));
                            }
                        }
                    },
                }
            },
        }
    }
}

proof fn lemma_all_fuel(
    g: Seq<ModuleView>,
    us: Seq<(Seq<char>, Seq<char>)>,
    ms: Seq<Seq<char>>,
    ns: Seq<Seq<char>>,
    targets: Seq<Seq<char>>,
    i: nat,
    n: Seq<char>,
    v: Seq<(Seq<char>, Seq<char>)>,
    f1: nat,
    f2: nat,
)
    requires
        us == pairs(ms, ns),
        forall|t: Seq<char>| #[trigger] graph_targets(g).contains(t) ==> ms.contains(t),
        forall|l: Seq<char>| #[trigger] graph_names(g).contains(l) ==> ns.contains(l),
        forall|t: Seq<char>| #[trigger] targets.contains(t) ==> ms.contains(t),
        ns.contains(n),
        f1 > unvisited(us, v),
        f2 > unvisited(us, v),
    ensures
        all_search(g, targets, i, n, v, f1) == all_search(g, targets, i, n, v, f2),
        keeps(v, all_search(g, targets, i, n, v, f1).1),
    decreases f1, 1nat, targets.len() - i,
{
    if i < targets.len() {
        let t = targets[i as int];
        assert(targets.contains(t));
        lemma_search_fuel(g, us, ms, ns, t, n, v, f1, f2);
        let (r, v2) = export_search(g, t, n, v, f1);
        if r is None {
            lemma_unvisited_bounds(us, v, v2);
            lemma_all_fuel(g, us, ms, ns, targets, i + 1, n, v2, f1, f2);
            let w = all_search(g, targets, i + 1, n, v2, f1).1;
            assert(keeps(v, w)) by {
                assert forall|x: (Seq<char>, Seq<char>)| v.contains(x) implies #[trigger] w.contains(x) by {
                    assert(v2.contains(x));
                }
            }
        }
    }
}

/// The depth bound never cuts a search short: with any larger bound the search gives
/// the same resolution (when the bound, `(entries + 1)² + 1`, fits in a `u64`).
pub proof fn lemma_search_bound_suffices(g: Seq<ModuleView>, m: Seq<char>, n: Seq<char>, f: nat)
    requires
        (entry_count(g) + 1) * (entry_count(g) + 1) + 1 <= u64::MAX,
        f >= search_fuel(g),
    ensures
        export_search(g, m, n, Seq::empty(), f) == export_search(g, m, n, Seq::empty(), search_fuel(g)),
{
    let ms = graph_targets(g).push(m);
    let ns = graph_names(g).push(n);
    let us = pairs(ms, ns);
    lemma_graph_lens(g);
    lemma_pairs(ms, ns, m, n);
    let e = entry_count(g);
    assert(e < u64::MAX) by (nonlinear_arith)
        requires
            (e + 1) * (e + 1) + 1 <= u64::MAX,
    ;
    assert(raw_count(g) == e);
    assert(ms.len() <= e + 1 && ns.len() <= e + 1);
    assert(ms.len() * ns.len() <= (e + 1) * (e + 1)) by (nonlinear_arith)
        requires
            ms.len() <= e + 1,
            ns.len() <= e + 1,
    ;
    lemma_unvisited_bounds(us, Seq::empty(), Seq::empty());
    assert forall|t: Seq<char>| #[trigger] graph_targets(g).contains(t) implies ms.contains(t) by {
        let k = choose|k: int| 0 <= k < graph_targets(g).len() && graph_targets(g)[k] == t;
        assert(ms[k] == t);
    }
    assert forall|l: Seq<char>| #[trigger] graph_names(g).contains(l) implies ns.contains(l) by {
        let k = choose|k: int| 0 <= k < graph_names(g).len() && graph_names(g)[k] == l;
        assert(ns[k] == l);
    }
    assert(ms[ms.len() - 1] == m);
    assert(ns[ns.len() - 1] == n);
    lemma_search_fuel(g, us, ms, ns, m, n, Seq::empty(), f, search_fuel(g));
}

} // verus!
