use plec_query_core::model::{
    ComponentPropKind,
    build_semantic_graph, resolve_component, resolve_export, resolve_function, resolve_local_symbol, LocalSymbol,
    SemanticGraph, SourceSpan, SymbolKind,
};
use plec_query_core::parser::{parse, Export, ExportKind, Import, ImportSpecifier, ParsedModule};

fn s(x: &str) -> String {
    x.to_string()
}

fn local(name: &str, kind: SymbolKind, lo: u32, hi: u32) -> LocalSymbol {
    LocalSymbol { name: s(name), kind, span: SourceSpan { lo, hi } }
}

fn module(id: &str, imports: Vec<Import>, exports: Vec<Export>, locals: Vec<LocalSymbol>) -> ParsedModule {
    ParsedModule {
        id: s(id),
        source: String::new(),
        ast: parse("").unwrap(),
        items: vec![],
        imports,
        exports,
        locals,
        component_props: vec![],
    }
}

fn named_import(source: &str, imported: &str, local_name: &str) -> Import {
    Import {
        source: s(source),
        specifiers: vec![ImportSpecifier::Named { imported: s(imported), local: s(local_name) }],
        type_only: false,
    }
}

fn local_export(name: &str, exported: Option<&str>) -> Export {
    Export { kind: ExportKind::Local { local: s(name), exported: exported.map(s) } }
}

fn resolved(entries: &[(&str, &str, &str)]) -> Vec<((String, String), String)> {
    entries.iter().map(|(m, src, t)| ((s(m), s(src)), s(t))).collect()
}

fn graph(modules: Vec<ParsedModule>, r: &[(&str, &str, &str)]) -> SemanticGraph {
    build_semantic_graph(&modules, &resolved(r)).unwrap()
}

#[test]
fn named_import_resolves_to_the_exported_function() {
    let g = graph(
        vec![
            module("A.tsx", vec![named_import("./B", "Foo", "Foo")], vec![], vec![]),
            module("B.tsx", vec![], vec![local_export("Foo", None)], vec![local("Foo", SymbolKind::Function, 3, 9)]),
        ],
        &[("A.tsx", "./B", "B.tsx")],
    );
    let symbol = resolve_local_symbol(&g, "A.tsx", "Foo").unwrap();
    assert_eq!(symbol.module_id, "B.tsx");
    assert_eq!(symbol.local_name, "Foo");
    assert_eq!(symbol.exported_name, Some(s("Foo")));
    assert_eq!(symbol.kind, SymbolKind::Function);
    assert_eq!(symbol.span, SourceSpan { lo: 3, hi: 9 });
}

#[test]
fn aliased_import_and_aliased_export_resolve() {
    let g = graph(
        vec![
            module("A.tsx", vec![named_import("./B", "Bar", "Baz")], vec![], vec![]),
            module("B.tsx", vec![], vec![local_export("Foo", Some("Bar"))], vec![local("Foo", SymbolKind::Variable, 0, 1)]),
        ],
        &[("A.tsx", "./B", "B.tsx")],
    );
    let symbol = resolve_local_symbol(&g, "A.tsx", "Baz").unwrap();
    assert_eq!(symbol.local_name, "Foo");
    assert_eq!(symbol.exported_name, Some(s("Bar")));
    assert_eq!(symbol.kind, SymbolKind::Variable);
    assert!(resolve_local_symbol(&g, "A.tsx", "Bar").is_none());
}

#[test]
fn default_import_resolves_through_default_export() {
    let g = graph(
        vec![
            module(
                "A.tsx",
                vec![Import { source: s("./B"), specifiers: vec![ImportSpecifier::Default(s("Main"))], type_only: false }],
                vec![],
                vec![],
            ),
            module(
                "B.tsx",
                vec![],
                vec![Export { kind: ExportKind::Default(s("App")) }],
                vec![local("App", SymbolKind::Function, 5, 20)],
            ),
        ],
        &[("A.tsx", "./B", "B.tsx")],
    );
    let symbol = resolve_local_symbol(&g, "A.tsx", "Main").unwrap();
    assert_eq!(symbol.local_name, "App");
    assert_eq!(symbol.exported_name, Some(s("default")));
}

#[test]
fn anonymous_default_export_resolves_to_empty_variable() {
    let g = graph(vec![module("B.tsx", vec![], vec![Export { kind: ExportKind::Default(String::new()) }], vec![])], &[]);
    let symbol = resolve_export(&g, "B.tsx", "default").unwrap();
    assert_eq!(symbol.local_name, "");
    assert_eq!(symbol.kind, SymbolKind::Variable);
    assert_eq!(symbol.span, SourceSpan::empty());
}

#[test]
fn re_export_chain_and_export_all_resolve() {
    let g = graph(
        vec![
            module("A.tsx", vec![], vec![Export { kind: ExportKind::ReExport { source: s("./B"), local: s("Foo"), exported: Some(s("Renamed")) } }], vec![]),
            module("B.tsx", vec![], vec![Export { kind: ExportKind::ReExportAll { source: s("./C") } }], vec![]),
            module("C.tsx", vec![], vec![local_export("Foo", None)], vec![local("Foo", SymbolKind::Class, 1, 2)]),
        ],
        &[("A.tsx", "./B", "B.tsx"), ("B.tsx", "./C", "C.tsx")],
    );
    let symbol = resolve_export(&g, "A.tsx", "Renamed").unwrap();
    assert_eq!(symbol.module_id, "C.tsx");
    assert_eq!(symbol.local_name, "Foo");
    assert_eq!(symbol.exported_name, Some(s("Renamed")));
    assert_eq!(symbol.kind, SymbolKind::Class);
    let through_all = resolve_export(&g, "B.tsx", "Foo").unwrap();
    assert_eq!(through_all.module_id, "C.tsx");
    assert_eq!(through_all.exported_name, Some(s("Foo")));
}

#[test]
fn circular_re_exports_end_without_a_symbol() {
    let g = graph(
        vec![
            module("A.tsx", vec![], vec![Export { kind: ExportKind::ReExportAll { source: s("./B") } }], vec![]),
            module("B.tsx", vec![], vec![Export { kind: ExportKind::ReExportAll { source: s("./A") } }], vec![]),
        ],
        &[("A.tsx", "./B", "B.tsx"), ("B.tsx", "./A", "A.tsx")],
    );
    assert!(resolve_export(&g, "A.tsx", "Missing").is_none());
}

#[test]
fn missing_export_and_type_only_import_do_not_resolve() {
    let mut type_import = named_import("./B", "Foo", "Foo");
    type_import.type_only = true;
    let g = graph(
        vec![
            module("A.tsx", vec![type_import], vec![], vec![]),
            module("B.tsx", vec![], vec![local_export("Foo", None)], vec![local("Foo", SymbolKind::Function, 0, 0)]),
        ],
        &[("A.tsx", "./B", "B.tsx")],
    );
    assert!(resolve_local_symbol(&g, "A.tsx", "Foo").is_none());
    assert!(resolve_export(&g, "B.tsx", "Nope").is_none());
    assert!(resolve_export(&g, "Z.tsx", "Foo").is_none());
}

#[test]
fn namespace_and_host_imports_resolve_without_following_exports() {
    let g = graph(
        vec![module(
            "A.tsx",
            vec![
                Import { source: s("./B"), specifiers: vec![ImportSpecifier::Namespace(s("ns"))], type_only: false },
                named_import("host", "fetch", "get"),
            ],
            vec![],
            vec![],
        )],
        &[("A.tsx", "./B", "B.tsx"), ("A.tsx", "host", "host:net")],
    );
    let ns = resolve_local_symbol(&g, "A.tsx", "ns").unwrap();
    assert_eq!(ns.module_id, "B.tsx");
    assert_eq!(ns.local_name, "*");
    assert_eq!(ns.kind, SymbolKind::Namespace);
    let host = resolve_local_symbol(&g, "A.tsx", "get").unwrap();
    assert_eq!(host.module_id, "host:net");
    assert_eq!(host.local_name, "fetch");
    assert_eq!(host.kind, SymbolKind::Function);
}

#[test]
fn resolve_function_and_component_filter_by_kind() {
    let g = graph(
        vec![module(
            "A.tsx",
            vec![],
            vec![],
            vec![
                local("f", SymbolKind::Function, 0, 1),
                local("v", SymbolKind::Variable, 1, 2),
                local("C", SymbolKind::Class, 2, 3),
            ],
        )],
        &[],
    );
    assert!(resolve_function(&g, "A.tsx", "f").is_some());
    assert!(resolve_function(&g, "A.tsx", "v").is_none());
    assert!(resolve_component(&g, "A.tsx", "v").is_some());
    assert!(resolve_component(&g, "A.tsx", "C").is_none());
}

#[test]
fn later_module_with_same_id_replaces_earlier_one() {
    let g = graph(
        vec![
            module("A.tsx", vec![], vec![], vec![local("x", SymbolKind::Function, 0, 1)]),
            module("A.tsx", vec![], vec![], vec![local("y", SymbolKind::Function, 0, 1)]),
        ],
        &[],
    );
    assert!(resolve_local_symbol(&g, "A.tsx", "x").is_none());
    assert!(g.get_module("A.tsx").is_some());
    assert!(resolve_local_symbol(&g, "A.tsx", "y").is_some());
}

// The modules below hold what reading each source text yields: its imports, exports and
// top-level declarations, with import sources resolved to sibling `.tsx` files.

fn function_module(id: &str, name: &str) -> ParsedModule {
    // export function <name>() {}
    module(id, vec![], vec![local_export(name, None)], vec![local(name, SymbolKind::Function, 17, 20)])
}

fn default_const_module(id: &str, name: &str) -> ParsedModule {
    // const <name> = () => {}; export default <name>;
    module(
        id,
        vec![],
        vec![Export { kind: ExportKind::Default(s(name)) }],
        vec![local(name, SymbolKind::Function, 7, 24)],
    )
}

fn re_export(source: &str, name: &str, exported: Option<&str>) -> Export {
    Export { kind: ExportKind::ReExport { source: s(source), local: s(name), exported: exported.map(s) } }
}

fn re_export_all(source: &str) -> Export {
    Export { kind: ExportKind::ReExportAll { source: s(source) } }
}

#[test]
fn resolves_named_import() {
    // foo.tsx: export function Foo() {}   bar.tsx: import { Foo } from "./foo";
    let g = graph(
        vec![function_module("foo.tsx", "Foo"), module("bar.tsx", vec![named_import("./foo", "Foo", "Foo")], vec![], vec![])],
        &[("bar.tsx", "./foo", "foo.tsx")],
    );
    let symbol = resolve_local_symbol(&g, "bar.tsx", "Foo");
    assert!(symbol.is_some());
    let symbol = symbol.unwrap();
    assert_eq!(symbol.module_id, "foo.tsx");
    assert_eq!(symbol.local_name, "Foo");
    assert_eq!(symbol.kind, SymbolKind::Function);
}

#[test]
fn resolves_aliased_import() {
    // bar.tsx: import { Foo as Bar } from "./foo";
    let g = graph(
        vec![function_module("foo.tsx", "Foo"), module("bar.tsx", vec![named_import("./foo", "Foo", "Bar")], vec![], vec![])],
        &[("bar.tsx", "./foo", "foo.tsx")],
    );
    let symbol = resolve_local_symbol(&g, "bar.tsx", "Bar");
    assert!(symbol.is_some());
    let symbol = symbol.unwrap();
    assert_eq!(symbol.module_id, "foo.tsx");
    assert_eq!(symbol.local_name, "Foo");
}

#[test]
fn resolves_default_import() {
    // bar.tsx: import Foo from "./foo";
    let default_import = Import { source: s("./foo"), specifiers: vec![ImportSpecifier::Default(s("Foo"))], type_only: false };
    let g = graph(
        vec![default_const_module("foo.tsx", "Foo"), module("bar.tsx", vec![default_import], vec![], vec![])],
        &[("bar.tsx", "./foo", "foo.tsx")],
    );
    let symbol = resolve_local_symbol(&g, "bar.tsx", "Foo");
    assert!(symbol.is_some());
    let symbol = symbol.unwrap();
    assert_eq!(symbol.module_id, "foo.tsx");
    assert_eq!(symbol.local_name, "Foo");
    assert_eq!(symbol.exported_name, Some("default".to_string()));
}

#[test]
fn resolves_local_named_export() {
    // const Foo = () => {}; export { Foo };
    let g = graph(
        vec![module("test.tsx", vec![], vec![local_export("Foo", None)], vec![local("Foo", SymbolKind::Function, 7, 21)])],
        &[],
    );
    let symbol = resolve_export(&g, "test.tsx", "Foo");
    assert!(symbol.is_some());
    let symbol = symbol.unwrap();
    assert_eq!(symbol.module_id, "test.tsx");
    assert_eq!(symbol.local_name, "Foo");
    assert_eq!(symbol.exported_name, Some("Foo".to_string()));
}

#[test]
fn resolves_aliased_local_export() {
    // const Foo = () => {}; export { Foo as Bar };
    let g = graph(
        vec![module("test.tsx", vec![], vec![local_export("Foo", Some("Bar"))], vec![local("Foo", SymbolKind::Function, 7, 21)])],
        &[],
    );
    let symbol = resolve_export(&g, "test.tsx", "Bar");
    assert!(symbol.is_some());
    let symbol = symbol.unwrap();
    assert_eq!(symbol.local_name, "Foo");
    assert_eq!(symbol.exported_name, Some("Bar".to_string()));
}

#[test]
fn resolves_re_export() {
    // B.tsx: export function Foo() {}   A.tsx: export { Foo } from "./B";
    let g = graph(
        vec![function_module("B.tsx", "Foo"), module("A.tsx", vec![], vec![re_export("./B", "Foo", None)], vec![])],
        &[("A.tsx", "./B", "B.tsx")],
    );
    let symbol = resolve_export(&g, "A.tsx", "Foo");
    assert!(symbol.is_some());
    let symbol = symbol.unwrap();
    assert_eq!(symbol.module_id, "B.tsx");
    assert_eq!(symbol.local_name, "Foo");
}

#[test]
fn resolves_aliased_re_export() {
    // A.tsx: export { Foo as Bar } from "./B";
    let g = graph(
        vec![function_module("B.tsx", "Foo"), module("A.tsx", vec![], vec![re_export("./B", "Foo", Some("Bar"))], vec![])],
        &[("A.tsx", "./B", "B.tsx")],
    );
    let symbol = resolve_export(&g, "A.tsx", "Bar");
    assert!(symbol.is_some());
    let symbol = symbol.unwrap();
    assert_eq!(symbol.module_id, "B.tsx");
    assert_eq!(symbol.local_name, "Foo");
    assert_eq!(symbol.exported_name, Some("Bar".to_string()));
}

#[test]
fn resolves_re_export_chain() {
    // C.tsx: export function Foo() {}   B.tsx: export { Foo } from "./C";   A.tsx: export { Foo } from "./B";
    let g = graph(
        vec![
            function_module("C.tsx", "Foo"),
            module("B.tsx", vec![], vec![re_export("./C", "Foo", None)], vec![]),
            module("A.tsx", vec![], vec![re_export("./B", "Foo", None)], vec![]),
        ],
        &[("B.tsx", "./C", "C.tsx"), ("A.tsx", "./B", "B.tsx")],
    );
    let symbol = resolve_export(&g, "A.tsx", "Foo");
    assert!(symbol.is_some());
    let symbol = symbol.unwrap();
    assert_eq!(symbol.module_id, "C.tsx");
    assert_eq!(symbol.local_name, "Foo");
}

#[test]
fn resolves_export_all() {
    // A.tsx: export * from "./B";
    let g = graph(
        vec![function_module("B.tsx", "Foo"), module("A.tsx", vec![], vec![re_export_all("./B")], vec![])],
        &[("A.tsx", "./B", "B.tsx")],
    );
    let symbol = resolve_export(&g, "A.tsx", "Foo");
    assert!(symbol.is_some());
    let symbol = symbol.unwrap();
    assert_eq!(symbol.module_id, "B.tsx");
    assert_eq!(symbol.local_name, "Foo");
}

#[test]
fn handles_circular_re_export() {
    // A.tsx: export * from "./B";   B.tsx: export * from "./A";
    let g = graph(
        vec![
            module("A.tsx", vec![], vec![re_export_all("./B")], vec![]),
            module("B.tsx", vec![], vec![re_export_all("./A")], vec![]),
        ],
        &[("A.tsx", "./B", "B.tsx"), ("B.tsx", "./A", "A.tsx")],
    );
    let symbol = resolve_export(&g, "A.tsx", "Foo");
    assert!(symbol.is_none());
}

#[test]
fn returns_none_for_missing_export() {
    // const Foo = () => {};
    let g = graph(vec![module("test.tsx", vec![], vec![], vec![local("Foo", SymbolKind::Function, 7, 21)])], &[]);
    let symbol = resolve_export(&g, "test.tsx", "Bar");
    assert!(symbol.is_none());
}

#[test]
fn type_only_import_does_not_resolve() {
    // bar.tsx: import type { Foo } from "./foo";
    let mut type_import = named_import("./foo", "Foo", "Foo");
    type_import.type_only = true;
    let g = graph(
        vec![function_module("foo.tsx", "Foo"), module("bar.tsx", vec![type_import], vec![], vec![])],
        &[("bar.tsx", "./foo", "foo.tsx")],
    );
    let symbol = resolve_local_symbol(&g, "bar.tsx", "Foo");
    assert!(symbol.is_none());
}

#[test]
fn same_symbol_name_in_different_modules() {
    // A.tsx: export function Foo() { return "A"; }   B.tsx: export function Foo() { return "B"; }
    let g = graph(vec![function_module("A.tsx", "Foo"), function_module("B.tsx", "Foo")], &[]);
    let a_symbol = resolve_export(&g, "A.tsx", "Foo");
    let b_symbol = resolve_export(&g, "B.tsx", "Foo");
    assert!(a_symbol.is_some());
    assert!(b_symbol.is_some());
    assert_eq!(a_symbol.unwrap().module_id, "A.tsx");
    assert_eq!(b_symbol.unwrap().module_id, "B.tsx");
}

#[test]
fn resolve_function_finds_only_functions() {
    // function Foo() {}  const Bar = 1;
    let g = graph(
        vec![module(
            "test.tsx",
            vec![],
            vec![],
            vec![local("Foo", SymbolKind::Function, 26, 29), local("Bar", SymbolKind::Variable, 56, 63)],
        )],
        &[],
    );
    assert!(resolve_function(&g, "test.tsx", "Foo").is_some());
    assert!(resolve_function(&g, "test.tsx", "Bar").is_none());
}

#[test]
fn resolve_component_finds_functions() {
    // function Foo() {}
    let g = graph(vec![module("test.tsx", vec![], vec![], vec![local("Foo", SymbolKind::Function, 10, 13)])], &[]);
    assert!(resolve_component(&g, "test.tsx", "Foo").is_some());
}

#[test]
fn multiple_export_all_resolves_from_both_sources() {
    // A.tsx: export * from "./B"; export * from "./C";
    let g = graph(
        vec![
            function_module("B.tsx", "Foo"),
            function_module("C.tsx", "Bar"),
            module("A.tsx", vec![], vec![re_export_all("./B"), re_export_all("./C")], vec![]),
        ],
        &[("A.tsx", "./B", "B.tsx"), ("A.tsx", "./C", "C.tsx")],
    );
    let foo = resolve_export(&g, "A.tsx", "Foo");
    let bar = resolve_export(&g, "A.tsx", "Bar");
    assert!(foo.is_some());
    assert_eq!(foo.unwrap().module_id, "B.tsx");
    assert!(bar.is_some());
    assert_eq!(bar.unwrap().module_id, "C.tsx");
}

#[test]
fn class_declaration_has_correct_kind() {
    // class MyClass {}
    let g = graph(vec![module("test.tsx", vec![], vec![], vec![local("MyClass", SymbolKind::Class, 7, 14)])], &[]);
    let symbol = resolve_local_symbol(&g, "test.tsx", "MyClass");
    assert!(symbol.is_some());
    assert_eq!(symbol.unwrap().kind, SymbolKind::Class);
}

#[test]
fn anonymous_default_function_resolves_with_empty_local_name() {
    // export default function() {}
    let g = graph(vec![module("test.tsx", vec![], vec![Export { kind: ExportKind::Default(String::new()) }], vec![])], &[]);
    let symbol = resolve_export(&g, "test.tsx", "default");
    assert!(symbol.is_some());
    let symbol = symbol.unwrap();
    assert_eq!(symbol.local_name, "");
}

#[test]
fn named_default_function_resolves_with_name() {
    // export default function Foo() {}
    let g = graph(
        vec![module(
            "test.tsx",
            vec![],
            vec![Export { kind: ExportKind::Default(s("Foo")) }],
            vec![local("Foo", SymbolKind::Function, 1, 33)],
        )],
        &[],
    );
    let symbol = resolve_export(&g, "test.tsx", "default");
    assert!(symbol.is_some());
    let symbol = symbol.unwrap();
    assert_eq!(symbol.local_name, "Foo");
    assert_eq!(symbol.kind, SymbolKind::Function);
}

#[test]
fn anonymous_default_class_resolves_with_empty_local_name() {
    // export default class {}
    let g = graph(vec![module("test.tsx", vec![], vec![Export { kind: ExportKind::Default(String::new()) }], vec![])], &[]);
    let symbol = resolve_export(&g, "test.tsx", "default");
    assert!(symbol.is_some());
    let symbol = symbol.unwrap();
    assert_eq!(symbol.local_name, "");
}

#[test]
fn named_default_class_resolves_with_name() {
    // export default class Foo {}
    let g = graph(
        vec![module(
            "test.tsx",
            vec![],
            vec![Export { kind: ExportKind::Default(s("Foo")) }],
            vec![local("Foo", SymbolKind::Class, 1, 28)],
        )],
        &[],
    );
    let symbol = resolve_export(&g, "test.tsx", "default");
    assert!(symbol.is_some());
    let symbol = symbol.unwrap();
    assert_eq!(symbol.local_name, "Foo");
    assert_eq!(symbol.kind, SymbolKind::Class);
}

#[test]
fn namespace_import_resolves_to_namespace_kind() {
    // bar.tsx: import * as Foo from "./foo";
    let namespace_import = Import { source: s("./foo"), specifiers: vec![ImportSpecifier::Namespace(s("Foo"))], type_only: false };
    let g = graph(
        vec![function_module("foo.tsx", "Foo"), module("bar.tsx", vec![namespace_import], vec![], vec![])],
        &[("bar.tsx", "./foo", "foo.tsx")],
    );
    let symbol = resolve_local_symbol(&g, "bar.tsx", "Foo");
    assert!(symbol.is_some());
    assert_eq!(symbol.unwrap().kind, SymbolKind::Namespace);
}

#[test]
fn default_export_from_variable() {
    // const Foo = () => {}; export default Foo;
    let g = graph(vec![default_const_module("test.tsx", "Foo")], &[]);
    let symbol = resolve_export(&g, "test.tsx", "default");
    assert!(symbol.is_some());
    let symbol = symbol.unwrap();
    assert_eq!(symbol.local_name, "Foo");
    assert_eq!(symbol.kind, SymbolKind::Function);
}

#[test]
fn local_function_resolution_still_works() {
    // function Foo() {}
    let g = graph(vec![module("test.tsx", vec![], vec![], vec![local("Foo", SymbolKind::Function, 10, 13)])], &[]);
    let symbol = resolve_local_symbol(&g, "test.tsx", "Foo");
    assert!(symbol.is_some());
    let symbol = symbol.unwrap();
    assert_eq!(symbol.module_id, "test.tsx");
    assert_eq!(symbol.local_name, "Foo");
    assert_eq!(symbol.kind, SymbolKind::Function);
}

#[test]
fn aliased_re_export_still_resolves() {
    // A.tsx: export { Foo as Bar } from "./B";
    let g = graph(
        vec![function_module("B.tsx", "Foo"), module("A.tsx", vec![], vec![re_export("./B", "Foo", Some("Bar"))], vec![])],
        &[("A.tsx", "./B", "B.tsx")],
    );
    let symbol = resolve_export(&g, "A.tsx", "Bar");
    assert!(symbol.is_some());
    assert_eq!(symbol.unwrap().module_id, "B.tsx");
}

#[test]
fn default_import_still_resolves() {
    // bar.tsx: import Foo from "./foo";
    let default_import = Import { source: s("./foo"), specifiers: vec![ImportSpecifier::Default(s("Foo"))], type_only: false };
    let g = graph(
        vec![default_const_module("foo.tsx", "Foo"), module("bar.tsx", vec![default_import], vec![], vec![])],
        &[("bar.tsx", "./foo", "foo.tsx")],
    );
    let symbol = resolve_local_symbol(&g, "bar.tsx", "Foo");
    assert!(symbol.is_some());
    assert_eq!(symbol.unwrap().module_id, "foo.tsx");
}

#[test]
fn cycle_detection_uses_hashset() {
    // A.tsx: export { Foo } from "./B";   B.tsx: export { Foo } from "./A";
    let g = graph(
        vec![
            module("A.tsx", vec![], vec![re_export("./B", "Foo", None)], vec![]),
            module("B.tsx", vec![], vec![re_export("./A", "Foo", None)], vec![]),
        ],
        &[("A.tsx", "./B", "B.tsx"), ("B.tsx", "./A", "A.tsx")],
    );
    let symbol = resolve_export(&g, "A.tsx", "Foo");
    assert!(symbol.is_none());
}

// Declarations and properties read from source text.

fn locals_of(source: &str) -> Vec<LocalSymbol> {
    let module = plec_query_core::parser::parse_module("test.tsx", source).expect("parse should succeed");
    plec_query_core::syntax::collect_local_declarations(&module.items)
}

fn local_named<'a>(locals: &'a [LocalSymbol], name: &str) -> Option<&'a LocalSymbol> {
    locals.iter().rev().find(|l| l.name == name)
}

#[test]
fn collects_function_declaration() {
    let source = r#"
            function Foo() {}
        "#;
    let locals = locals_of(source);

    assert_eq!(locals.len(), 1);
    let foo = local_named(&locals, "Foo").unwrap();
    assert_eq!(foo.name, "Foo");
    assert_eq!(foo.kind, SymbolKind::Function);
}

#[test]
fn collects_arrow_function() {
    let source = r#"
            const Bar = () => {};
        "#;
    let locals = locals_of(source);

    assert_eq!(locals.len(), 1);
    let bar = local_named(&locals, "Bar").unwrap();
    assert_eq!(bar.name, "Bar");
    assert_eq!(bar.kind, SymbolKind::Function);
}

#[test]
fn distinguishes_function_from_variable() {
    let source = r#"
            const Foo = () => {};
            const Bar = 1;
        "#;
    let locals = locals_of(source);

    assert_eq!(local_named(&locals, "Foo").unwrap().kind, SymbolKind::Function);
    assert_eq!(local_named(&locals, "Bar").unwrap().kind, SymbolKind::Variable);
}

#[test]
fn collects_class_declaration() {
    let source = r#"
            class Foo {}
        "#;
    let locals = locals_of(source);

    assert_eq!(locals.len(), 1);
    let foo = local_named(&locals, "Foo").unwrap();
    assert_eq!(foo.kind, SymbolKind::Class);
}

#[test]
fn collects_inline_component_callable_props() {
    let module = plec_query_core::parser::parse_module(
        "test.tsx",
        r#"
                function Child({ value, onSave, onChange }: {
                    value: string;
                    onSave(): void;
                    onChange: (next: string) => void;
                }) {}
            "#,
    )
    .expect("module should parse");
    let g = build_semantic_graph(&vec![module], &vec![]).expect("graph should build");

    let props = &g
        .get_module("test.tsx")
        .unwrap()
        .component_props
        .iter()
        .rev()
        .find(|(name, _)| name == "Child")
        .unwrap()
        .1;
    let kind_of = |n: &str| props.iter().rev().find(|(p, _)| p == n).map(|(_, k)| *k);
    assert_eq!(kind_of("value"), Some(ComponentPropKind::Value));
    assert_eq!(kind_of("onSave"), Some(ComponentPropKind::Callable));
    assert_eq!(kind_of("onChange"), Some(ComponentPropKind::Callable));
}

#[test]
fn resolved_symbol_preserves_span_for_function() {
    let locals = locals_of(r#"function Foo() {}"#);
    let foo = local_named(&locals, "Foo").unwrap();
    assert!(foo.span.lo > 0);
}

#[test]
fn resolved_symbol_preserves_span_for_class() {
    let locals = locals_of(r#"class Foo {}"#);
    let foo = local_named(&locals, "Foo").unwrap();
    assert!(foo.span.lo > 0);
}

#[test]
fn resolved_symbol_preserves_span_for_variable() {
    let locals = locals_of(r#"const Foo = 1;"#);
    let foo = local_named(&locals, "Foo").unwrap();
    assert!(foo.span.lo > 0);
}

#[test]
fn a_component_wrapped_in_forward_ref_is_a_function() {
    let locals = locals_of(r#"const Input = React.forwardRef((props, ref) => null); const Other = wrap(() => null);"#);
    assert_eq!(local_named(&locals, "Input").unwrap().kind, SymbolKind::Function);
    assert_eq!(local_named(&locals, "Other").unwrap().kind, SymbolKind::Variable);
}
