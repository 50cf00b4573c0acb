use plec_query_core::parser::{parse_module, ExportKind, ImportSpecifier};
use plec_query_core::syntax::{collect_exports, collect_imports, module_dependencies, SyntaxItem};

fn items_of(source: &str) -> Vec<SyntaxItem> {
    parse_module("<entry>", source).expect("source should parse").items
}

#[test]
fn collects_named_import() {
    let source = r#"
        import { Foo } from "./foo";
    "#;
    let module = items_of(source);
    let imports = collect_imports(&module);

    assert_eq!(imports.len(), 1);
    assert_eq!(imports[0].source, "./foo");
    assert!(!imports[0].type_only);
    assert_eq!(imports[0].specifiers.len(), 1);
    match &imports[0].specifiers[0] {
        ImportSpecifier::Named { imported, local } => {
            assert_eq!(imported, "Foo");
            assert_eq!(local, "Foo");
        }
        _ => panic!("expected Named specifier"),
    }
}

#[test]
fn collects_aliased_named_import() {
    let source = r#"
        import { Foo as Bar } from "./foo";
    "#;
    let module = items_of(source);
    let imports = collect_imports(&module);

    assert_eq!(imports.len(), 1);
    match &imports[0].specifiers[0] {
        ImportSpecifier::Named { imported, local } => {
            assert_eq!(imported, "Foo");
            assert_eq!(local, "Bar");
        }
        _ => panic!("expected Named specifier"),
    }
}

#[test]
fn collects_default_import() {
    let source = r#"
        import Foo from "./foo";
    "#;
    let module = items_of(source);
    let imports = collect_imports(&module);

    assert_eq!(imports.len(), 1);
    match &imports[0].specifiers[0] {
        ImportSpecifier::Default(local) => {
            assert_eq!(local, "Foo");
        }
        _ => panic!("expected Default specifier"),
    }
}

#[test]
fn collects_namespace_import() {
    let source = r#"
        import * as Foo from "./foo";
    "#;
    let module = items_of(source);
    let imports = collect_imports(&module);

    assert_eq!(imports.len(), 1);
    match &imports[0].specifiers[0] {
        ImportSpecifier::Namespace(local) => {
            assert_eq!(local, "Foo");
        }
        _ => panic!("expected Namespace specifier"),
    }
}

#[test]
fn collects_side_effect_import() {
    let source = r#"
        import "./setup";
    "#;
    let module = items_of(source);
    let imports = collect_imports(&module);

    assert_eq!(imports.len(), 1);
    assert_eq!(imports[0].source, "./setup");
    assert!(imports[0].specifiers.is_empty());
}

#[test]
fn collects_type_only_import() {
    let source = r#"
        import type { Foo } from "./foo";
    "#;
    let module = items_of(source);
    let imports = collect_imports(&module);

    assert_eq!(imports.len(), 1);
    assert!(imports[0].type_only);
}

#[test]
fn collects_multiple_imports_from_same_module() {
    let source = r#"
        import { Foo, Bar } from "./foo";
    "#;
    let module = items_of(source);
    let imports = collect_imports(&module);

    assert_eq!(imports.len(), 1);
    assert_eq!(imports[0].specifiers.len(), 2);
}

#[test]
fn collects_mixed_imports_from_same_module() {
    let source = r#"
        import Foo, { Bar, Baz as Qux } from "./foo";
    "#;
    let module = items_of(source);
    let imports = collect_imports(&module);

    assert_eq!(imports.len(), 1);
    assert_eq!(imports[0].specifiers.len(), 3);
}

#[test]
fn collects_local_named_export() {
    let source = r#"
        export { Foo };
    "#;
    let module = items_of(source);
    let exports = collect_exports(&module);

    assert_eq!(exports.len(), 1);
    match &exports[0].kind {
        ExportKind::Local { local, exported } => {
            assert_eq!(local, "Foo");
            assert!(exported.is_none());
        }
        _ => panic!("expected Local export"),
    }
}

#[test]
fn collects_aliased_local_export() {
    let source = r#"
        export { Foo as Bar };
    "#;
    let module = items_of(source);
    let exports = collect_exports(&module);

    assert_eq!(exports.len(), 1);
    match &exports[0].kind {
        ExportKind::Local { local, exported } => {
            assert_eq!(local, "Foo");
            assert_eq!(exported.as_ref().unwrap(), "Bar");
        }
        _ => panic!("expected Local export"),
    }
}

#[test]
fn collects_re_export() {
    let source = r#"
        export { Foo } from "./foo";
    "#;
    let module = items_of(source);
    let exports = collect_exports(&module);

    assert_eq!(exports.len(), 1);
    match &exports[0].kind {
        ExportKind::ReExport {
            source,
            local,
            exported,
        } => {
            assert_eq!(source, "./foo");
            assert_eq!(local, "Foo");
            assert!(exported.is_none());
        }
        _ => panic!("expected ReExport"),
    }
}

#[test]
fn collects_aliased_re_export() {
    let source = r#"
        export { Foo as Bar } from "./foo";
    "#;
    let module = items_of(source);
    let exports = collect_exports(&module);

    assert_eq!(exports.len(), 1);
    match &exports[0].kind {
        ExportKind::ReExport {
            source,
            local,
            exported,
        } => {
            assert_eq!(source, "./foo");
            assert_eq!(local, "Foo");
            assert_eq!(exported.as_ref().unwrap(), "Bar");
        }
        _ => panic!("expected ReExport"),
    }
}

#[test]
fn collects_export_all() {
    let source = r#"
        export * from "./foo";
    "#;
    let module = items_of(source);
    let exports = collect_exports(&module);

    assert_eq!(exports.len(), 1);
    match &exports[0].kind {
        ExportKind::ReExportAll { source } => {
            assert_eq!(source, "./foo");
        }
        _ => panic!("expected ReExportAll"),
    }
}

#[test]
fn collects_default_export() {
    let source = r#"
        export default Foo;
    "#;
    let module = items_of(source);
    let exports = collect_exports(&module);

    assert_eq!(exports.len(), 1);
    match &exports[0].kind {
        ExportKind::Default(name) => {
            assert_eq!(name, "Foo");
        }
        _ => panic!("expected Default export"),
    }
}

#[test]
fn collects_default_function_export() {
    let source = r#"
        export default function Foo() {}
    "#;
    let module = items_of(source);
    let exports = collect_exports(&module);

    assert_eq!(exports.len(), 1);
    match &exports[0].kind {
        ExportKind::Default(name) => {
            assert_eq!(name, "Foo");
        }
        _ => panic!("expected Default export"),
    }
}

#[test]
fn collects_default_class_export() {
    let source = r#"
        export default class Foo {}
    "#;
    let module = items_of(source);
    let exports = collect_exports(&module);

    assert_eq!(exports.len(), 1);
    match &exports[0].kind {
        ExportKind::Default(name) => {
            assert_eq!(name, "Foo");
        }
        _ => panic!("expected Default export"),
    }
}

#[test]
fn collects_anonymous_default_function_export() {
    let source = r#"
        export default function() {}
    "#;
    let module = items_of(source);
    let exports = collect_exports(&module);

    assert_eq!(exports.len(), 1);
    match &exports[0].kind {
        ExportKind::Default(name) => {
            assert!(name.is_empty());
        }
        _ => panic!("expected Default export"),
    }
}

#[test]
fn collects_function_declaration_export() {
    let source = r#"
        export function Foo() {}
    "#;
    let module = items_of(source);
    let exports = collect_exports(&module);

    assert_eq!(exports.len(), 1);
    match &exports[0].kind {
        ExportKind::Local { local, exported } => {
            assert_eq!(local, "Foo");
            assert!(exported.is_none());
        }
        _ => panic!("expected Local export"),
    }
}

#[test]
fn collects_class_declaration_export() {
    let source = r#"
        export class Foo {}
    "#;
    let module = items_of(source);
    let exports = collect_exports(&module);

    assert_eq!(exports.len(), 1);
    match &exports[0].kind {
        ExportKind::Local { local, exported } => {
            assert_eq!(local, "Foo");
            assert!(exported.is_none());
        }
        _ => panic!("expected Local export"),
    }
}

#[test]
fn collects_const_declaration_export() {
    let source = r#"
        export const Foo = 1;
    "#;
    let module = items_of(source);
    let exports = collect_exports(&module);

    assert_eq!(exports.len(), 1);
    match &exports[0].kind {
        ExportKind::Local { local, exported } => {
            assert_eq!(local, "Foo");
            assert!(exported.is_none());
        }
        _ => panic!("expected Local export"),
    }
}

#[test]
fn collects_multiple_exports() {
    let source = r#"
        export { Foo, Bar };
    "#;
    let module = items_of(source);
    let exports = collect_exports(&module);

    assert_eq!(exports.len(), 2);
}

#[test]
fn collects_imports_and_exports_together() {
    let source = r#"
        import { Foo } from "./foo";
        export { Bar };
    "#;
    let module = items_of(source);

    assert_eq!(collect_imports(&module).len(), 1);
    assert_eq!(collect_exports(&module).len(), 1);
}

#[test]
fn handles_empty_module() {
    let source = "";
    let module = items_of(source);

    assert!(collect_imports(&module).is_empty());
    assert!(collect_exports(&module).is_empty());
}

#[test]
fn extracts_module_dependencies_from_imports() {
    let source = r#"
        import { Foo } from "./foo";
    "#;
    let module = items_of(source);
    let deps = module_dependencies(&module);

    assert_eq!(deps, vec!["./foo"]);
}

#[test]
fn extracts_module_dependencies_from_re_exports() {
    let source = r#"
        export { Foo } from "./foo";
    "#;
    let module = items_of(source);
    let deps = module_dependencies(&module);

    assert_eq!(deps, vec!["./foo"]);
}

#[test]
fn extracts_module_dependencies_from_export_all() {
    let source = r#"
        export * from "./foo";
    "#;
    let module = items_of(source);
    let deps = module_dependencies(&module);

    assert_eq!(deps, vec!["./foo"]);
}

#[test]
fn extracts_multiple_unique_dependencies() {
    let source = r#"
        import { Foo } from "./foo";
        import { Bar } from "./bar";
        export * from "./baz";
    "#;
    let module = items_of(source);
    let deps = module_dependencies(&module);

    assert_eq!(deps.len(), 3);
    assert!(deps.contains(&"./foo".to_string()));
    assert!(deps.contains(&"./bar".to_string()));
    assert!(deps.contains(&"./baz".to_string()));
}

#[test]
fn deduplicates_same_module_referenced_multiple_times() {
    let source = r#"
        import { Foo } from "./foo";
        import { Bar } from "./foo";
    "#;
    let module = items_of(source);
    let deps = module_dependencies(&module);

    assert_eq!(deps, vec!["./foo"]);
}

#[test]
fn local_exports_not_dependencies() {
    let source = r#"
        export { Foo };
    "#;
    let module = items_of(source);
    let deps = module_dependencies(&module);

    assert!(deps.is_empty());
}

#[test]
fn collects_namespace_re_export() {
    let source = r#"
        export * as Foo from "./foo";
    "#;
    let module = items_of(source);
    let exports = collect_exports(&module);

    assert_eq!(exports.len(), 1);
    match &exports[0].kind {
        ExportKind::ReExport {
            source,
            local,
            exported,
        } => {
            assert_eq!(source, "./foo");
            assert_eq!(local, "*");
            assert_eq!(exported.as_ref().unwrap(), "Foo");
        }
        _ => panic!("expected ReExport"),
    }
}

#[test]
fn namespace_re_export_is_dependency() {
    let source = r#"
        export * as Foo from "./foo";
    "#;
    let module = items_of(source);
    let deps = module_dependencies(&module);

    assert_eq!(deps, vec!["./foo"]);
}
