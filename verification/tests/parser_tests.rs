use kona::parser::{extract_imports_internal, has_jsx_internal, has_top_level_await_internal,
    is_typescript_source, parse_internal};

#[test]
fn test_static_import() {
    let source = r#"import React from 'react';"#;
    let imports = extract_imports_internal(source.as_bytes());
    assert_eq!(imports.len(), 1);
    assert_eq!(imports[0].source.as_slice(), b"react");
    assert!(!imports[0].is_dynamic);
}

#[test]
fn test_named_import() {
    let source = r#"import { useState, useEffect } from 'react';"#;
    let imports = extract_imports_internal(source.as_bytes());
    assert_eq!(imports.len(), 1);
    assert_eq!(imports[0].source.as_slice(), b"react");
}

#[test]
fn test_dynamic_import() {
    let source = r#"const mod = import('./module');"#;
    let imports = extract_imports_internal(source.as_bytes());
    assert_eq!(imports.len(), 1);
    assert_eq!(imports[0].source.as_slice(), b"./module");
    assert!(imports[0].is_dynamic);
}

#[test]
fn test_type_import() {
    let source = r#"import type { Props } from './types';"#;
    let imports = extract_imports_internal(source.as_bytes());
    assert_eq!(imports.len(), 1);
    assert!(imports[0].is_type_only);
}

#[test]
fn test_require() {
    let source = r#"const fs = require('fs');"#;
    let imports = extract_imports_internal(source.as_bytes());
    assert_eq!(imports.len(), 1);
    assert_eq!(imports[0].source.as_slice(), b"fs");
}

#[test]
fn test_export_from() {
    let source = r#"export { foo } from './foo';"#;
    let imports = extract_imports_internal(source.as_bytes());
    assert_eq!(imports.len(), 1);
    assert_eq!(imports[0].source.as_slice(), b"./foo");
}

#[test]
fn test_has_jsx() {
    assert!(has_jsx_internal(b"<div>hello</div>"));
    assert!(has_jsx_internal(b"<Component />"));
    assert!(has_jsx_internal(b"<>fragment</>"));
    assert!(!has_jsx_internal(b"a < b && c > d"));
}

#[test]
fn test_top_level_await() {
    assert!(has_top_level_await_internal(b"const x = await fetch()"));
    assert!(!has_top_level_await_internal(b"async function f() { await x }"));
}

#[test]
fn test_multiple_imports() {
    let source = r#"
            import React from 'react';
            import { useState } from 'react';
            import './styles.css';
            const lazy = import('./lazy');
            export { foo } from './foo';
        "#;
    let imports = extract_imports_internal(source.as_bytes());
    assert_eq!(imports.len(), 5);
}

#[test]
fn test_import_order_matches_source_order() {
    let source = "import React from 'react';\nimport { useState } from 'react';\nimport './styles.css';\nconst lazy = import('./lazy');\nexport { foo } from './foo';";
    let imports = extract_imports_internal(source.as_bytes());
    assert_eq!(imports.len(), 5);
    assert_eq!(imports[0].source.as_slice(), b"react");
    assert_eq!(imports[1].source.as_slice(), b"react");
    assert_eq!(imports[2].source.as_slice(), b"./styles.css");
    assert_eq!(imports[3].source.as_slice(), b"./lazy");
    assert_eq!(imports[4].source.as_slice(), b"./foo");
    assert!(imports[3].is_dynamic);
    assert!(!imports[0].is_dynamic);
    assert!(!imports[4].is_dynamic);
    for w in imports.windows(2) {
        assert!(w[0].start <= w[1].start);
    }
}

#[test]
fn test_import_spans_lie_inside_input() {
    let source = "import a from 'b'; const lazy = import('./lazy');";
    let imports = extract_imports_internal(source.as_bytes());
    assert_eq!(imports.len(), 2);
    for rec in &imports {
        assert!(rec.start <= rec.end);
        assert!(rec.end <= source.len());
        assert!(source.as_bytes()[rec.start..].starts_with(b"import"));
    }
}

#[test]
fn test_side_effect_import() {
    let imports = extract_imports_internal(b"import './styles.css';");
    assert_eq!(imports.len(), 1);
    assert_eq!(imports[0].source.as_slice(), b"./styles.css");
    assert!(!imports[0].is_dynamic);
    assert!(!imports[0].is_type_only);
}

#[test]
fn test_export_without_source_yields_no_record() {
    assert_eq!(extract_imports_internal(b"export default foo;").len(), 0);
    assert_eq!(extract_imports_internal(b"export const x = 1;").len(), 0);
}

#[test]
fn test_type_import_without_from_is_dropped() {
    assert_eq!(extract_imports_internal(b"import type { X };").len(), 0);
}

#[test]
fn test_require_needs_paren_and_string() {
    assert_eq!(extract_imports_internal(b"const r = require(someVar);").len(), 0);
    assert_eq!(extract_imports_internal(b"const r = require 'x';").len(), 0);
}

#[test]
fn test_keyword_needs_word_boundary() {
    assert_eq!(extract_imports_internal(b"const importer = 1;").len(), 0);
    assert!(!has_top_level_await_internal(b"const awaited = 1;"));
}

#[test]
fn test_import_inside_string_or_comment_is_ignored() {
    assert_eq!(extract_imports_internal(b"const s = \"import x from 'y';\";").len(), 0);
    assert_eq!(extract_imports_internal(b"// import x from 'y';\n").len(), 0);
    assert_eq!(extract_imports_internal(b"/* import x from 'y'; */").len(), 0);
}

#[test]
fn test_jsx_detection_skips_strings_and_comments() {
    assert!(!has_jsx_internal(b"const s = '<div>';"));
    assert!(!has_jsx_internal(b"// <div>\n1"));
    assert!(!has_jsx_internal(b"/* <div> */ 1"));
    assert!(has_jsx_internal(b"const s = 'x'; const e = <div>hi</div>;"));
}

#[test]
fn test_await_in_braces_is_not_top_level() {
    assert!(!has_top_level_await_internal(b"{ await x }"));
    assert!(has_top_level_await_internal(b"f(await x)"));
    assert!(!has_top_level_await_internal(b"const s = 'await x';"));
}

#[test]
fn test_parse_internal_reports_all_metadata() {
    let source = "import React from 'react';\nconst x: number = 1;\nconst e = <div>hi</div>;\nconst y = await f();";
    let r = parse_internal(source.as_bytes());
    assert_eq!(r.imports.len(), 1);
    assert!(r.has_jsx);
    assert!(r.has_top_level_await);
    assert!(r.is_typescript);
    assert_eq!(r.parse_time_us, 0);
}

#[test]
fn test_is_typescript_heuristic() {
    assert!(is_typescript_source(b"const x: number = 1;"));
    assert!(is_typescript_source(b"interface Props {}"));
    assert!(is_typescript_source(b"type X = number;"));
    assert!(is_typescript_source(b"function id<T>(x) { return x; }"));
    assert!(!is_typescript_source(b"const x = 1;"));
}

#[test]
fn test_empty_input() {
    assert_eq!(extract_imports_internal(b"").len(), 0);
    assert!(!has_jsx_internal(b""));
    assert!(!has_top_level_await_internal(b""));
}

#[test]
fn test_unterminated_string_consumes_to_end() {
    assert_eq!(extract_imports_internal(b"import 'x").len(), 0);
    assert_eq!(extract_imports_internal(b"import x from 'y").len(), 0);
    assert!(!has_jsx_internal(b"'<div>"));
}
