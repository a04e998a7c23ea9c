use kona::eraser::remove_typescript_types;
use kona::transformer::{quick_minify, transform_internal, transform_jsx, JsxRuntime,
    TransformOptions};

fn text(v: Vec<u8>) -> String {
    String::from_utf8(v).unwrap()
}

#[test]
fn test_remove_type_annotation() {
    let source = "const x: number = 5;";
    let (result, had_types) = remove_typescript_types(source.as_bytes());
    let result = text(result);
    assert!(had_types);
    assert!(!result.contains(": number"));
    assert!(result.contains("const x"));
}

#[test]
fn test_remove_interface() {
    let source = "interface Props { name: string; }\nconst x = 1;";
    let (result, had_types) = remove_typescript_types(source.as_bytes());
    let result = text(result);
    assert!(had_types);
    assert!(!result.contains("interface"));
    assert!(result.contains("const x = 1"));
}

#[test]
fn test_remove_type_import() {
    let source = "import type { Props } from './types';\nimport React from 'react';";
    let (result, had_types) = remove_typescript_types(source.as_bytes());
    let result = text(result);
    assert!(had_types);
    assert!(!result.contains("import type"));
    assert!(result.contains("import React"));
}

#[test]
fn test_jsx_transform_simple() {
    let source = "<div>Hello</div>";
    let options = TransformOptions::default();
    let (result, had_jsx) = transform_jsx(source.as_bytes(), &options);
    let result = text(result);
    assert!(had_jsx);
    assert!(result.contains("_jsx"));
    assert!(result.contains("\"div\""));
}

#[test]
fn test_jsx_transform_with_props() {
    let source = "<div className=\"test\" id={myId}>Hello</div>";
    let options = TransformOptions::default();
    let (result, had_jsx) = transform_jsx(source.as_bytes(), &options);
    let result = text(result);
    assert!(had_jsx);
    assert!(result.contains("className: \"test\""));
    assert!(result.contains("id: myId"));
}

#[test]
fn test_jsx_transform_component() {
    let source = "<MyComponent name=\"test\" />";
    let options = TransformOptions::default();
    let (result, had_jsx) = transform_jsx(source.as_bytes(), &options);
    let result = text(result);
    assert!(had_jsx);
    assert!(result.contains("MyComponent"));
    assert!(!result.contains("\"MyComponent\""));
}

#[test]
fn test_jsx_fragment() {
    let source = "<>Hello</>";
    let options = TransformOptions::default();
    let (result, had_jsx) = transform_jsx(source.as_bytes(), &options);
    let result = text(result);
    assert!(had_jsx);
    assert!(result.contains("_Fragment"));
}

#[test]
fn test_full_transform() {
    let source = r#"
            interface Props { name: string; }
            const Component: React.FC<Props> = ({ name }) => {
                return <div className="test">{name}</div>;
            };
        "#;
    let options = TransformOptions::default();
    let result = transform_internal(source.as_bytes(), b"test.tsx", &options);
    let code = text(result.code);
    assert!(result.had_types);
    assert!(result.had_jsx);
    assert!(!code.contains("interface"));
    assert!(code.contains("_jsx"));
}

#[test]
fn test_eraser_idempotent_on_samples() {
    let samples: [&str; 4] = [
        "const x: number = 5;",
        "interface Props { name: string; }\nconst x = 1;",
        "import type { P } from './t';\ntype A = B;\nconst v = w as W;\nconst n = m!.o;",
        "function f<T>(a: T): T { return a; }",
    ];
    for s in samples {
        let (once, _) = remove_typescript_types(s.as_bytes());
        let (twice, _) = remove_typescript_types(once.as_slice());
        assert_eq!(once, twice);
    }
}

#[test]
fn test_erase_type_alias() {
    let (result, had) = remove_typescript_types(b"type Alias = { a: number };\nconst k = 1;");
    let result = text(result);
    assert!(had);
    assert!(!result.contains("Alias"));
    assert!(result.contains("const k = 1"));
}

#[test]
fn test_erase_export_type() {
    let (result, had) = remove_typescript_types(b"export type { X } from './x';\nlet q = 2;");
    let result = text(result);
    assert!(had);
    assert!(!result.contains("export type"));
    assert!(result.contains("let q = 2"));
}

#[test]
fn test_erase_as_assertion_and_non_null() {
    let (result, had) = remove_typescript_types(b"const a = (b) as Wide;\nconst c = d!.e;");
    let result = text(result);
    assert!(had);
    assert!(!result.contains("as Wide"));
    assert!(!result.contains("!."));
    assert!(result.contains("d.e"));
}

#[test]
fn test_erase_generic_parameters() {
    let (result, had) = remove_typescript_types(b"function id<T>(x) { return x; }");
    let result = text(result);
    assert!(had);
    assert!(!result.contains("<T>"));
    assert!(result.contains("function id(x)"));
}

#[test]
fn test_erase_keeps_object_literal_keys() {
    let (result, _) = remove_typescript_types(b"const o = { key: value };");
    assert!(text(result).contains("key: value"));
}

#[test]
fn test_erase_keeps_strings_and_comments() {
    let source = "const s = 'x: number'; // y: string\n/* z: boolean */";
    let (result, had) = remove_typescript_types(source.as_bytes());
    assert!(!had);
    assert_eq!(text(result), source);
}

#[test]
fn test_jsx_key_attribute_is_third_argument() {
    let options = TransformOptions::default();
    let (result, _) = transform_jsx(b"<li key=\"k\" id=\"i\" />", &options);
    let result = text(result);
    assert_eq!(result, "_jsx(\"li\", { id: \"i\" }, \"k\")");
}

#[test]
fn test_jsx_spread_and_bool_attributes() {
    let options = TransformOptions::default();
    let (result, _) = transform_jsx(b"<input {...rest} disabled />", &options);
    let result = text(result);
    assert_eq!(result, "_jsx(\"input\", { ...rest, disabled: true })");
}

#[test]
fn test_jsx_attribute_name_translation() {
    let options = TransformOptions::default();
    let (result, _) = transform_jsx(b"<label class=\"a\" for=\"b\" data-x=\"c\" />", &options);
    let result = text(result);
    assert!(result.contains("className: \"a\""));
    assert!(result.contains("htmlFor: \"b\""));
    assert!(result.contains("data-x: \"c\""));
}

#[test]
fn test_jsx_two_children_use_jsxs() {
    let options = TransformOptions::default();
    let (result, _) = transform_jsx(b"<ul><li>a</li><li>b</li></ul>", &options);
    let result = text(result);
    assert_eq!(
        result,
        "_jsxs(\"ul\", { children: [_jsx(\"li\", { children: \"a\" }), _jsx(\"li\", { children: \"b\" })] })",
    );
}

#[test]
fn test_jsx_classic_runtime() {
    let mut options = TransformOptions::default();
    options.set_jsx_runtime(b"classic");
    assert_eq!(options.jsx_runtime, JsxRuntime::Classic);
    let (result, had) = transform_jsx(b"<div id=\"a\">Hi</div>", &options);
    let result = text(result);
    assert!(had);
    assert_eq!(result, "React.createElement(\"div\", { id: \"a\" }, \"Hi\")");
}

#[test]
fn test_transform_adds_runtime_import() {
    let options = TransformOptions::default();
    let result = transform_internal(b"const e = <div>Hi</div>;", b"app.jsx", &options);
    let code = text(result.code);
    assert!(result.had_jsx);
    assert!(!result.had_types);
    assert!(code.starts_with(
        "import { jsx as _jsx, jsxs as _jsxs, Fragment as _Fragment } from \"react/jsx-runtime\";\n",
    ));
}

#[test]
fn test_transform_classic_adds_no_import() {
    let mut options = TransformOptions::default();
    options.set_jsx_runtime(b"classic");
    let result = transform_internal(b"const e = <div>Hi</div>;", b"app.jsx", &options);
    let code = text(result.code);
    assert!(result.had_jsx);
    assert!(!code.contains("jsx-runtime"));
    assert!(code.contains("React.createElement"));
}

#[test]
fn test_transform_respects_filename_suffix() {
    let options = TransformOptions::default();
    let r1 = transform_internal(b"const x: number = 1;", b"a.js", &options);
    assert!(!r1.had_types);
    assert_eq!(text(r1.code), "const x: number = 1;");
    let r2 = transform_internal(b"const x: number = 1;", b"a.ts", &options);
    assert!(r2.had_types);
    assert_eq!(text(r2.code), "const x= 1;");
}

#[test]
fn test_transform_custom_import_source() {
    let mut options = TransformOptions::default();
    options.set_jsx_import_source(b"preact".to_vec());
    let result = transform_internal(b"<b>x</b>", b"a.jsx", &options);
    assert!(text(result.code).contains("\"preact/jsx-runtime\""));
}

#[test]
fn test_transform_terminates_on_adversarial_nesting() {
    let mut source = String::new();
    for _ in 0..200 {
        source.push_str("<div>{((([[[");
    }
    source.push_str("'unterminated");
    let options = TransformOptions::default();
    let result = transform_internal(source.as_bytes(), b"deep.tsx", &options);
    assert!(result.code.len() < 1_000_000);
    let empty = transform_internal(b"", b"x.tsx", &options);
    assert_eq!(empty.code.len(), 0);
}

#[test]
fn test_quick_minify_collapses() {
    let code = "// comment\nfunction hello(name) {\n    console.log(name);\n}";
    let options = {
        let mut o = TransformOptions::default();
        o.set_minify(true);
        o
    };
    let result = transform_internal(code.as_bytes(), b"a.js", &options);
    let out = text(result.code);
    assert!(!out.contains("// comment"));
    assert!(out.len() < code.len());
}

#[test]
fn test_quick_minify_exact() {
    assert_eq!(text(quick_minify(b"a = b;  // note\nc + d")), "a=b;c+d");
    assert_eq!(text(quick_minify(b"/* gone */ x  ;\n y")), "x;y");
    assert_eq!(text(quick_minify(b"")), "");
}

#[test]
fn test_eraser_second_pass_fixpoint_or_shrink_on_generated_inputs() {
    // Over arbitrary inputs, a second erasure pass either finds no further
    // trigger and returns the text unchanged, or fires and strictly
    // shortens it.
    let alphabet: &[u8] = b"type interfc!.;:=<>(){}[]'\"\\\n asTN/*x0";
    let mut state: u64 = 0x2545F4914F6CDD1D;
    for _ in 0..20000 {
        state = state.wrapping_mul(6364136223846793005).wrapping_add(1442695040888963407);
        let len = (state >> 33) as usize % 40;
        let mut input = Vec::with_capacity(len);
        for _ in 0..len {
            state = state.wrapping_mul(6364136223846793005).wrapping_add(1442695040888963407);
            input.push(alphabet[(state >> 33) as usize % alphabet.len()]);
        }
        let (once, _) = remove_typescript_types(&input);
        let (twice, fired_again) = remove_typescript_types(once.as_slice());
        if fired_again {
            assert!(twice.len() < once.len());
        } else {
            assert_eq!(once, twice);
        }
    }
}

#[test]
fn test_eraser_not_idempotent_when_deletion_creates_trigger() {
    // Deleting the annotation in `a!: A)` pulls the `!` next to `)`, which
    // a second pass then reads as a non-null assertion and deletes.
    let (once, _) = remove_typescript_types(b"a!: A)");
    assert_eq!(once.as_slice(), b"a!)");
    let (twice, fired_again) = remove_typescript_types(once.as_slice());
    assert!(fired_again);
    assert_eq!(twice.as_slice(), b"a)");
}

#[test]
fn test_comparison_is_not_a_generic() {
    let source = "const r = a<b; const s = c>(d);";
    let (result, _) = remove_typescript_types(source.as_bytes());
    assert_eq!(text(result), source);
}

#[test]
fn test_lowercase_annotation_is_an_object_key() {
    let source = "f({ x: foo, y: bar });";
    let (result, had) = remove_typescript_types(source.as_bytes());
    assert!(!had);
    assert_eq!(text(result), source);
}

#[test]
fn test_jsx_classic_fragment() {
    let mut options = TransformOptions::default();
    options.set_jsx_runtime(b"classic");
    let (result, _) = transform_jsx(b"<>a</>", &options);
    assert_eq!(text(result), "React.createElement(React.Fragment, null, \"a\")");
}

#[test]
fn test_jsx_nested_elements() {
    let options = TransformOptions::default();
    let (result, _) = transform_jsx(b"<div><span>x</span>{y}</div>", &options);
    assert_eq!(
        text(result),
        "_jsxs(\"div\", { children: [_jsx(\"span\", { children: \"x\" }), y] })",
    );
}

#[test]
fn test_jsx_text_is_escaped_and_trimmed() {
    let options = TransformOptions::default();
    let (result, _) = transform_jsx(b"<p>  say \"hi\"  </p>", &options);
    assert_eq!(text(result), "_jsx(\"p\", { children: \"say \\\"hi\\\"\" })");
}

#[test]
fn test_jsx_mismatched_close_tag_is_accepted() {
    let options = TransformOptions::default();
    let (result, had) = transform_jsx(b"<div>x</span>", &options);
    assert!(had);
    assert_eq!(text(result), "_jsx(\"div\", { children: \"x\" })");
}
