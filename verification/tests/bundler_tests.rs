use kona::bundler::{escape_string, generate_bundle_internal, BundleOptions, ModuleInfo};

fn text(v: Vec<u8>) -> String {
    String::from_utf8(v).unwrap()
}

#[test]
fn test_generate_iife() {
    let modules = vec![
        ModuleInfo {
            id: b"index.js".to_vec(),
            code: b"console.log('hello');".to_vec(),
            is_entry: true,
        },
    ];
    let result = text(generate_bundle_internal(&modules, &BundleOptions::default()));
    assert!(result.contains("Kona Bundle"));
    assert!(result.contains("index.js"));
    assert!(result.contains("console.log"));
}

#[test]
fn test_generate_esm() {
    let modules = vec![
        ModuleInfo {
            id: b"index.js".to_vec(),
            code: b"export default 42;".to_vec(),
            is_entry: true,
        },
    ];
    let options = BundleOptions { format: b"esm".to_vec(), minify: false };
    let result = text(generate_bundle_internal(&modules, &options));
    assert!(result.contains("ESM Bundle"));
    assert!(result.contains("__modules"));
}

#[test]
fn test_multiple_modules() {
    let modules = vec![
        ModuleInfo {
            id: b"utils.js".to_vec(),
            code: b"module.exports.add = (a, b) => a + b;".to_vec(),
            is_entry: false,
        },
        ModuleInfo {
            id: b"index.js".to_vec(),
            code: b"var utils = require('utils.js'); console.log(utils.add(1, 2));".to_vec(),
            is_entry: true,
        },
    ];
    let result = text(generate_bundle_internal(&modules, &BundleOptions::default()));
    assert!(result.contains("utils.js"));
    assert!(result.contains("index.js"));
}

#[test]
fn test_generate_cjs_exports_first_entry() {
    let modules = vec![
        ModuleInfo { id: b"lib.js".to_vec(), code: b"exports.x = 1;".to_vec(), is_entry: false },
        ModuleInfo { id: b"main.js".to_vec(), code: b"require('lib.js');".to_vec(), is_entry: true },
    ];
    let options = BundleOptions { format: b"cjs".to_vec(), minify: false };
    let result = text(generate_bundle_internal(&modules, &options));
    assert!(result.contains("CJS Bundle"));
    assert!(result.ends_with("module.exports = __require(\"main.js\");\n"));
}

#[test]
fn test_escape_string_for_ids() {
    let escaped = escape_string(b"a\"b\\c\nd");
    assert_eq!(escaped.as_slice(), b"a\\\"b\\\\c\\nd");
}

#[test]
fn test_bundle_minify_preserves_strings() {
    let modules = vec![
        ModuleInfo {
            id: b"m.js".to_vec(),
            code: b"var s = 'a  b'; // gone\nvar  t = 2;".to_vec(),
            is_entry: true,
        },
    ];
    let options = BundleOptions { format: b"iife".to_vec(), minify: true };
    let result = text(generate_bundle_internal(&modules, &options));
    assert!(result.contains("'a  b'"));
    assert!(!result.contains("// gone"));
    assert!(!result.contains("var  t"));
}
