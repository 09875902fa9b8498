use npm_resolve_wesl::parse::parse_wesl_bundle;
use npm_resolve_wesl::WeslResolveError;

fn parse_text(js: &str) -> Result<npm_resolve_wesl::WeslBundle, WeslResolveError> {
    parse_wesl_bundle(&"test_bundle.js".to_string(), &js.to_string())
}

#[test]
fn test_parse_bundle() {
    let result = parse_text(
        r#"
            export const weslBundle = {
              name: "test_pkg",
              edition: "unstable_2025_1",
              modules: { "lib.wgsl": "fn main() { }" }
            };
        "#,
    )
    .unwrap();

    assert_eq!(result.name, "test_pkg");
    assert_eq!(result.edition, "unstable_2025_1");
    assert_eq!(result.modules.len(), 1);
}

#[test]
fn roundtrip_wellformed_descriptor() {
    let result = parse_text(
        r#"
            export const weslBundle = {
              name: "test_pkg",
              edition: "unstable_2025_1",
              modules: { "lib.wgsl": "fn main() { }" }
            };
        "#,
    )
    .unwrap();

    assert_eq!(result.name, "test_pkg");
    assert_eq!(result.edition, "unstable_2025_1");
    assert_eq!(
        result.modules,
        vec![("lib.wgsl".to_string(), "fn main() { }".to_string())]
    );
    assert!(result.dependencies.is_empty());
}

#[test]
fn missing_binding_is_not_found() {
    let result = parse_text("export const somethingElse = { name: \"x\" };");
    assert!(matches!(result, Err(WeslResolveError::NotFoundError { .. })));
}

#[test]
fn missing_edition_is_missing_field() {
    let result = parse_text(
        r#"
            export const weslBundle = {
              name: "test_pkg",
              modules: {}
            };
        "#,
    );
    match result {
        Err(WeslResolveError::MissingFieldError { path, missing_name, missing_edition }) => {
            assert_eq!(path, "test_bundle.js");
            assert!(!missing_name);
            assert!(missing_edition);
        }
        other => panic!("expected a missing-field error, got {:?}", other),
    }
}

#[test]
fn missing_both_fields_is_missing_field() {
    let result = parse_text("export const weslBundle = { modules: {} };");
    match result {
        Err(WeslResolveError::MissingFieldError { missing_name, missing_edition, .. }) => {
            assert!(missing_name);
            assert!(missing_edition);
        }
        other => panic!("expected a missing-field error, got {:?}", other),
    }
}

#[test]
fn syntax_error_carries_diagnostics() {
    let result = parse_text("const = ;");
    match result {
        Err(WeslResolveError::SyntaxError { path, diagnostics }) => {
            assert_eq!(path, "test_bundle.js");
            assert!(!diagnostics.is_empty());
        }
        other => panic!("expected a syntax error, got {:?}", other),
    }
}

#[test]
fn non_object_binding_is_not_found() {
    let result = parse_text("export const weslBundle = 42;");
    assert!(matches!(result, Err(WeslResolveError::NotFoundError { .. })));
}

#[test]
fn non_string_module_values_are_skipped() {
    let result = parse_text(
        r#"
            export const weslBundle = {
              name: "p",
              edition: "e",
              modules: { "a.wgsl": "aa", skipped: 42, "b.wgsl": "bb" }
            };
        "#,
    )
    .unwrap();
    assert_eq!(
        result.modules,
        vec![
            ("a.wgsl".to_string(), "aa".to_string()),
            ("b.wgsl".to_string(), "bb".to_string())
        ]
    );
}

#[test]
fn identifier_module_keys_are_read() {
    let result = parse_text(
        r#"
            const weslBundle = {
              name: "p",
              edition: "e",
              modules: { lib: "code" }
            };
        "#,
    )
    .unwrap();
    assert_eq!(result.modules, vec![("lib".to_string(), "code".to_string())]);
}

#[test]
fn first_binding_wins() {
    let result = parse_text(
        r#"
            var weslBundle = { name: "first", edition: "e1" };
            var weslBundle = { name: "second", edition: "e2" };
        "#,
    )
    .unwrap();
    assert_eq!(result.name, "first");
    assert_eq!(result.edition, "e1");
}

#[test]
fn later_field_overwrites_earlier() {
    let result = parse_text(
        r#"
            export const weslBundle = {
              name: "early",
              edition: "e",
              name: "late"
            };
        "#,
    )
    .unwrap();
    assert_eq!(result.name, "late");
}

#[test]
fn surrounding_code_is_ignored() {
    let result = parse_text(
        r#"
            function helper() { return 3; }
            let unrelated = helper();
            export const weslBundle = { name: "p", edition: "e", modules: {} };
            export default helper;
        "#,
    )
    .unwrap();
    assert_eq!(result.name, "p");
    assert_eq!(result.edition, "e");
    assert!(result.modules.is_empty());
}

#[test]
fn test_parse_bundles() {
    // Fixture bundles beside the crate, when present; absent ones are skipped.
    let packages_dir = std::path::Path::new("../packages");
    let bundles = [
        (
            "test_pkg/dependent_package/dist/weslBundle.js",
            "dependent_package",
            "lib.wesl",
        ),
        (
            "test_pkg/multi_pkg/dist/dir/nested/weslBundle.js",
            "multi_pkg",
            "dir/nested",
        ),
        ("random_wgsl/dist/weslBundle.js", "random_wgsl", "lib.wgsl"),
    ];

    for (path, name, expected_module) in bundles {
        let bundle_path = packages_dir.join(path);
        println!("Testing bundle at {:?}", bundle_path);
        if !bundle_path.exists() {
            println!("Skipping test_parse_bundles for missing bundle: {:?}", bundle_path);
            continue;
        }

        let text = oxc_resolver::FileSystemOs::read_to_string(&bundle_path).unwrap();
        let result = parse_wesl_bundle(&bundle_path.display().to_string(), &text).unwrap();
        println!("  name: {}, edition: {}", result.name, result.edition);
        println!("  modules: {:?}", result.modules.iter().map(|(k, _)| k).collect::<Vec<_>>());
        assert_eq!(result.name, name);
        assert_eq!(result.edition, "unstable_2025_1");
        assert!(result.modules.iter().any(|(p, _)| p.contains(expected_module)));
    }
}

#[test]
fn load_bundles_in_order_and_fail_fast() {
    let good_one = r#"export const weslBundle = { name: "one", edition: "e" };"#;
    let good_two = r#"export const weslBundle = { name: "two", edition: "e" };"#;
    let bad = "export const other = 1;";

    let sources = vec![
        ("one.js".to_string(), good_one.to_string()),
        ("two.js".to_string(), good_two.to_string()),
    ];
    let bundles = npm_resolve_wesl::load_bundles(&sources).unwrap();
    assert_eq!(bundles.len(), 2);
    assert_eq!(bundles[0].name, "one");
    assert_eq!(bundles[1].name, "two");

    let sources = vec![
        ("one.js".to_string(), good_one.to_string()),
        ("bad.js".to_string(), bad.to_string()),
        ("two.js".to_string(), good_two.to_string()),
    ];
    match npm_resolve_wesl::load_bundles(&sources) {
        Err(WeslResolveError::NotFoundError { path }) => assert_eq!(path, "bad.js"),
        other => panic!("expected the failure of the second source, got {:?}", other),
    }
}
