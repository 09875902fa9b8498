use npm_resolve_wesl::npm_resolver::export_subpaths;
use npm_resolve_wesl::package_name_utils::npm_name_variations;
use npm_resolve_wesl::parse_dependencies;
use npm_resolve_wesl::text::break_at;

#[test]
fn test_parse_dependencies_no_panic() {
    // Smoke test - should not panic even with invalid input
    let module_paths = vec!["test::module".to_string()];
    let deps = parse_dependencies(&module_paths, ".");
    // Will be empty without packages installed
    assert!(deps.is_empty());
}

#[test]
fn test_dependency_bundles_error_handling() {
    // Should handle missing packages gracefully
    let module_paths = vec!["nonexistent::package".to_string()];
    let resolved = parse_dependencies(&module_paths, ".");
    assert!(resolved.is_empty());
    // With nothing resolved there is nothing to load
    let sources: Vec<(String, String)> = Vec::new();
    let result = npm_resolve_wesl::load_bundles(&sources);
    if let Ok(bundles) = result {
        assert!(bundles.is_empty());
    }
}

#[test]
fn test_export_subpaths() {
    let segments = vec!["foo".to_string(), "bar".to_string(), "baz".to_string()];
    let paths = export_subpaths(&segments);
    assert_eq!(
        paths,
        vec!["foo/bar/baz".to_string(), "foo/bar".to_string(), "foo".to_string()]
    );
}

#[test]
fn test_npm_name_variations() {
    let variations = npm_name_variations("random_wgsl");
    assert_eq!(variations, vec!["random_wgsl".to_string(), "random-wgsl".to_string()]);

    let variations = npm_name_variations("lygia__shader_utils");
    assert_eq!(
        variations,
        vec!["@lygia/shader_utils".to_string(), "@lygia/shader-utils".to_string()]
    );
}

#[test]
fn test_break_at() {
    assert_eq!(break_at("foo/bar", "/"), ("foo".to_string(), "/bar".to_string()));
    assert_eq!(break_at("foo", "/"), ("foo".to_string(), String::new()));
}

#[test]
fn test_resolve_deps() {
    // A fixture directory with installed packages, when one is present;
    // without it this degrades to checking that nothing resolves.
    let dir = "../packages/test_pkg";
    if !std::path::Path::new(dir).exists() {
        let paths = vec!["dependent_package::dep".to_string()];
        let deps = parse_dependencies(&paths, ".");
        assert!(deps.is_empty());
        return;
    }
    let paths = vec!["dependent_package::dep".to_string()];
    let deps = parse_dependencies(&paths, dir);
    if !deps.is_empty() {
        assert!(deps.contains(&"dependent_package".to_string()));
    }
}

#[test]
fn name_variations_idempotent_without_underscores() {
    // No underscores anywhere: both variations are the input itself.
    let variations = npm_name_variations("foobar");
    assert_eq!(variations, vec!["foobar".to_string(), "foobar".to_string()]);
    let variations = npm_name_variations("a/b/c");
    assert_eq!(variations, vec!["a/b/c".to_string(), "a/b/c".to_string()]);
}

#[test]
fn name_variations_keep_subpath_unchanged() {
    // Only the package part before the first slash is rewritten.
    let variations = npm_name_variations("my_pkg/deep_dir");
    assert_eq!(
        variations,
        vec!["my_pkg/deep_dir".to_string(), "my-pkg/deep_dir".to_string()]
    );
    let variations = npm_name_variations("sc__my_pkg/deep_dir");
    assert_eq!(
        variations,
        vec!["@sc/my_pkg/deep_dir".to_string(), "@sc/my-pkg/deep_dir".to_string()]
    );
}

#[test]
fn export_subpaths_single_segment() {
    let paths = export_subpaths(&vec!["solo".to_string()]);
    assert_eq!(paths, vec!["solo".to_string()]);
}

#[test]
fn empty_module_path_list_yields_empty_set() {
    let deps = parse_dependencies(&Vec::new(), ".");
    assert!(deps.is_empty());
}

#[test]
fn builtin_and_single_segment_paths_are_skipped() {
    // Single-segment paths and the reserved `constants` namespace are never
    // resolved, whatever is on disk.
    let module_paths = vec!["constants::color::red".to_string(), "package_json".to_string()];
    let deps = parse_dependencies(&module_paths, ".");
    assert!(deps.is_empty());
}

#[test]
fn unresolvable_path_is_absent_not_an_error() {
    let module_paths = vec!["surely_not_a_real_pkg_name::util".to_string()];
    let deps = parse_dependencies(&module_paths, ".");
    assert!(deps.is_empty());
}
