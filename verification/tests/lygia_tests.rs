use npm_resolve_wesl::parse::parse_wesl_bundle;

#[test]
fn test_parse_lygia() {
    let node_modules = std::path::Path::new("../node_modules").to_path_buf();

    // Find lygia in pnpm's .pnpm directory structure
    let lygia_path = walkdir::WalkDir::new(node_modules.join(".pnpm"))
        .max_depth(4)
        .into_iter()
        .filter_map(|e| e.ok())
        .find(|e| e.file_name() == "lygia" && e.path().join("dist").exists())
        .map(|e| e.path().join("dist"));

    let Some(lygia_path) = lygia_path else {
        println!("lygia not found in node_modules, skipping test");
        return;
    };
    println!("Found lygia at {:?}", lygia_path);

    let bundles: Vec<_> = walkdir::WalkDir::new(&lygia_path)
        .into_iter()
        .filter_map(|e| e.ok())
        .filter(|e| e.file_name() == "weslBundle.js")
        .take(5)
        .collect();

    if bundles.is_empty() {
        return;
    }

    for entry in bundles {
        println!("Testing lygia bundle: {:?}", entry.path());
        let text = oxc_resolver::FileSystemOs::read_to_string(entry.path()).unwrap();
        let result = parse_wesl_bundle(&entry.path().display().to_string(), &text).unwrap();
        println!(
            "  name: {}, modules: {:?}",
            result.name,
            result.modules.iter().map(|(k, _)| k).collect::<Vec<_>>()
        );
        assert_eq!(result.name, "lygia");
        assert_eq!(result.edition, "unstable_2025_1");
        assert!(!result.modules.is_empty());
    }
}
