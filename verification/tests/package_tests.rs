use moxen::common::MoxenError;
use moxen::moxen::manifest::Metadata;
use moxen::moxen::manifest::PackageManifest;
use moxen::moxen::package::check_for_toc;
use moxen::moxen::package::filter_ignored;
use moxen::moxen::package::find_any_toc;
use moxen::moxen::package::package_content;
use moxen::moxen::package::staging_steps;
use moxen::moxen::package::validate_structure;
use moxen::moxen::Manager;
use moxen::moxen::config::MoxenConfig;

fn manifest(name: &str, version: Option<&str>, ignore: Option<Vec<String>>) -> PackageManifest {
    PackageManifest {
        mox: Metadata {
            name: name.to_string(),
            version: version.map(|v| v.to_string()),
            wow_version: "11.0.1".to_string(),
            description: String::new(),
            categories: None,
            authors: vec![],
            homepage: None,
            repository: None,
            dependencies: None,
            ignore,
        },
    }
}

fn paths(items: &[&str]) -> Vec<String> {
    items.iter().map(|s| s.to_string()).collect()
}

#[test]
fn structure_single_bundle_needs_root_marker() {
    assert!(validate_structure(&paths(&["MyAddon.toc", "start.lua"]), false));
    assert!(!validate_structure(&paths(&["start.lua", "docs/readme.md"]), false));
    assert!(!validate_structure(&paths(&["sub/MyAddon.toc"]), false));
}

#[test]
fn structure_collection_needs_marker_per_member() {
    assert!(validate_structure(&paths(&["a/a.toc", "b/b.toc", "b/code.lua"]), true));
    assert!(!validate_structure(&paths(&["a/a.toc", "b/code.lua"]), true));
    assert!(!validate_structure(&paths(&["readme.md"]), true));
    assert!(!validate_structure(&paths(&["a/deep/x.toc"]), true));
}

#[test]
fn toc_scans() {
    assert!(check_for_toc(&paths(&["Root.toc"])));
    assert!(!check_for_toc(&paths(&["a/Root.toc"])));
    assert!(find_any_toc(&paths(&["a/Root.toc"])));
    assert!(!find_any_toc(&paths(&["a/start.lua"])));
}

#[test]
fn missing_marker_aborts_before_any_staging() {
    let m = manifest("No Toc", Some("0.1.0"), None);
    let files = paths(&["start.lua", "docs/notes.md"]);
    match package_content(&m, &"/src".to_string(), &"/mox".to_string(), files) {
        Err(MoxenError::MissingTocFile) => {}
        other => panic!("expected a missing marker failure, got {:?}", other),
    }
}

#[test]
fn forbidden_extension_fails_enumeration() {
    let m = manifest("Has Bin", Some("0.1.0"), None);
    let files = paths(&["HasBin.toc", "tools/helper.exe"]);
    match package_content(&m, &"/src".to_string(), &"/mox".to_string(), files) {
        Err(MoxenError::InvalidFileExtension(ext)) => assert_eq!(ext, "exe"),
        other => panic!("expected an extension failure, got {:?}", other),
    }
}

#[test]
fn ignore_globs_filter_before_extension_checking() {
    let m = manifest(
        "Globby",
        Some("0.1.0"),
        Some(vec!["docs/**".to_string(), "*.exe".to_string()]),
    );
    let files = paths(&["Globby.toc", "docs/guide.md", "docs/deep/x.cs", "setup.exe", "core.lua"]);
    let plan = package_content(&m, &"/src".to_string(), &"/mox".to_string(), files).unwrap();
    assert_eq!(plan.files, paths(&["Globby.toc", "core.lua"]));
}

#[test]
fn malformed_ignore_pattern_is_fatal() {
    let m = manifest("Bad Glob", Some("0.1.0"), Some(vec!["a[".to_string()]));
    let files = paths(&["BadGlob.toc"]);
    match package_content(&m, &"/src".to_string(), &"/mox".to_string(), files) {
        Err(MoxenError::GeneralError(msg)) => assert!(msg.contains("invalid ignore pattern")),
        other => panic!("expected a pattern failure, got {:?}", other),
    }
}

#[test]
fn filter_ignored_keeps_order() {
    let files = paths(&["a.lua", "b.md", "c.lua"]);
    let patterns = paths(&["*.md"]);
    assert_eq!(filter_ignored(&files, &patterns).unwrap(), paths(&["a.lua", "c.lua"]));
}

#[test]
fn plan_paths_are_deterministic() {
    let m = manifest("My Addon", None, None);
    let cfg = MoxenConfig { file_path: "/mox/config".to_string(), credentials: None };
    let mgr = Manager::new("/mox".to_string(), "/src/my-addon".to_string(), m, cfg);
    let plan = mgr.package(paths(&["MyAddon.toc", "sub/core.lua"])).unwrap();
    assert_eq!(plan.source_dir, "/src/my-addon");
    assert_eq!(plan.staging_dir, "/mox/package/my-addon-11.0.1");
    assert_eq!(plan.archive_path, "/mox/package/my-addon-11.0.1.mox");
    assert_eq!(plan.files, paths(&["MyAddon.toc", "sub/core.lua"]));
    let steps = staging_steps(&plan);
    assert_eq!(steps.len(), 2);
    assert_eq!(steps[0].0, "/src/my-addon/MyAddon.toc");
    assert_eq!(steps[0].1, "/mox/package/my-addon-11.0.1/MyAddon.toc");
    assert_eq!(steps[1].1, "/mox/package/my-addon-11.0.1/sub/core.lua");
}

#[test]
fn collection_fallback_packages_members() {
    let m = manifest("Bundle Pack", Some("2.0"), None);
    let files = paths(&["modules/one/one.toc", "modules/one/one.lua"]);
    match package_content(&m, &"/s".to_string(), &"/m".to_string(), files) {
        Err(MoxenError::MissingTocFile) => {}
        other => panic!("one member directory two levels deep has no direct marker: {:?}", other),
    }
    let flat = paths(&["one/one.toc", "two/two.toc"]);
    assert!(package_content(&m, &"/s".to_string(), &"/m".to_string(), flat).is_ok());
}
