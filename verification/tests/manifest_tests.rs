use moxen::cli::DocumentationType;
use moxen::manifest::Addon;
use moxen::manifest::AddonMetadata;
use moxen::moxen::manifest::Metadata;
use moxen::moxen::manifest::MoxCategory;
use moxen::moxen::manifest::PackageManifest;

fn sample(name: &str, version: Option<&str>, categories: Option<Vec<MoxCategory>>) -> PackageManifest {
    PackageManifest {
        mox: Metadata {
            name: name.to_string(),
            version: version.map(|v| v.to_string()),
            wow_version: "11.0.1".to_string(),
            description: "A test bundle".to_string(),
            categories,
            authors: vec![],
            homepage: None,
            repository: None,
            dependencies: None,
            ignore: None,
        },
    }
}

#[test]
fn normalise_name_lowercases_and_hyphenates() {
    let m = sample("My Cool Addon", Some("0.1.0-BETA"), None);
    assert_eq!(m.normalise_name(false), "my-cool-addon");
    assert_eq!(m.normalise_name(true), "my-cool-addon-0.1.0-beta");
}

#[test]
fn normalise_name_falls_back_to_platform_version() {
    let m = sample("Solo", None, None);
    assert_eq!(m.normalise_name(true), "solo-11.0.1");
}

#[test]
fn normalise_defaults_empty_categories() {
    let m = sample("Pkg", Some("1.0"), Some(vec![]));
    let n = m.normalise("d1".to_string());
    assert_eq!(n.categories.len(), 1);
    assert!(matches!(n.categories[0], MoxCategory::Miscellaneous));
    let m2 = sample("Pkg", Some("1.0"), None);
    let n2 = m2.normalise("d1".to_string());
    assert_eq!(n2.categories.len(), 1);
    assert!(matches!(n2.categories[0], MoxCategory::Miscellaneous));
}

#[test]
fn normalise_keeps_declared_categories_and_digest() {
    let m = sample("Pkg", Some("1.0"), Some(vec![MoxCategory::ActionBars, MoxCategory::Pvp]));
    let n = m.normalise("feedbeef".to_string());
    assert_eq!(n.name, "pkg");
    assert_eq!(n.version.as_deref(), Some("1.0"));
    assert_eq!(n.wow_version, "11.0.1");
    assert_eq!(n.categories.len(), 2);
    assert_eq!(n.cksum, "feedbeef");
}

#[test]
fn normalise_is_pure_and_differs_only_in_digest() {
    let a = sample("Same Input", Some("2.0"), None).normalise("d1".to_string());
    let b = sample("Same Input", Some("2.0"), None).normalise("d1".to_string());
    let c = sample("Same Input", Some("2.0"), None).normalise("d2".to_string());
    assert_eq!(a.name, b.name);
    assert_eq!(a.version, b.version);
    assert_eq!(a.wow_version, b.wow_version);
    assert_eq!(a.cksum, b.cksum);
    assert_eq!(a.name, c.name);
    assert_eq!(a.version, c.version);
    assert_eq!(a.wow_version, c.wow_version);
    assert_ne!(a.cksum, c.cksum);
    assert_eq!(c.cksum, "d2");
}

#[test]
fn add_dependency_is_idempotent_and_order_preserving() {
    let mut m = sample("Deps", None, None);
    m.add_dependency("alpha".to_string());
    m.add_dependency("beta".to_string());
    m.add_dependency("alpha".to_string());
    assert_eq!(m.mox.dependencies.as_deref(), Some(&["alpha".to_string(), "beta".to_string()][..]));
}

#[test]
fn fresh_manifest_is_bootstrapped() {
    let m = PackageManifest::fresh("NewMox");
    assert_eq!(m.mox.name, "NewMox");
    assert_eq!(m.mox.version.as_deref(), Some("0.1.0"));
    assert_eq!(m.mox.description, "Bootstrapped by Moxen");
    assert!(m.mox.dependencies.is_none());
    assert!(m.mox.ignore.is_none());
    let cats = m.mox.categories.as_ref().unwrap();
    assert_eq!(cats.len(), 1);
    assert!(matches!(cats[0], MoxCategory::Miscellaneous));
}

#[test]
fn describe_renders_populated_fields_in_order() {
    let mut m = sample("Showcase", Some("1.2"), Some(vec![MoxCategory::MapMinimap]));
    m.mox.authors = vec!["Ada".to_string(), "Brin".to_string()];
    m.mox.homepage = Some("https://example.invalid".to_string());
    let text = m.describe();
    let expected = "--- Mox Manifest ---\n\
                    Name: Showcase\n\
                    Addon Version: 1.2\n\
                    World of Warcraft Version: 11.0.1\n\
                    Addon Description: \"A test bundle\"\n\
                    Authors:\n\
                    - Ada\n\
                    - Brin\n\
                    Categories:\n\
                    - Map & Minimap\n\
                    Home: https://example.invalid\n\
                    ------\n";
    assert_eq!(text, expected);
}

#[test]
fn describe_omits_absent_fields() {
    let m = sample("Plain", None, None);
    let expected = "--- Mox Manifest ---\n\
                    Name: Plain\n\
                    World of Warcraft Version: 11.0.1\n\
                    Addon Description: \"A test bundle\"\n\
                    ------\n";
    assert_eq!(m.describe(), expected);
}

#[test]
fn category_labels_render() {
    assert_eq!(MoxCategory::AuctionEconomy.label(), "Auction & Economy");
    assert_eq!(MoxCategory::Pvp.label(), "PvP");
    assert_eq!(MoxCategory::Miscellaneous.label(), "Miscellaneous");
    assert_eq!(MoxCategory::default().label(), "Miscellaneous");
}

#[test]
fn addon_describe_renders() {
    let a = Addon {
        addon: AddonMetadata {
            name: "Old Model".to_string(),
            version: None,
            wow_version: "10.2".to_string(),
            description: "legacy".to_string(),
            authors: vec!["Cy".to_string()],
            homepage: None,
            repository: Some("git://example.invalid/r".to_string()),
        },
        package: None,
    };
    let expected = "Name: Old Model\n\
                    World of Warcraft Version: 10.2\n\
                    Addon Description: \"legacy\"\n\
                    Authors:\n\
                    - Cy\n\
                    Source Code: git://example.invalid/r\n";
    assert_eq!(a.describe(), expected);
}

#[test]
fn documentation_sources() {
    assert_eq!(
        DocumentationType::Live.repo(),
        "https://github.com/Gethe/wow-ui-source/tree/live"
    );
    assert_eq!(
        DocumentationType::Vanilla.repo(),
        "https://github.com/Gethe/wow-ui-source/tree/classic_era"
    );
    assert_eq!(DocumentationType::Classic.branch(), "classic");
}
