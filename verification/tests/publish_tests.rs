use base64::prelude::Engine;
use base64::prelude::BASE64_STANDARD;

use moxen::common::checksum;
use moxen::common::MoxenError;
use moxen::moxen::config::MoxenConfig;
use moxen::moxen::config::MoxenCredentials;
use moxen::moxen::manifest::Metadata;
use moxen::moxen::manifest::MoxCategory;
use moxen::moxen::manifest::NormalizedManifest;
use moxen::moxen::manifest::PackageManifest;
use moxen::moxen::publish::create_request_body;
use moxen::moxen::publish::manifest_toml;
use moxen::moxen::publish::publish_package;
use moxen::moxen::Manager;

fn manifest(name: &str, version: Option<&str>) -> PackageManifest {
    PackageManifest {
        mox: Metadata {
            name: name.to_string(),
            version: version.map(|v| v.to_string()),
            wow_version: "11.0.1".to_string(),
            description: String::new(),
            categories: None,
            authors: vec![],
            homepage: None,
            repository: None,
            dependencies: None,
            ignore: None,
        },
    }
}

#[test]
fn manifest_toml_renders_fixed_lines() {
    let nm = NormalizedManifest {
        name: "x".to_string(),
        version: Some("1.0".to_string()),
        wow_version: "11".to_string(),
        categories: vec![MoxCategory::ActionBars, MoxCategory::Pvp],
        cksum: "ab".to_string(),
    };
    let expected = "name = \"x\"\n\
                    version = \"1.0\"\n\
                    wow_version = \"11\"\n\
                    categories = [\"action-bars\", \"pvp\"]\n\
                    cksum = \"ab\"\n";
    assert_eq!(manifest_toml(&nm), expected);
}

#[test]
fn manifest_toml_omits_absent_version_and_escapes() {
    let nm = NormalizedManifest {
        name: "with \"quotes\" and \\slash".to_string(),
        version: None,
        wow_version: "11".to_string(),
        categories: vec![MoxCategory::Miscellaneous],
        cksum: "cd".to_string(),
    };
    let text = manifest_toml(&nm);
    assert!(!text.contains("version = \"\n"));
    let value: toml::Value = toml::from_str(&text).unwrap();
    assert_eq!(value["name"].as_str(), Some("with \"quotes\" and \\slash"));
    assert_eq!(value.get("version"), None);
}

#[test]
fn manifest_toml_escapes_control_characters() {
    let nm = NormalizedManifest {
        name: "line1\nline2\tend\u{1}.".to_string(),
        version: Some("v\r1".to_string()),
        wow_version: "11".to_string(),
        categories: vec![MoxCategory::Miscellaneous],
        cksum: "ee".to_string(),
    };
    let text = manifest_toml(&nm);
    assert!(text.contains("name = \"line1\\nline2\tend\\u0001.\""));
    assert!(text.contains("version = \"v\\r1\""));
    let value: toml::Value = toml::from_str(&text).unwrap();
    assert_eq!(value["name"].as_str(), Some("line1\nline2\tend\u{1}."));
    assert_eq!(value["version"].as_str(), Some("v\r1"));
}

#[test]
fn request_body_encodes_manifest_and_package() {
    let nm = NormalizedManifest {
        name: "pkg".to_string(),
        version: Some("1.0".to_string()),
        wow_version: "11".to_string(),
        categories: vec![MoxCategory::Miscellaneous],
        cksum: "ee".to_string(),
    };
    let toml_text = manifest_toml(&nm);
    let body = create_request_body(nm, b"payload");
    assert_eq!(body.package, BASE64_STANDARD.encode(b"payload"));
    assert_eq!(body.manifest, BASE64_STANDARD.encode(toml_text.as_bytes()));
}

#[test]
fn published_manifest_reproduces_the_computed_digest() {
    let pkg: Vec<u8> = b"hello world package".to_vec();
    let digest = checksum(&pkg);
    let body = publish_package(manifest("Pub Test", Some("1.0")), &pkg);

    let decoded = BASE64_STANDARD.decode(&body.manifest).unwrap();
    let text = String::from_utf8(decoded).unwrap();
    let value: toml::Value = toml::from_str(&text).unwrap();
    assert_eq!(value["cksum"].as_str(), Some(digest.as_str()));
    assert_eq!(value["name"].as_str(), Some("pub-test"));
    assert_eq!(value["version"].as_str(), Some("1.0"));
    assert_eq!(value["wow_version"].as_str(), Some("11.0.1"));
    let cats: Vec<&str> =
        value["categories"].as_array().unwrap().iter().map(|v| v.as_str().unwrap()).collect();
    assert_eq!(cats, vec!["miscellaneous"]);

    let package_bytes = BASE64_STANDARD.decode(&body.package).unwrap();
    assert_eq!(package_bytes, pkg);
}

#[test]
fn publish_preflight_demands_credentials_then_key() {
    let m = manifest("Preflight", None);
    let no_creds = MoxenConfig { file_path: "/c".to_string(), credentials: None };
    let mgr = Manager::new("/m".to_string(), "/s".to_string(), m.clone(), no_creds);
    match mgr.publish_preflight() {
        Err(MoxenError::GeneralError(msg)) => assert_eq!(msg, "missing credentials"),
        other => panic!("expected a missing-credentials error, got {:?}", other),
    }

    let keyless = MoxenConfig {
        file_path: "/c".to_string(),
        credentials: Some(MoxenCredentials {
            username: "u".to_string(),
            private_key: "k".to_string(),
            api_key: None,
        }),
    };
    let mgr = Manager::new("/m".to_string(), "/s".to_string(), m.clone(), keyless);
    match mgr.publish_preflight() {
        Err(MoxenError::GeneralError(msg)) => assert_eq!(msg, "missing api key"),
        other => panic!("expected a missing-key error, got {:?}", other),
    }

    let ready = MoxenConfig {
        file_path: "/c".to_string(),
        credentials: Some(MoxenCredentials {
            username: "u".to_string(),
            private_key: "k".to_string(),
            api_key: Some("SECRET-REDACTED".to_string()),
        }),
    };
    let mgr = Manager::new("/m".to_string(), "/s".to_string(), m, ready);
    let (key, user) = mgr.publish_preflight().unwrap();
    assert_eq!(key, "SECRET-REDACTED");
    assert_eq!(user, "u");
}

#[test]
fn registration_updates_stored_credentials() {
    let m = manifest("Reg", None);
    let cfg = MoxenConfig {
        file_path: "/c".to_string(),
        credentials: Some(MoxenCredentials {
            username: String::new(),
            private_key: "pk".to_string(),
            api_key: None,
        }),
    };
    let mut mgr = Manager::new("/m".to_string(), "/s".to_string(), m, cfg);
    mgr.apply_registration("newuser".to_string(), "SECRET-REDACTED".to_string());
    let creds = mgr.config.credentials.unwrap();
    assert_eq!(creds.username, "newuser");
    assert_eq!(creds.api_key.as_deref(), Some("SECRET-REDACTED"));
    assert_eq!(creds.private_key, "pk");
}
