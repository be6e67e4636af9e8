use moxen::common::checksum;
use moxen::common::MoxenError;
use moxen::moxen::download::accept_package;
use moxen::moxen::download::plan_downloads;
use moxen::moxen::download::record_downloads;
use moxen::moxen::manifest::Metadata;
use moxen::moxen::manifest::PackageManifest;

fn manifest_with_deps(deps: Option<Vec<String>>) -> PackageManifest {
    PackageManifest {
        mox: Metadata {
            name: "Host".to_string(),
            version: None,
            wow_version: "11.0.1".to_string(),
            description: String::new(),
            categories: None,
            authors: vec![],
            homepage: None,
            repository: None,
            dependencies: deps,
            ignore: None,
        },
    }
}

#[test]
fn plan_spawns_only_for_absent_targets() {
    let requested: Vec<String> =
        ["d1", "d2", "d3", "d4", "d5"].iter().map(|s| s.to_string()).collect();
    let present = vec![true, true, false, false, false];
    let to_fetch = plan_downloads(&requested, &present);
    assert_eq!(to_fetch, vec!["d3".to_string(), "d4".to_string(), "d5".to_string()]);
}

#[test]
fn five_requested_two_present_one_failure_yields_four_entries() {
    let requested: Vec<String> =
        ["d1", "d2", "d3", "d4", "d5"].iter().map(|s| s.to_string()).collect();
    let present = vec![true, true, false, false, false];
    let to_fetch = plan_downloads(&requested, &present);
    assert_eq!(to_fetch.len(), 3);

    // d5's fetch fails, so it never reaches the completion channel.
    let mut completed: Vec<String> = vec!["d1".to_string(), "d2".to_string()];
    for name in to_fetch {
        if name != "d5" {
            completed.push(name);
        }
    }

    let mut m = manifest_with_deps(None);
    record_downloads(&mut m, &completed);
    let deps = m.mox.dependencies.unwrap();
    assert_eq!(deps.len(), 4);
    assert_eq!(deps, vec!["d1".to_string(), "d2".to_string(), "d3".to_string(), "d4".to_string()]);
    assert!(!deps.contains(&"d5".to_string()));
}

#[test]
fn recording_respects_idempotent_insertion() {
    let mut m = manifest_with_deps(Some(vec!["alpha".to_string()]));
    let completed = vec!["beta".to_string(), "alpha".to_string(), "beta".to_string()];
    record_downloads(&mut m, &completed);
    assert_eq!(m.mox.dependencies.unwrap(), vec!["alpha".to_string(), "beta".to_string()]);
}

#[test]
fn fetched_package_is_verified_before_unpacking() {
    let package: Vec<u8> = b"archive bytes".to_vec();
    let digest = checksum(&package);
    assert!(accept_package(&package, &digest).is_ok());
    let mut tampered = package.clone();
    tampered[0] ^= 1;
    assert!(matches!(
        accept_package(&tampered, &digest),
        Err(MoxenError::ChecksumFailure(_, _))
    ));
}
