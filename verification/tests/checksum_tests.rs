use moxen::common::checksum;
use moxen::common::gather_files;
use moxen::common::invalid_filetypes;
use moxen::common::validate_package_checksum;
use moxen::common::MoxenError;

#[test]
fn checksum_of_known_vectors() {
    assert_eq!(checksum(b""), "da39a3ee5e6b4b0d3255bfef95601890afd80709");
    assert_eq!(checksum(b"abc"), "a9993e364706816aba3e25717850c26c9cd0d89d");
}

#[test]
fn validate_accepts_own_checksum() {
    let data: Vec<u8> = b"some package bytes".to_vec();
    let digest = checksum(&data);
    assert!(validate_package_checksum(&data, &digest).is_ok());
}

#[test]
fn validate_rejects_flipped_digit_naming_both_digests() {
    let data: Vec<u8> = b"abc".to_vec();
    let good = "a9993e364706816aba3e25717850c26c9cd0d89d";
    let flipped = "b9993e364706816aba3e25717850c26c9cd0d89d";
    match validate_package_checksum(&data, flipped) {
        Err(MoxenError::ChecksumFailure(actual, expected)) => {
            assert_eq!(actual, good);
            assert_eq!(expected, flipped);
        }
        other => panic!("expected a checksum failure, got {:?}", other),
    }
}

#[test]
fn checksum_failure_message_names_both() {
    let err = MoxenError::ChecksumFailure("aa".to_string(), "bb".to_string());
    assert_eq!(err.message(), "checksum failure: aa doesn't match expected bb\n");
}

#[test]
fn error_messages_render() {
    assert_eq!(MoxenError::MissingTocFile.message(), "missing required toc file\n");
    assert_eq!(MoxenError::MissingManifestFile.message(), "missing Moxen.toml file\n");
    assert_eq!(
        MoxenError::InvalidFileExtension("exe".to_string()).message(),
        "invalid file extension found - exe\n"
    );
    assert_eq!(MoxenError::ProjectAlreadyExists.message(), "project already exists\n");
    assert_eq!(
        MoxenError::ProjectNotFound("pkg".to_string()).message(),
        "project not found in registry - pkg\n"
    );
    assert_eq!(MoxenError::ConfigError("x".to_string()).message(), "config error: x\n");
    assert_eq!(MoxenError::LoadError("y".to_string()).message(), "loading error: y\n");
    assert_eq!(
        MoxenError::InvalidUsername("too short".to_string()).message(),
        "invalid username: too short\n"
    );
    assert_eq!(
        MoxenError::ApiError("boom".to_string()).message(),
        "moxen registry api error: boom\n"
    );
    assert_eq!(MoxenError::AuthError("denied".to_string()).message(), "authentication error: denied\n");
    assert_eq!(MoxenError::GeneralError("oops".to_string()).message(), "error occurred: oops\n");
}

#[test]
fn invalid_filetypes_gate() {
    assert!(invalid_filetypes(&"addon/start.lua".to_string()).is_ok());
    assert!(invalid_filetypes(&"notes".to_string()).is_ok());
    assert!(invalid_filetypes(&".gitignore".to_string()).is_ok());
    assert!(invalid_filetypes(&"archive.tar.gz".to_string()).is_ok());
    match invalid_filetypes(&"src/main.rs".to_string()) {
        Err(MoxenError::InvalidFileExtension(ext)) => assert_eq!(ext, "rs"),
        other => panic!("expected an extension error, got {:?}", other),
    }
    match invalid_filetypes(&"tool.exe".to_string()) {
        Err(MoxenError::InvalidFileExtension(ext)) => assert_eq!(ext, "exe"),
        other => panic!("expected an extension error, got {:?}", other),
    }
}

#[test]
fn gather_files_returns_listing_or_first_offender() {
    let ok = vec!["a.toc".to_string(), "sub/b.lua".to_string()];
    assert_eq!(gather_files(ok.clone()).unwrap(), ok);
    let bad = vec!["a.toc".to_string(), "bin/x.cpp".to_string(), "y.exe".to_string()];
    match gather_files(bad) {
        Err(MoxenError::InvalidFileExtension(ext)) => assert_eq!(ext, "cpp"),
        other => panic!("expected an extension error, got {:?}", other),
    }
}
