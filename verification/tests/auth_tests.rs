use moxen::common::MoxenError;
use moxen::moxen::auth::generate_keyfile_pair;
use moxen::moxen::auth::validate_username;
use moxen::moxen::auth::MoxenKeyPair;
use moxen::moxen::config::MoxenConfig;
use moxen::moxen::config::MoxenCredentials;

fn empty_config() -> MoxenConfig {
    MoxenConfig { file_path: "/mox/config".to_string(), credentials: None }
}

#[test]
fn username_rules_run_in_order() {
    assert!(validate_username("moxen_fan_99").is_ok());
    match validate_username("ab") {
        Err(MoxenError::InvalidUsername(msg)) => {
            assert_eq!(msg, "username must be at least 3 characters long")
        }
        other => panic!("expected a length error, got {:?}", other),
    }
    match validate_username("has space") {
        Err(MoxenError::InvalidUsername(msg)) => assert_eq!(
            msg,
            "invalid characters in username. allowed characters are letters, numbers, and _"
        ),
        other => panic!("expected a charset error, got {:?}", other),
    }
    match validate_username("café") {
        Err(MoxenError::InvalidUsername(msg)) => assert!(msg.starts_with("invalid characters")),
        other => panic!("expected a charset error, got {:?}", other),
    }
    match validate_username("fuck123") {
        Err(MoxenError::InvalidUsername(msg)) => {
            assert_eq!(msg, "inappropriate username, watch your profanity!")
        }
        other => panic!("expected a profanity rejection, got {:?}", other),
    }
}

#[test]
fn keypair_generation_stores_credentials_once() {
    let mut config = empty_config();
    let keypair = generate_keyfile_pair(&mut config).unwrap();
    let creds = config.credentials.as_ref().unwrap().clone();
    assert!(creds.api_key.is_none());
    assert!(!creds.private_key.is_empty());
    let public = keypair.public_key_as_string();
    assert_eq!(public.len(), 44);
    match generate_keyfile_pair(&mut config) {
        Err(MoxenError::ConfigError(msg)) => assert!(msg.contains("already")),
        other => panic!("expected a config error, got {:?}", other),
    }
}

#[test]
fn stored_key_round_trips_to_the_same_identity() {
    let mut config = empty_config();
    let keypair = generate_keyfile_pair(&mut config).unwrap();
    let stored = config.credentials.as_ref().unwrap().private_key.clone();
    let reloaded = MoxenKeyPair::from_private_key(&stored).unwrap();
    assert_eq!(keypair.public_key_as_string(), reloaded.public_key_as_string());
    assert_eq!(keypair.sign_message("challenge"), reloaded.sign_message("challenge"));
}

#[test]
fn signing_is_deterministic_and_text_safe() {
    let mut config = empty_config();
    let keypair = generate_keyfile_pair(&mut config).unwrap();
    let s1 = keypair.sign_message("the registry says hi");
    let s2 = keypair.sign_message("the registry says hi");
    assert_eq!(s1, s2);
    assert_eq!(s1.len(), 88);
    assert!(s1.is_ascii());
    let other = keypair.sign_message("a different challenge");
    assert_ne!(s1, other);
}

#[test]
fn bad_key_material_is_rejected() {
    assert!(MoxenKeyPair::new(b"not a pkcs8 document").is_err());
    assert!(matches!(
        MoxenKeyPair::from_private_key("!!! not base64 !!!"),
        Err(MoxenError::GeneralError(_))
    ));
    assert!(MoxenKeyPair::from_private_key("YWJj").is_err());
}

#[test]
fn existing_credentials_are_never_overwritten() {
    let mut config = MoxenConfig {
        file_path: "/mox/config".to_string(),
        credentials: Some(MoxenCredentials {
            username: "somebody".to_string(),
            private_key: "opaque".to_string(),
            api_key: Some("SECRET-REDACTED".to_string()),
        }),
    };
    assert!(generate_keyfile_pair(&mut config).is_err());
    let creds = config.credentials.unwrap();
    assert_eq!(creds.username, "somebody");
    assert_eq!(creds.private_key, "opaque");
    assert_eq!(creds.api_key.as_deref(), Some("SECRET-REDACTED"));
}
