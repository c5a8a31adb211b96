use std::io::Read;
use std::io::Write;

use secret_loader::LoadError;
use secret_loader::Lookup;
use secret_loader::SecretLoader;
use secret_loader::SecretText;
use secret_loader::VarFailure;
use tempfile::NamedTempFile;

/// The variables that a test has set.
fn setup_env(value: Option<&str>) -> Vec<(String, String)> {
    match value {
        Some(value) => vec![("SECRET".to_string(), value.to_string())],
        None => vec![],
    }
}

fn read_env(vars: &[(String, String)], name: &str) -> Result<String, VarFailure> {
    match vars.iter().find(|(key, _)| key == name) {
        Some((_, value)) => Ok(value.clone()),
        None => Err(VarFailure::NotPresent),
    }
}

fn env_is_set(vars: &[(String, String)]) -> bool {
    read_env(vars, "SECRET").is_ok()
}

/// Looks up in `vars` the variable that the loader names.
fn lookup_env(loader: &SecretLoader, vars: &[(String, String)]) -> Lookup {
    match loader {
        SecretLoader::Env(name) => Lookup::Env(read_env(vars, name)),
        _ => panic!("Wrong loader type"),
    }
}

#[test]
fn loader_parse_env() {
    let cred = "env:SECRET".parse().unwrap();
    match cred {
        SecretLoader::Env(env_var) => {
            assert_eq!(env_var, "SECRET");
        }
        _ => panic!("Wrong loader type"),
    }
}

#[test]
fn loader_parse_file() {
    let cred = "file:/home/user/.secrets".parse().unwrap();
    match cred {
        SecretLoader::File(path) => {
            assert_eq!(path, "/home/user/.secrets");
        }
        _ => panic!("Wrong loader type"),
    }
}

#[test]
fn loader_parse_plain() {
    let cred = "plaincredentialstorageisbad".parse().unwrap();
    match cred {
        SecretLoader::Plain(secret) => {
            assert_eq!(secret.expose_secret(), "plaincredentialstorageisbad");
        }
        _ => panic!("Wrong loader type"),
    }
}

#[test]
fn loader_secret_from_env_present() {
    let cred: SecretLoader = "env:SECRET".parse().unwrap();

    let vars = setup_env(Some("superenvsecret"));
    assert!(env_is_set(&vars));

    let lookup = lookup_env(&cred, &vars);
    let secret: SecretText = cred.into_secret(lookup).unwrap();
    assert_eq!(secret.expose_secret(), "superenvsecret");
}

#[test]
fn loader_secret_from_env_missing() {
    let cred: SecretLoader = "env:SECRET".parse().unwrap();

    let vars = setup_env(None);
    assert!(!env_is_set(&vars));

    let lookup = lookup_env(&cred, &vars);
    let secret: Result<SecretText, _> = cred.into_secret(lookup);

    assert!(matches!(secret.unwrap_err(), LoadError::Env(_)));
}

#[test]
fn loader_secret_from_file_present() {
    let mut tempfile = NamedTempFile::new().unwrap();
    tempfile.write_all(b"superfilesecret").unwrap();
    let mut reader = tempfile.reopen().unwrap();
    let tempfile = tempfile.into_temp_path();

    let cred: SecretLoader = format!("file:{}", tempfile.display()).parse().unwrap();
    let lookup = match &cred {
        SecretLoader::File(path) => {
            assert_eq!(path.as_std_path(), &*tempfile);
            let mut text = String::new();
            Lookup::File(reader.read_to_string(&mut text).map(|_| text))
        }
        _ => panic!("Wrong loader type"),
    };
    let secret: SecretText = cred.into_secret(lookup).unwrap();

    assert_eq!(secret.expose_secret(), "superfilesecret");
    tempfile.close().unwrap();
}

#[test]
fn loader_secret_from_file_missing() {
    let cred: SecretLoader = "file:/does/not/exist".parse().unwrap();

    let lookup = match &cred {
        SecretLoader::File(path) => {
            assert!(!path.exists());
            Lookup::File(Err(std::io::Error::from(std::io::ErrorKind::NotFound)))
        }
        _ => panic!("Wrong loader type"),
    };
    let secret: Result<SecretText, _> = cred.into_secret(lookup);

    assert!(matches!(secret.unwrap_err(), LoadError::Io(_)));
}

#[test]
fn loader_secret_from_plain() {
    let cred: SecretLoader = "plaincredentialstorageisbad".parse().unwrap();
    let secret: SecretText = cred.into_secret(Lookup::NotNeeded).unwrap();

    assert_eq!(secret.expose_secret(), "plaincredentialstorageisbad");
}
