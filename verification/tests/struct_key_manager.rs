use key_vaulter::elicitation::{Elicitation, Step};
use key_vaulter::error::KeyError;
use key_vaulter::key_manager::Lookup;
use key_vaulter::override_source::OverrideSource;
use key_vaulter::record::{FieldValue, Record};
use key_vaulter::store::StoreFault;
use key_vaulter::struct_key_manager::StructKeyManager;
use keyring::credential::{Credential, CredentialApi, CredentialBuilderApi};
use std::any::Any;
use std::collections::HashMap;
use std::sync::{Arc, Mutex};

type Secrets = Arc<Mutex<HashMap<(String, String), Vec<u8>>>>;

/// A credential store in memory, shared by the entries that are made for it.
struct MemoryStore {
    secrets: Secrets,
}

struct MemoryCredential {
    secrets: Secrets,
    identity: (String, String),
}

impl CredentialApi for MemoryCredential {
    fn set_secret(&self, secret: &[u8]) -> keyring::Result<()> {
        self.secrets.lock().unwrap().insert(self.identity.clone(), secret.to_vec());
        Ok(())
    }

    fn get_secret(&self) -> keyring::Result<Vec<u8>> {
        self.secrets.lock().unwrap().get(&self.identity).cloned().ok_or(keyring::Error::NoEntry)
    }

    fn delete_credential(&self) -> keyring::Result<()> {
        self.secrets.lock().unwrap().remove(&self.identity).map(|_| ()).ok_or(keyring::Error::NoEntry)
    }

    fn as_any(&self) -> &dyn Any {
        self
    }
}

impl CredentialBuilderApi for MemoryStore {
    fn build(&self, _target: Option<&str>, service: &str, user: &str) -> keyring::Result<Box<Credential>> {
        Ok(Box::new(MemoryCredential {
            secrets: self.secrets.clone(),
            identity: (service.to_string(), user.to_string()),
        }))
    }

    fn as_any(&self) -> &dyn Any {
        self
    }
}

/// A credential store that cannot be used.
struct LockedStore;

struct LockedCredential;

impl CredentialApi for LockedCredential {
    fn set_secret(&self, _secret: &[u8]) -> keyring::Result<()> {
        Err(keyring::Error::NoStorageAccess("locked".into()))
    }

    fn get_secret(&self) -> keyring::Result<Vec<u8>> {
        Err(keyring::Error::PlatformFailure("locked".into()))
    }

    fn delete_credential(&self) -> keyring::Result<()> {
        Err(keyring::Error::PlatformFailure("locked".into()))
    }

    fn as_any(&self) -> &dyn Any {
        self
    }
}

impl CredentialBuilderApi for LockedStore {
    fn build(&self, _target: Option<&str>, _service: &str, _user: &str) -> keyring::Result<Box<Credential>> {
        Ok(Box::new(LockedCredential))
    }

    fn as_any(&self) -> &dyn Any {
        self
    }
}

/// Makes an empty store in memory the one that `keyring` uses, and hands
/// out its contents.
fn memory_store() -> Secrets {
    let secrets: Secrets = Arc::new(Mutex::new(HashMap::new()));
    keyring::set_default_credential_builder(Box::new(MemoryStore { secrets: secrets.clone() }));
    secrets
}

fn held(secrets: &Secrets, service: &str, user: &str) -> Option<String> {
    secrets
        .lock()
        .unwrap()
        .get(&(service.to_string(), user.to_string()))
        .map(|bytes| String::from_utf8(bytes.clone()).unwrap())
}

fn put(secrets: &Secrets, service: &str, user: &str, secret: &str) {
    secrets.lock().unwrap().insert((service.to_string(), user.to_string()), secret.as_bytes().to_vec());
}

/// What a read that falls back on the user gives where it has to ask.
fn ask(template: &Record) -> Lookup<Record, Elicitation> {
    Lookup::Ask { notice: "The key was not found.".to_string(), request: Elicitation::new(template) }
}

fn text(s: &str) -> FieldValue {
    FieldValue::Text(s.to_string())
}

/// A record with a text field `field1` and an integer field `field2`.
fn test_struct(field1: &str, field2: i64) -> Record {
    let mut record = Record::new();
    record.push("field1", text(field1));
    record.push("field2", FieldValue::Integer(field2));
    record
}

/// A record with a text field `name` and an integer field `age`.
fn profile(name: &str, age: i64) -> Record {
    let mut record = Record::new();
    record.push("name", text(name));
    record.push("age", FieldValue::Integer(age));
    record
}

#[test]
fn test_struct_key_manager_new() {
    let manager = StructKeyManager::new("key_manager_service", "test_struct_key", test_struct("", 0));
    assert_eq!(manager.key_manager.key_name, "test_struct_key");
}

#[test]
fn test_store_and_read_struct_key() {
    memory_store();
    let mut manager = StructKeyManager::new("key_manager_service", "test_struct_key", test_struct("", 0));
    let test_value = test_struct("value1", 42);
    manager.store_key(&test_value).unwrap();
    let read_value = manager.read_key().unwrap();
    assert_eq!(read_value, test_value);
}

#[test]
fn test_read_or_request_struct_key() {
    let secrets = memory_store();
    put(&secrets, "key_manager_service", "test_struct_key", "{\"field1\":\"kept\",\"field2\":7}");
    let mut manager = StructKeyManager::new("key_manager_service", "test_struct_key", test_struct("", 0));
    match manager.read_key() {
        Ok(value) => {
            assert_eq!(manager.read_or_request_key(), Lookup::Found(value));
        }
        Err(_) => {
            panic!("the store holds the record");
        }
    }
}

#[test]
fn test_delete_struct_key() {
    memory_store();
    let mut manager = StructKeyManager::new("key_manager_service", "test_struct_key", test_struct("", 0));
    let test_value = test_struct("value1", 42);
    manager.store_key(&test_value).unwrap();
    manager.delete_key().unwrap();
    let result = manager.read_key();
    assert!(result.is_err());
}

#[test]
fn new_struct_manager_keeps_the_template() {
    let manager = StructKeyManager::new("svc", "key", profile("", 0));
    assert_eq!(manager.key_manager.system_name, "svc");
    assert_eq!(manager.key_manager.key_value, None);
    assert_eq!(manager.key_manager.override_source, OverrideSource::disabled());
    assert_eq!(manager.template, profile("", 0));
}

#[test]
fn store_writes_the_text_of_the_record() {
    let secrets = memory_store();
    let mut manager = StructKeyManager::new("svc", "key", profile("", 0));
    assert_eq!(manager.store_key(&profile("Grace", 30)), Ok(()));
    assert_eq!(held(&secrets, "svc", "key").as_deref(), Some("{\"name\":\"Grace\",\"age\":30}"));
    assert_eq!(manager.key_manager.key_value.as_deref(), Some("{\"name\":\"Grace\",\"age\":30}"));
}

#[test]
fn store_then_read_returns_the_record() {
    let secrets = memory_store();
    put(&secrets, "svc", "key", "garbage");
    let mut manager = StructKeyManager::new("svc", "key", profile("", 0));
    manager.store_key(&profile("Grace", 30)).unwrap();
    assert_eq!(manager.read_key(), Ok(profile("Grace", 30)));
}

#[test]
fn second_record_overwrites_the_first() {
    let secrets = memory_store();
    let mut manager = StructKeyManager::new("svc", "key", profile("", 0));
    manager.store_key(&profile("Grace", 30)).unwrap();
    manager.store_key(&profile("Ada", 36)).unwrap();
    assert_eq!(manager.read_key(), Ok(profile("Ada", 36)));
    assert_eq!(secrets.lock().unwrap().len(), 1);
}

#[test]
fn store_refuses_a_record_of_another_shape() {
    let secrets = memory_store();
    let mut manager = StructKeyManager::new("svc", "key", profile("", 0));
    assert_eq!(manager.store_key(&test_struct("value1", 42)), Err(KeyError::DecodeError));
    assert_eq!(manager.store_key(&Record::new()), Err(KeyError::DecodeError));
    assert_eq!(held(&secrets, "svc", "key"), None);
    assert_eq!(manager.key_manager.key_value, None);
}

#[test]
fn read_of_a_missing_record_is_not_found() {
    memory_store();
    let mut manager = StructKeyManager::new("svc", "key", profile("", 0));
    assert_eq!(manager.read_key(), Err(KeyError::NotFound));
}

#[test]
fn read_of_text_that_does_not_decode_is_a_decode_error() {
    let secrets = memory_store();
    let mut manager = StructKeyManager::new("svc", "key", profile("", 0));
    put(&secrets, "svc", "key", "not json");
    assert_eq!(manager.read_key(), Err(KeyError::DecodeError));
    put(&secrets, "svc", "key", "{\"name\":\"Grace\"}");
    assert_eq!(manager.read_key(), Err(KeyError::DecodeError));
    put(&secrets, "svc", "key", "{\"name\":\"Grace\",\"age\":\"thirty\"}");
    assert_eq!(manager.read_key(), Err(KeyError::DecodeError));
    assert_eq!(manager.key_manager.key_value.as_deref(), Some("{\"name\":\"Grace\",\"age\":\"thirty\"}"));
}

#[test]
fn record_from_a_locked_store_is_a_store_error() {
    keyring::set_default_credential_builder(Box::new(LockedStore));
    let mut manager = StructKeyManager::new("svc", "key", profile("", 0));
    assert_eq!(manager.read_key(), Err(KeyError::StoreError));
    assert_eq!(manager.store_key(&profile("Grace", 30)), Err(KeyError::StoreError));
    assert_eq!(manager.delete_key(), Err(KeyError::StoreError));
}

#[test]
fn delete_then_read_of_a_record_is_not_found() {
    memory_store();
    let mut manager = StructKeyManager::new("svc", "key", profile("", 0));
    manager.store_key(&profile("Grace", 30)).unwrap();
    assert_eq!(manager.delete_key(), Ok(()));
    assert_eq!(manager.read_key(), Err(KeyError::NotFound));
    assert_eq!(manager.key_manager.key_value, None);
}

#[test]
fn delete_of_a_missing_record_is_a_store_error() {
    memory_store();
    let mut manager = StructKeyManager::new("svc", "key", profile("", 0));
    assert_eq!(manager.delete_key(), Err(KeyError::StoreError));
}

#[test]
fn override_wins_over_the_stored_record() {
    let secrets = memory_store();
    put(&secrets, "svc", "PROFILE", "{\"name\":\"Grace\",\"age\":30}");
    let mut manager = StructKeyManager::new("svc", "PROFILE", profile("", 0));
    manager.key_manager.override_source =
        OverrideSource::new(vec![("PROFILE".to_string(), "{\"name\":\"Ada\",\"age\":36}".to_string())]);
    assert_eq!(manager.read_key(), Ok(profile("Ada", 36)));
}

#[test]
fn read_or_request_elicits_a_missing_record_and_stores_it() {
    let secrets = memory_store();
    let mut manager = StructKeyManager::new("acct", "profile", profile("", 0));
    let mut session = match manager.read_or_request_key() {
        Lookup::Ask { notice, request } => {
            assert_eq!(notice, "The key was not found.");
            request
        }
        Lookup::Found(record) => panic!("nothing is stored, yet {:?} was found", record),
    };
    assert_eq!(session.prompt(), Some("Please enter the value for field 'name':".to_string()));
    assert_eq!(session.supply("Grace\n"), Step::Accepted);
    assert_eq!(session.prompt(), Some("Please enter the value for field 'age':".to_string()));
    assert_eq!(session.supply("30\n"), Step::Accepted);
    assert_eq!(session.prompt(), None);
    assert_eq!(manager.request_key(&session), Ok(profile("Grace", 30)));
    assert_eq!(held(&secrets, "acct", "profile").as_deref(), Some("{\"name\":\"Grace\",\"age\":30}"));
    assert_eq!(manager.read_key(), Ok(profile("Grace", 30)));
    assert_eq!(manager.read_or_request_key(), Lookup::Found(profile("Grace", 30)));
}

#[test]
fn read_or_request_elicits_over_text_that_does_not_decode() {
    let secrets = memory_store();
    put(&secrets, "svc", "key", "{\"name\":\"Grace\"}");
    let mut manager = StructKeyManager::new("svc", "key", profile("", 0));
    assert_eq!(manager.read_or_request_key(), ask(&profile("", 0)));
    let mut session = Elicitation::new(&manager.template);
    session.supply("Ada");
    session.supply("thirty-six");
    session.supply("36");
    assert_eq!(manager.request_key(&session), Ok(profile("Ada", 36)));
    assert_eq!(held(&secrets, "svc", "key").as_deref(), Some("{\"name\":\"Ada\",\"age\":36}"));
}

#[test]
fn read_or_request_elicits_when_the_store_is_locked() {
    keyring::set_default_credential_builder(Box::new(LockedStore));
    let mut manager = StructKeyManager::new("svc", "key", profile("", 0));
    assert_eq!(manager.read_or_request_key(), ask(&profile("", 0)));
    let mut session = Elicitation::new(&manager.template);
    session.supply("Ada");
    session.supply("36");
    assert_eq!(manager.request_key(&session), Err(KeyError::StoreError));
}

#[test]
fn request_with_answers_that_are_not_complete_is_an_input_error() {
    let secrets = memory_store();
    let mut manager = StructKeyManager::new("svc", "key", profile("", 0));
    let mut session = Elicitation::new(&manager.template);
    assert_eq!(manager.request_key(&session), Err(KeyError::InputError));
    session.supply("Grace");
    session.supply("no number");
    assert_eq!(manager.request_key(&session), Err(KeyError::InputError));
    assert_eq!(held(&secrets, "svc", "key"), None);
}

#[test]
fn request_with_answers_to_another_template_is_a_decode_error() {
    let secrets = memory_store();
    let mut manager = StructKeyManager::new("svc", "key", profile("", 0));
    let mut session = Elicitation::new(&test_struct("", 0));
    session.supply("value1");
    session.supply("42");
    assert_eq!(manager.request_key(&session), Err(KeyError::DecodeError));
    assert_eq!(held(&secrets, "svc", "key"), None);
}

#[test]
fn operations_with_a_given_reply() {
    let mut manager = StructKeyManager::new("svc", "key", profile("", 0));
    assert_eq!(manager.read_key_with(Err(StoreFault::NoEntry)), Err(KeyError::NotFound));
    assert_eq!(manager.read_key_with(Err(StoreFault::Platform)), Err(KeyError::StoreError));
    assert_eq!(manager.read_key_with(Ok("[]".to_string())), Err(KeyError::DecodeError));
    assert_eq!(
        manager.read_key_with(Ok("{\"age\":30,\"name\":\"Grace\"}".to_string())),
        Ok(profile("Grace", 30))
    );
    assert_eq!(manager.store_key_with(&profile("Ada", 36), Err(StoreFault::Platform)), Err(KeyError::StoreError));
    assert_eq!(manager.key_manager.key_value.as_deref(), Some("{\"age\":30,\"name\":\"Grace\"}"));
    assert_eq!(manager.store_key_with(&profile("Ada", 36), Ok(())), Ok(()));
    assert_eq!(manager.key_manager.key_value.as_deref(), Some("{\"name\":\"Ada\",\"age\":36}"));
    assert_eq!(manager.store_key_with(&Record::new(), Ok(())), Err(KeyError::DecodeError));
    assert_eq!(manager.delete_key_with(Err(StoreFault::NoEntry)), Err(KeyError::StoreError));
    assert_eq!(manager.delete_key_with(Ok(())), Ok(()));
    assert_eq!(manager.key_manager.key_value, None);
}

#[test]
fn fallback_with_a_given_reply() {
    let mut manager = StructKeyManager::new("svc", "key", profile("", 0));
    let fresh = Elicitation::new(&profile("", 0));
    assert_eq!(manager.read_or_request_key_with(Err(StoreFault::NoEntry)), ask(&profile("", 0)));
    assert_eq!(manager.read_or_request_key_with(Err(StoreFault::Platform)), ask(&profile("", 0)));
    assert_eq!(manager.read_or_request_key_with(Ok("{}".to_string())), ask(&profile("", 0)));
    assert_eq!(
        manager.read_or_request_key_with(Ok("{\"name\":\"Grace\",\"age\":30}".to_string())),
        Lookup::Found(profile("Grace", 30))
    );
    assert_eq!(manager.request_key_with(&fresh, Ok(())), Err(KeyError::InputError));
    let mut session = Elicitation::new(&profile("", 0));
    session.supply("Grace");
    session.supply("30");
    assert_eq!(manager.request_key_with(&session, Err(StoreFault::Platform)), Err(KeyError::StoreError));
    assert_eq!(manager.request_key_with(&session, Ok(())), Ok(profile("Grace", 30)));
}
