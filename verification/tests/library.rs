use vade::library::Library;
use vade::plugin::rust_storage_cache::RustStorageCache;
use vade::traits::{DidResolver, Logger, VcResolver};
use vade::{VadeError, VadeResult};

/// A logger that swallows everything; only here to pin down the logger type
/// parameter of `Library`.
struct NoopLogger;

impl Logger for NoopLogger {
    fn log(&self, _message: &str, _level: Option<&str>) {}
}

/// A DID resolver whose write path can be configured to fail; used to
/// exercise the all-or-nothing policy with mixed outcomes in one registry.
struct ToggleResolver {
    fail_writes: bool,
}

impl DidResolver for ToggleResolver {
    fn check_did(&self, _did_name: &str, _value: &str) -> VadeResult<()> {
        Err(VadeError::new("not responsible"))
    }

    fn get_did_document(&self, _key: &str) -> VadeResult<String> {
        Err(VadeError::new("nothing stored"))
    }

    fn set_did_document(&mut self, _key: &str, _value: &str) -> VadeResult<()> {
        if self.fail_writes {
            Err(VadeError::new("write refused"))
        } else {
            Ok(())
        }
    }
}

type StorageLibrary = Library<RustStorageCache, NoopLogger, RustStorageCache>;

//////////////////////////////////////////////////////////////////// library init
#[test]
fn library_can_be_created() {
    let _library: StorageLibrary = Library::new();
}

#[test]
fn library_did_can_set_dids() {
    let mut library: StorageLibrary = Library::new();
    let storage = RustStorageCache::new();
    library.register_did_resolver(Box::from(storage));

    match library.set_did_document("example_key", "example_value") {
        Ok(()) => (),
        Err(e) => panic!("{}", e.message()),
    }
    let fetched = library.get_did_document("example_key").unwrap();
    assert!(fetched == "example_value");
}

//////////////////////////////////////////////////////////////////// did resolver
#[test]
fn library_did_can_set_dids_with_two_resolvers_via_library_set() {
    let mut library: StorageLibrary = Library::new();
    let storage1 = RustStorageCache::new();
    library.register_did_resolver(Box::from(storage1));
    let storage2 = RustStorageCache::new();
    library.register_did_resolver(Box::from(storage2));

    match library.set_did_document("example_key", "example_value") {
        Ok(()) => (),
        Err(e) => panic!("{}", e.message()),
    }
    let fetched = library.get_did_document("example_key").unwrap();
    assert!(fetched == "example_value");
}

#[test]
fn library_did_can_set_dids_with_two_resolvers_via_storage_set() {
    let mut library: StorageLibrary = Library::new();

    let mut storage1 = RustStorageCache::new();
    match storage1.set_did_document("example_key1", "example_value1") {
        Ok(()) => (),
        Err(e) => panic!("{}", e.message()),
    }
    library.register_did_resolver(Box::from(storage1));

    let mut storage2 = RustStorageCache::new();
    match storage2.set_did_document("example_key2", "example_value2") {
        Ok(()) => (),
        Err(e) => panic!("{}", e.message()),
    }
    library.register_did_resolver(Box::from(storage2));

    let fetched = library.get_did_document("example_key1").unwrap();
    assert!(fetched == "example_value1");
    let fetched = library.get_did_document("example_key2").unwrap();
    assert!(fetched == "example_value2");
}

#[test]
fn library_did_can_check_dids() {
    let mut library: StorageLibrary = Library::new();
    let storage = RustStorageCache::new();
    library.register_did_resolver(Box::from(storage));

    match library.set_did_document("example_key", "example_value") {
        Ok(()) => (),
        Err(e) => panic!("{}", e.message()),
    }
    let fetched = library.get_did_document("example_key").unwrap();

    let is_valid = match library.check_did("test", &fetched) {
        Ok(_) => true,
        Err(_) => false,
    };
    assert!(is_valid == true);

    let is_valid = match library.check_did("unknown", &fetched) {
        Ok(_) => true,
        Err(_) => false,
    };
    assert!(is_valid == false);
}

///////////////////////////////////////////////////////////////////// vc resolver
#[test]
fn library_vc_can_set_vcs_with_two_resolvers_via_library_set() {
    let mut library: StorageLibrary = Library::new();
    let storage1 = RustStorageCache::new();
    library.register_vc_resolver(Box::from(storage1));
    let storage2 = RustStorageCache::new();
    library.register_vc_resolver(Box::from(storage2));

    match library.set_vc_document("example_key", "example_value") {
        Ok(()) => (),
        Err(e) => panic!("{}", e.message()),
    }
    let fetched = library.get_vc_document("example_key").unwrap();
    assert!(fetched == "example_value");
}

#[test]
fn library_vc_can_set_vcs_with_two_resolvers_via_storage_set() {
    let mut library: StorageLibrary = Library::new();

    let mut storage1 = RustStorageCache::new();
    match storage1.set_vc_document("example_key1", "example_value1") {
        Ok(()) => (),
        Err(e) => panic!("{}", e.message()),
    }
    library.register_vc_resolver(Box::from(storage1));

    let mut storage2 = RustStorageCache::new();
    match storage2.set_vc_document("example_key2", "example_value2") {
        Ok(()) => (),
        Err(e) => panic!("{}", e.message()),
    }
    library.register_vc_resolver(Box::from(storage2));

    let fetched = library.get_vc_document("example_key1").unwrap();
    assert!(fetched == "example_value1");
    let fetched = library.get_vc_document("example_key2").unwrap();
    assert!(fetched == "example_value2");
}

////////////////////////////////////////////////////////// aggregation policies
#[test]
fn library_get_returns_first_success_in_either_order() {
    // a resolver without the key fails, one with the key succeeds; the
    // succeeding value is returned whichever registration order is used
    let mut library: StorageLibrary = Library::new();
    let empty = RustStorageCache::new();
    let mut filled = RustStorageCache::new();
    filled.set("example_key", "example_value").unwrap();
    library.register_did_resolver(Box::from(empty));
    library.register_did_resolver(Box::from(filled));
    assert_eq!(library.get_did_document("example_key").unwrap(), "example_value");

    let mut library: StorageLibrary = Library::new();
    let empty = RustStorageCache::new();
    let mut filled = RustStorageCache::new();
    filled.set("example_key", "example_value").unwrap();
    library.register_did_resolver(Box::from(filled));
    library.register_did_resolver(Box::from(empty));
    assert_eq!(library.get_did_document("example_key").unwrap(), "example_value");
}

#[test]
fn library_get_fails_generically_when_all_resolvers_fail() {
    let mut library: StorageLibrary = Library::new();
    library.register_did_resolver(Box::from(RustStorageCache::new()));
    library.register_did_resolver(Box::from(RustStorageCache::new()));
    let err = library.get_did_document("absent_key").unwrap_err();
    assert_eq!(err.message(), "could not get did document");
}

#[test]
fn library_set_is_all_or_nothing() {
    // first resolver succeeds, second fails: the whole write reports failure
    // and no partial-success signal reaches the caller
    let mut library: Library<ToggleResolver, NoopLogger, RustStorageCache> = Library::new();
    library.register_did_resolver(Box::from(ToggleResolver { fail_writes: false }));
    library.register_did_resolver(Box::from(ToggleResolver { fail_writes: true }));
    let err = library.set_did_document("example_key", "example_value").unwrap_err();
    assert_eq!(err.message(), "could not set did document");
}

#[test]
fn library_check_fails_generically_when_no_resolver_confirms() {
    let mut library: StorageLibrary = Library::new();
    library.register_did_resolver(Box::from(RustStorageCache::new()));
    let err = library.check_did("unknown", "{}").unwrap_err();
    assert_eq!(err.message(), "did document not valid");

    library.register_vc_resolver(Box::from(RustStorageCache::new()));
    let err = library.check_vc("unknown", "{}").unwrap_err();
    assert_eq!(err.message(), "vc document not valid");
}

#[test]
fn library_set_vc_fails_generically_when_a_resolver_fails() {
    let mut library: Library<RustStorageCache, NoopLogger, FailingVcResolver> = Library::new();
    library.register_vc_resolver(Box::from(FailingVcResolver));
    let err = library.set_vc_document("example_key", "example_value").unwrap_err();
    assert_eq!(err.message(), "could not set vc document");
}

/// A VC resolver whose operations always fail; used to exercise the
/// all-or-nothing policy on the VC write path.
struct FailingVcResolver;

impl VcResolver for FailingVcResolver {
    fn check_vc(&self, _vc_id: &str, _value: &str) -> VadeResult<()> {
        Err(VadeError::new("always failing"))
    }

    fn get_vc_document(&self, _vc_id: &str) -> VadeResult<String> {
        Err(VadeError::new("always failing"))
    }

    fn set_vc_document(&mut self, _key: &str, _value: &str) -> VadeResult<()> {
        Err(VadeError::new("always failing"))
    }
}
