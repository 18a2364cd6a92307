use local_ta::startup::{
    check_records_dir, service_name, StartupError, GK_DIR, GK_INSTANCE, GK_SERVICE, SECRET_SERVICE,
    SERVICE_INSTANCE, SS_INSTANCE,
};

#[test]
fn a_missing_directory_stops_the_start() {
    let r = check_records_dir(GK_DIR.to_string(), Ok(false), false);
    let e = r.err().unwrap();
    assert_eq!(e, StartupError::Missing { dir: GK_DIR.to_string() });
    assert_eq!(
        e.message(),
        "Required directory \"/data/vendor/gatekeeper/nonsecure\" does not exist!"
    );
}

#[test]
fn a_missing_directory_is_missing_whatever_else_was_found() {
    let r = check_records_dir("/nowhere".to_string(), Ok(false), true);
    assert_eq!(r.err(), Some(StartupError::Missing { dir: "/nowhere".to_string() }));
}

#[test]
fn a_file_in_place_of_the_directory_stops_the_start() {
    let r = check_records_dir("/etc/hosts".to_string(), Ok(true), false);
    let e = r.err().unwrap();
    assert_eq!(e, StartupError::NotADirectory { dir: "/etc/hosts".to_string() });
    assert_eq!(e.message(), "Required directory \"/etc/hosts\" is not a directory!");
}

#[test]
fn a_failed_probe_stops_the_start() {
    let r = check_records_dir("/data".to_string(), Err("PermissionDenied".to_string()), true);
    let e = r.err().unwrap();
    assert_eq!(
        e,
        StartupError::ProbeFailed { dir: "/data".to_string(), cause: "PermissionDenied".to_string() }
    );
    assert_eq!(e.message(), "Failed to determine if \"/data\" exists: PermissionDenied");
}

#[test]
fn a_directory_that_is_there_lets_the_service_start() {
    let dir = check_records_dir(GK_DIR.to_string(), Ok(true), true).ok().unwrap();
    assert_eq!(dir.path(), "/data/vendor/gatekeeper/nonsecure");
}

#[test]
fn a_failed_registration_names_the_service() {
    let e = StartupError::RegistrationFailed {
        service: service_name(GK_SERVICE, GK_INSTANCE),
        cause: "Status(-1)".to_string(),
    };
    assert_eq!(
        e.message(),
        "Failed to register service android.hardware.gatekeeper.IGatekeeper/default: Status(-1)"
    );
}

#[test]
fn services_are_named_by_interface_and_instance() {
    assert_eq!(
        service_name(SECRET_SERVICE, SS_INSTANCE),
        "android.hardware.security.sharedsecret.ISharedSecret/gatekeeper"
    );
    assert_eq!(service_name(GK_SERVICE, GK_INSTANCE), "android.hardware.gatekeeper.IGatekeeper/default");
    assert_eq!(service_name("a", SERVICE_INSTANCE), "a/default");
    assert_eq!(service_name("", ""), "/");
}
