use redb_opfs::Error;
use redb_opfs::ErrorKind;
use redb_opfs::HostSignal;
use redb_opfs::translate_acquire_signal;
use redb_opfs::translate_signal;

fn exception(code: u16, name: &str, message: &str) -> HostSignal {
    HostSignal::Exception { code, name: name.to_string(), message: message.to_string() }
}

#[test]
fn not_found_code_maps_to_not_found() {
    let err = translate_signal(exception(8, "NotFoundError", "no such entry"));
    assert_eq!(err.kind(), ErrorKind::NotFound);
    assert_eq!(err.describe(), "NotFoundError: no such entry".to_string());
}

#[test]
fn forbidden_codes_map_to_permission_denied() {
    let err = translate_signal(exception(6, "NoDataAllowedError", "denied"));
    assert_eq!(err.kind(), ErrorKind::PermissionDenied);
    let err = translate_signal(exception(7, "NoModificationAllowedError", "denied"));
    assert_eq!(err.kind(), ErrorKind::PermissionDenied);
}

#[test]
fn type_mismatch_code_maps_to_type_mismatch() {
    let err = translate_signal(exception(17, "TypeMismatchError", "file where directory expected"));
    assert_eq!(err.kind(), ErrorKind::TypeMismatch);
}

#[test]
fn unknown_codes_map_to_other_with_name_and_message() {
    let err = translate_signal(exception(0, "QuotaExceededError", "storage full"));
    assert_eq!(err.kind(), ErrorKind::Other);
    assert_eq!(err.describe(), "QuotaExceededError: storage full".to_string());
}

#[test]
fn opaque_signals_map_to_other_with_their_text() {
    let err = translate_signal(HostSignal::Opaque { text: "something threw".to_string() });
    assert_eq!(err.kind(), ErrorKind::Other);
    assert_eq!(err.describe(), "something threw".to_string());
}

#[test]
fn held_handle_maps_to_contention_during_acquisition() {
    let err = translate_acquire_signal(exception(
        7,
        "NoModificationAllowedError",
        "access handle already open",
    ));
    assert_eq!(err.kind(), ErrorKind::Contention);
    assert_eq!(err.describe(), "NoModificationAllowedError: access handle already open".to_string());
}

#[test]
fn acquisition_keeps_the_other_mappings() {
    let err = translate_acquire_signal(exception(8, "NotFoundError", "gone"));
    assert_eq!(err.kind(), ErrorKind::NotFound);
}

#[test]
fn cause_chains_keep_every_message_in_order() {
    let inner = Error::new(ErrorKind::Other, "host refused".to_string());
    let mid = Error::with_cause(ErrorKind::PermissionDenied, "cannot write page".to_string(), inner);
    let outer = Error::with_cause(ErrorKind::Other, "commit failed".to_string(), mid);
    assert_eq!(
        outer.chain_messages(),
        vec!["commit failed".to_string(), "cannot write page".to_string(), "host refused".to_string()]
    );
    assert_eq!(outer.describe(), "commit failed: cannot write page: host refused".to_string());
    assert_eq!(outer.kind(), ErrorKind::Other);
}

#[test]
fn kind_names_tag_every_category() {
    let cases = [
        (ErrorKind::NotFound, "NotFound"),
        (ErrorKind::PermissionDenied, "PermissionDenied"),
        (ErrorKind::InvalidInput, "InvalidInput"),
        (ErrorKind::TypeMismatch, "TypeMismatch"),
        (ErrorKind::Contention, "Contention"),
        (ErrorKind::AlreadyInitialized, "AlreadyInitialized"),
        (ErrorKind::NotInitialized, "NotInitialized"),
        (ErrorKind::Other, "Other"),
    ];
    for (kind, name) in cases {
        let err = Error::new(kind, "m".to_string());
        assert_eq!(err.kind_name(), name.to_string());
    }
}

#[test]
fn outward_names_carry_the_host_suffix() {
    let err = Error::new(ErrorKind::NotFound, "gone".to_string());
    assert_eq!(err.outward_name(), "NotFoundError".to_string());
    let err = Error::new(ErrorKind::Contention, "held".to_string());
    assert_eq!(err.outward_name(), "ContentionError".to_string());
}
