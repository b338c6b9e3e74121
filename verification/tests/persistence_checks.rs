use sysreport::save::{
    dir_create_outcome, report_file_name, report_path, resolve_destination, save_error_message,
    success_message, write_outcome, DirProbe, SaveError,
};

fn probe(home: Option<&str>, desktop: bool, escritorio: bool, documents: bool) -> DirProbe {
    DirProbe {
        home: home.map(|h| h.to_string()),
        desktop_exists: desktop,
        escritorio_exists: escritorio,
        documents_exists: documents,
    }
}

#[test]
fn desktop_is_preferred_when_it_exists() {
    let r = resolve_destination(&probe(Some("/home/u"), true, false, true));
    assert_eq!(r.unwrap(), "/home/u/Desktop");
}

#[test]
fn localized_desktop_name_is_the_alternate() {
    let r = resolve_destination(&probe(Some("/home/u"), false, true, true));
    assert_eq!(r.unwrap(), "/home/u/Escritorio");
}

#[test]
fn documents_is_used_when_desktop_is_absent() {
    let r = resolve_destination(&probe(Some("/home/u"), false, false, true));
    assert_eq!(r.unwrap(), "/home/u/Documents");
}

#[test]
fn home_itself_is_the_last_resort() {
    let r = resolve_destination(&probe(Some("/home/u"), false, false, false));
    assert_eq!(r.unwrap(), "/home/u");
}

#[test]
fn missing_home_is_the_only_fatal_probe_outcome() {
    let r = resolve_destination(&probe(None, true, true, true));
    assert!(matches!(r, Err(SaveError::DestinationUnavailable)));
}

#[test]
fn report_path_uses_the_canonical_file_name() {
    assert_eq!(report_file_name(), "reporte_sistema.txt");
    assert_eq!(report_path("/home/u/Desktop"), "/home/u/Desktop/reporte_sistema.txt");
}

#[test]
fn repeated_saves_resolve_to_one_path() {
    let p = probe(Some("/home/u"), true, false, false);
    let first = report_path(&resolve_destination(&p).unwrap());
    let second = report_path(&resolve_destination(&p).unwrap());
    assert_eq!(first, second);
    assert_eq!(first, "/home/u/Desktop/reporte_sistema.txt");
}

#[test]
fn directory_creation_success_hands_the_canonical_path_on() {
    let r = dir_create_outcome("/home/u/Desktop", None);
    assert_eq!(r.unwrap(), "/home/u/Desktop/reporte_sistema.txt");
}

#[test]
fn directory_creation_failure_is_surfaced_as_typed_error() {
    let r = dir_create_outcome("/home/u/Desktop", Some("read-only file system".to_string()));
    match r {
        Err(SaveError::DirectoryCreateFailed { message }) => {
            assert_eq!(message, "read-only file system");
        }
        other => panic!("expected DirectoryCreateFailed, got {:?}", other),
    }
}

#[test]
fn write_success_yields_the_confirmation() {
    let r = write_outcome("/home/u/Desktop/reporte_sistema.txt", None);
    assert_eq!(r.unwrap(), "Report saved to: /home/u/Desktop/reporte_sistema.txt");
}

#[test]
fn write_failure_carries_code_and_text() {
    let r = write_outcome("/p", Some((28, "No space left on device".to_string())));
    match r {
        Err(SaveError::WriteFailed { code, message }) => {
            assert_eq!(code, 28);
            assert_eq!(message, "No space left on device");
        }
        other => panic!("expected WriteFailed, got {:?}", other),
    }
}

#[test]
fn success_message_names_the_written_path() {
    assert_eq!(
        success_message("/home/u/Desktop/reporte_sistema.txt"),
        "Report saved to: /home/u/Desktop/reporte_sistema.txt"
    );
}

#[test]
fn destination_unavailable_message_is_fixed() {
    assert_eq!(
        save_error_message(&SaveError::DestinationUnavailable),
        "No usable destination directory could be determined"
    );
}

#[test]
fn directory_create_error_carries_the_os_text() {
    let e = SaveError::DirectoryCreateFailed { message: "permission denied".to_string() };
    assert_eq!(
        save_error_message(&e),
        "Could not create the destination directory: permission denied"
    );
}

#[test]
fn write_error_carries_code_and_text() {
    let e = SaveError::WriteFailed { code: 13, message: "Permission denied".to_string() };
    assert_eq!(
        save_error_message(&e),
        "Could not write the report (OS error 13): Permission denied"
    );
}
