//! The report-persistence decision layer: destination resolution
//! across a fallback chain of user directories, the canonical report
//! path, and the messages a save returns.

use vstd::prelude::*;
use vstd::string::*;
use crate::numfmt::{dec_seq, u64_to_dec};

verus! {

/// What the user-directory probe found. The caller derives `home` from
/// the process's environment and reports which candidate directories
/// exist under it; no path is assumed to exist.
pub struct DirProbe {
    pub home: Option<String>,
    pub desktop_exists: bool,
    pub escritorio_exists: bool,
    pub documents_exists: bool,
}

pub struct DirProbeView {
    pub home: Option<Seq<char>>,
    pub desktop_exists: bool,
    pub escritorio_exists: bool,
    pub documents_exists: bool,
}

impl View for DirProbe {
    type V = DirProbeView;

    open spec fn view(&self) -> DirProbeView {
        DirProbeView {
            home: match self.home {
                Some(h) => Some(h@),
                None => None,
            },
            desktop_exists: self.desktop_exists,
            escritorio_exists: self.escritorio_exists,
            documents_exists: self.documents_exists,
        }
    }
}

/// Why a save failed. Probe failures never appear here: the only fatal
/// conditions are an unusable destination and filesystem errors.
#[derive(Debug)]
pub enum SaveError {
    /// No usable user directory could be determined at all.
    DestinationUnavailable,
    /// The resolved directory could not be created; carries the OS
    /// error text.
    DirectoryCreateFailed { message: String },
    /// The report file could not be created or written; carries the OS
    /// error code (0 when the OS gave none) and text.
    WriteFailed { code: u64, message: String },
}

pub enum SaveErrorView {
    DestinationUnavailable,
    DirectoryCreateFailed { message: Seq<char> },
    WriteFailed { code: u64, message: Seq<char> },
}

impl View for SaveError {
    type V = SaveErrorView;

    open spec fn view(&self) -> SaveErrorView {
        match self {
            SaveError::DestinationUnavailable => SaveErrorView::DestinationUnavailable,
            SaveError::DirectoryCreateFailed { message } => SaveErrorView::DirectoryCreateFailed {
                message: message@,
            },
            SaveError::WriteFailed { code, message } => SaveErrorView::WriteFailed {
                code: *code,
                message: message@,
            },
        }
    }
}

/// The destination directory for a known home: the Desktop directory
/// when it exists, then its localized alternate, then Documents, and
/// the home directory itself as the last resort.
pub open spec fn dest_dir_spec(
    home: Seq<char>,
    desktop: bool,
    escritorio: bool,
    documents: bool,
) -> Seq<char> {
    if desktop {
        home + "/Desktop"@
    } else if escritorio {
        home + "/Escritorio"@
    } else if documents {
        home + "/Documents"@
    } else {
        home
    }
}

/// Resolves the directory the report will be written to, without
/// assuming any path exists. Fails only when no home directory could
/// be determined — the sole fatal probe condition.
pub fn resolve_destination(p: &DirProbe) -> (r: Result<String, SaveError>)
    ensures
        match p@.home {
            Some(h) => r matches Ok(d) && d@ == dest_dir_spec(
                h,
                p.desktop_exists,
                p.escritorio_exists,
                p.documents_exists,
            ),
            None => r matches Err(e) && e@ is DestinationUnavailable,
        },
{
    match &p.home {
        Some(h) => {
            let mut d = h.clone();
            if p.desktop_exists {
                d.append("/Desktop");
            } else if p.escritorio_exists {
                d.append("/Escritorio");
            } else if p.documents_exists {
                d.append("/Documents");
            }
            Ok(d)
        },
        None => Err(SaveError::DestinationUnavailable),
    }
}

/// The canonical report file name; every save targets this single name,
/// so a second save overwrites the first rather than adding a file.
pub fn report_file_name() -> (r: &'static str)
    ensures
        r@ == "reporte_sistema.txt"@,
{
    "reporte_sistema.txt"
}

/// The full path of the report inside a resolved directory. The path
/// depends only on the directory — never on the report's content — so
/// repeated saves resolve to one and the same file.
pub fn report_path(dir: &str) -> (r: String)
    ensures
        r@ == dir@ + "/"@ + "reporte_sistema.txt"@,
{
    let mut p = String::from_str(dir);
    p.append("/");
    p.append(report_file_name());
    p
}

/// Folds the outcome of creating the destination directory into the
/// pipeline: success hands the canonical report path on, and a
/// filesystem error is surfaced as a typed error carrying the OS text —
/// never swallowed. Succeeds if and only if the directory was created.
pub fn dir_create_outcome(dir: &str, error: Option<String>) -> (r: Result<String, SaveError>)
    ensures
        match error {
            None => r matches Ok(p) && p@ == dir@ + "/"@ + "reporte_sistema.txt"@,
            Some(msg) => r matches Err(e) && e@ == (SaveErrorView::DirectoryCreateFailed {
                message: msg@,
            }),
        },
{
    match error {
        None => Ok(report_path(dir)),
        Some(message) => Err(SaveError::DirectoryCreateFailed { message }),
    }
}

/// Folds the outcome of writing the report file into the pipeline:
/// success yields the confirmation naming the written path, and a
/// filesystem error is surfaced as a typed error carrying the OS error
/// code and text. Succeeds if and only if the write did.
pub fn write_outcome(path: &str, error: Option<(u64, String)>) -> (r: Result<String, SaveError>)
    ensures
        match error {
            None => r matches Ok(m) && m@ == "Report saved to: "@ + path@,
            Some((c, msg)) => r matches Err(e) && e@ == (SaveErrorView::WriteFailed {
                code: c,
                message: msg@,
            }),
        },
{
    match error {
        None => Ok(success_message(path)),
        Some((code, message)) => Err(SaveError::WriteFailed { code, message }),
    }
}

pub open spec fn save_error_message_spec(e: SaveErrorView) -> Seq<char> {
    match e {
        SaveErrorView::DestinationUnavailable => "No usable destination directory could be determined"@,
        SaveErrorView::DirectoryCreateFailed { message } => "Could not create the destination directory: "@
            + message,
        SaveErrorView::WriteFailed { code, message } => "Could not write the report (OS error "@
            + dec_seq(code as nat) + "): "@ + message,
    }
}

/// The human-readable text for a save failure, carrying the OS-level
/// detail the caller is expected to display verbatim.
pub fn save_error_message(e: &SaveError) -> (r: String)
    ensures
        r@ == save_error_message_spec(e@),
{
    match e {
        SaveError::DestinationUnavailable => String::from_str(
            "No usable destination directory could be determined",
        ),
        SaveError::DirectoryCreateFailed { message } => {
            let mut s = String::from_str("Could not create the destination directory: ");
            s.append(message.as_str());
            s
        },
        SaveError::WriteFailed { code, message } => {
            let mut s = String::from_str("Could not write the report (OS error ");
            let c = u64_to_dec(*code);
            s.append(c.as_str());
            s.append("): ");
            s.append(message.as_str());
            s
        },
    }
}

/// The confirmation returned after a successful save, naming the
/// absolute path that was written.
pub fn success_message(path: &str) -> (r: String)
    ensures
        r@ == "Report saved to: "@ + path@,
{
    let mut s = String::from_str("Report saved to: ");
    s.append(path);
    s
}

} // verus!
