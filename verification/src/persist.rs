//! Path and error-message computation for the recording persister.
//!
//! The persister writes a byte payload to
//! `<app-data dir>/recordings/<filename>`. The filesystem work happens
//! outside this crate; what is computed here is the target path and the
//! message reported when a persistence step fails.

use vstd::prelude::*;
use vstd::string::StringExecFns;

verus! {

/// The path of the recordings directory under the application-data
/// directory: `<base>/recordings`.
pub open spec fn spec_recordings_dir(base: Seq<char>) -> Seq<char> {
    base + "/recordings"@
}

/// The path under which a payload with the given filename is stored:
/// `<base>/recordings/<filename>`. The filename is trusted as given;
/// no sanitization is applied.
pub open spec fn spec_recording_path(base: Seq<char>, filename: Seq<char>) -> Seq<char> {
    base + "/recordings/"@ + filename
}

/// Computes the recordings directory under the application-data directory.
pub fn recordings_dir(app_data_dir: &str) -> (r: String)
    ensures
        r@ == spec_recordings_dir(app_data_dir@),
{
    let mut s = app_data_dir.to_owned();
    s.append("/recordings");
    s
}

/// Computes the full path of a stored recording.
pub fn recording_path(app_data_dir: &str, filename: &str) -> (r: String)
    ensures
        r@ == spec_recording_path(app_data_dir@, filename@),
{
    let mut s = app_data_dir.to_owned();
    s.append("/recordings/");
    s.append(filename);
    s
}

/// Law: the stored file's path is the recordings directory, a path
/// separator, then the filename, so every stored file lies in the
/// directory the persister creates.
pub proof fn lemma_recording_path_in_dir(base: Seq<char>, filename: Seq<char>)
    ensures
        spec_recording_path(base, filename) == spec_recordings_dir(base) + "/"@ + filename,
{
    reveal_strlit("/recordings");
    reveal_strlit("/recordings/");
    reveal_strlit("/");
    assert(spec_recording_path(base, filename) =~= spec_recordings_dir(base) + "/"@
        + filename);
}

/// The steps of the persister at which an I/O failure can surface.
#[derive(Clone, Copy, Debug)]
pub enum PersistStep {
    /// Resolving the per-user application-data directory.
    ResolveAppDataDir,
    /// Creating the recordings directory (with missing parents).
    CreateRecordingsDir,
    /// Creating (or truncating) the target file.
    CreateFile,
    /// Writing the payload bytes.
    WriteFile,
}

/// The message reported when the given persistence step fails, with the
/// underlying error text appended.
pub open spec fn spec_persist_error(step: PersistStep, detail: Seq<char>) -> Seq<char> {
    match step {
        PersistStep::ResolveAppDataDir => "Failed to resolve AppData dir: "@ + detail,
        PersistStep::CreateRecordingsDir => "Failed to create recordings dir: "@ + detail,
        PersistStep::CreateFile => "Failed to create file: "@ + detail,
        PersistStep::WriteFile => "Failed to write file content: "@ + detail,
    }
}

/// Builds the error message for a failed persistence step.
pub fn persist_error(step: PersistStep, detail: &str) -> (r: String)
    ensures
        r@ == spec_persist_error(step, detail@),
{
    let prefix: &str = match step {
        PersistStep::ResolveAppDataDir => "Failed to resolve AppData dir: ",
        PersistStep::CreateRecordingsDir => "Failed to create recordings dir: ",
        PersistStep::CreateFile => "Failed to create file: ",
        PersistStep::WriteFile => "Failed to write file content: ",
    };
    let mut s = prefix.to_owned();
    s.append(detail);
    s
}

} // verus!
