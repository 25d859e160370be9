//! Where the language server comes from, where it lives once its archive has
//! been unpacked, and the messages that report a failed installation.

use vstd::prelude::*;

verus! {

/// Directory, relative to the extension's working directory, into which the
/// archive is unpacked.
pub const EXT_DIR: &'static str = "lobster_ext_dist";

/// Location of the server's entry script inside the unpacked archive.
pub const SERVER_PATH: &'static str = "lsp/webpack-out/lobster_lsp.js";

/// Address of the archive that carries the language server.
pub const VSC_EXT_URL: &'static str =
    "http://github.com/aardappel/lobster/raw/master/docs/vscode/lobster.vsix";

/// The path of the server's entry script: the unpack directory, a slash, and
/// the script's location inside the archive.
pub open spec fn server_script_path_spec() -> Seq<char> {
    EXT_DIR@ + "/"@ + SERVER_PATH@
}

/// The message for a download that failed for `reason`.
pub open spec fn download_failure_spec(reason: Seq<char>) -> Seq<char> {
    "failed to download file: "@ + reason
}

/// The message for a `path` that exists without being a regular file.
pub open spec fn not_a_file_spec(path: Seq<char>) -> Seq<char> {
    path + " found but it is not a file"@
}

/// Builds the path under which the server's entry script is expected after
/// the archive has been unpacked.
pub fn server_script_path() -> (path: String)
    ensures
        path@ == server_script_path_spec(),
{
    let mut path = String::from_str(EXT_DIR);
    path.append("/");
    path.append(SERVER_PATH);
    path
}

/// Builds the message that reports a failed download, keeping the host's
/// own `reason` at its end.
pub fn download_failure(reason: &str) -> (message: String)
    ensures
        message@ == download_failure_spec(reason@),
{
    let mut message = String::from_str("failed to download file: ");
    message.append(reason);
    message
}

/// Builds the message that reports that `path` exists but is not a regular
/// file.
pub fn not_a_file(path: &str) -> (message: String)
    ensures
        message@ == not_a_file_spec(path@),
{
    let mut message = String::from_str(path);
    message.append(" found but it is not a file");
    message
}

} // verus!
