//! The work outside the library that a key press asks for, and the results
//! that come back from it.
//!
//! `App::handle_key` decides; the program around the library carries out
//! the returned `Effect` (file system, processes, system tools) and hands
//! what it found to the `App` method that the variant names.

use vstd::prelude::*;

verus! {

/// What running an external command gave.
pub enum CommandOutput {
    /// The command ran; its standard output and error, decoded lossily.
    Finished { stdout: String, stderr: String },
    /// The command could not be started; the error's text.
    Failed { error: String },
}

/// What a preview found at the path it was asked about.
pub enum PreviewSource {
    /// A directory, and the names of its entries in the order listed.
    Directory { entries: Vec<String> },
    /// A file that reads as text, and its contents.
    Text { content: String },
    /// A file that does not read as text, and its size in bytes (0 when
    /// that is unknown).
    Binary { size: u64 },
}

/// The kind of archive that extraction recognised by file name.
#[derive(Clone, Copy, PartialEq, Eq, Debug, Structural)]
pub enum ArchiveKind {
    /// `.tar.gz` or `.tgz`: unpacked with `tar -xzf`.
    TarGz,
    /// `.zip`: unpacked with `unzip`.
    Zip,
}

/// How a user-management command ends, and what it reports.
#[derive(Debug)]
pub enum UserCommand {
    Add { name: String },
    Delete { name: String },
    AddToGroup { name: String, group: String },
    Lock { name: String },
    Unlock { name: String },
}

/// What a package-manager shell command was for.
#[derive(Debug)]
pub enum PackageCommand {
    Search { query: String },
    ListInstalled,
    Install,
    Remove,
}

/// Work to carry out after a key press. Each variant says what to do and
/// which `App` method takes the result (none when nothing comes back).
pub enum Effect {
    /// Nothing to do.
    Nothing,
    /// List the directory and pass the listing to `App::dir_listed`.
    ListDir { dir: String },
    /// Open the file with `xdg-open`, in the background.
    OpenFile { path: String },
    /// Copy each path into `dest` (directories recursively); when `cut`,
    /// remove each source after copying it; stop at the first error. Then
    /// `App::paste_finished` with the error's text, or with the new
    /// listing of `dest`.
    Paste { paths: Vec<String>, cut: bool, dest: String },
    /// Remove each path (directories recursively), ignoring errors, then
    /// `App::files_deleted` with the listing of `dir`.
    DeleteFiles { paths: Vec<String>, dir: String },
    /// Rename `from` (when there is one) to `to` inside `dir`, ignoring
    /// errors, then `App::file_renamed` with the listing of `dir`.
    Rename { from: Option<String>, dir: String, to: String },
    /// Create the directory `name` inside `dir`, ignoring errors, then
    /// `App::folder_created` with the listing of `dir`.
    NewFolder { dir: String, name: String },
    /// Set the permission bits `mode` on each path, ignoring errors.
    Chmod { paths: Vec<String>, mode: u32 },
    /// Pack the paths into the archive `name` inside `dir` (`zip -r` when
    /// `zip`, else `tar -czf`), then `App::compressed` with the listing.
    Compress { paths: Vec<String>, dir: String, name: String, zip: bool },
    /// Unpack `archive` into `dir` when there is one, then
    /// `App::extracted` with the listing of `dir`.
    Extract { archive: Option<(String, ArchiveKind)>, dir: String },
    /// Start `program` with the path as its argument, in the background.
    OpenWith { program: String, path: String },
    /// Inspect the path and pass what was found to `App::preview_ready`.
    Preview { path: String },
    /// Send SIGKILL to the process (`kill -9`).
    Kill { pid: u32 },
    /// Run `renice <value> -p <pid>`.
    Renice { pid: u32, value: String },
    /// Run `pkexec umount <mount>`, then `App::unmounted`.
    Unmount { mount: String },
    /// Run `du -sh <mount>/* | sort -rh | head -20` through `sh`, then
    /// `App::disk_usage_ready` with its output (`None` when it could not
    /// run).
    DiskUsage { mount: String },
    /// Read `/proc/<pid>/status`, then `App::proc_status_ready`.
    ProcStatus { pid: u32, name: String },
    /// Run `systemctl status <name>.service --no-pager`, then
    /// `App::service_status_ready`.
    ServiceStatus { name: String },
    /// Run `systemctl <action> <name>.service`, list the services again,
    /// then `App::service_action_done`.
    ServiceAction { name: String, action: String },
    /// Sample the machine now, then `App::system_sampled` with the shared
    /// figures and the sample.
    SampleNow,
    /// List the services, then `App::services_loaded`.
    ListServices,
    /// Read `/etc/group` and `/etc/passwd`, then `App::users_read`.
    ReadUsers,
    /// Run `pkexec` with the arguments; when `reload`, read the user files
    /// again; then `App::user_command_done`.
    Pkexec { args: Vec<String>, reload: bool, done: UserCommand },
    /// Run the command line through `sh -c`, then `App::package_done` with
    /// its standard output (empty when it could not run).
    Shell { command: String, purpose: PackageCommand },
}

} // verus!
