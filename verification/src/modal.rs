//! Dialogs over the panels: a question to confirm, a line to type, or a
//! message to read. What a dialog does when accepted is held as data.

use vstd::prelude::*;
use vstd::string::StringExecFns;

verus! {

/// The sort of dialog.
#[derive(Clone, Copy, PartialEq, Eq, Debug, Structural)]
pub enum ModalKind {
    Confirm,
    Input,
    Message,
}

/// What a confirmation dialog does on Enter.
pub enum ConfirmAction {
    /// Delete the file targets.
    DeleteFiles,
    /// Delete the account (and its home).
    DeleteUser { name: String },
    /// Kill the process under the cursor; `name` is shown in the report.
    KillProcess { name: String },
    /// Unmount the file system.
    Unmount { mount: String },
    /// Run `systemctl <action>` on the service.
    ServiceAction { name: String, action: String },
    /// Install the package.
    Install { pkg: String },
    /// Remove the package.
    Remove { pkg: String },
}

/// What an input dialog does with the typed line on Enter.
#[derive(Clone, Copy, PartialEq, Eq, Debug, Structural)]
pub enum InputAction {
    /// Rename the first file target to the line.
    Rename,
    /// Create a directory named by the line.
    NewFolder,
    /// Create an account named by the line.
    AddUser,
    /// Set the permission bits given in octal on the file targets.
    Chmod,
    /// Pack the file targets into the archive named by the line.
    Compress,
    /// Open the first file target with the program named by the line.
    OpenWith,
    /// Lock the account under the cursor when the line is `lock`, else
    /// unlock it.
    LockOrUnlock,
    /// Add the account under the cursor to the group named by the line.
    AddToGroup,
    /// Search packages for the line.
    Search,
    /// Renice the process under the cursor to the line's value.
    Renice,
}

/// A dialog.
pub struct Modal {
    pub kind: ModalKind,
    pub title: String,
    /// The question of a confirmation, the text of a message.
    pub body: String,
    /// The line typed so far in an input dialog.
    pub input: String,
    pub on_confirm: Option<ConfirmAction>,
    pub on_input: Option<InputAction>,
}

impl Modal {
    /// A confirmation dialog asking `question`, doing `action` on Enter.
    pub fn confirm(question: String, action: ConfirmAction) -> (m: Modal)
        ensures
            m.kind == ModalKind::Confirm,
            m.title@ == " CONFIRM"@,
            m.body == question,
            m.input@.len() == 0,
            m.on_confirm == Some(action),
            m.on_input is None,
    {
        Modal {
            kind: ModalKind::Confirm,
            title: String::from_str(" CONFIRM"),
            body: question,
            input: String::new(),
            on_confirm: Some(action),
            on_input: None,
        }
    }

    /// An input dialog titled `prompt`, its line starting as `default`,
    /// doing `action` with the line on Enter.
    pub fn input(prompt: String, default: String, action: InputAction) -> (m: Modal)
        ensures
            m.kind == ModalKind::Input,
            m.title == prompt,
            m.body@.len() == 0,
            m.input == default,
            m.on_confirm is None,
            m.on_input == Some(action),
    {
        Modal {
            kind: ModalKind::Input,
            title: prompt,
            body: String::new(),
            input: default,
            on_confirm: None,
            on_input: Some(action),
        }
    }

    /// A message dialog; any key closes it.
    pub fn message(title: String, body: String) -> (m: Modal)
        ensures
            m.kind == ModalKind::Message,
            m.title == title,
            m.body == body,
            m.input@.len() == 0,
            m.on_confirm is None,
            m.on_input is None,
    {
        Modal {
            kind: ModalKind::Message,
            title,
            body,
            input: String::new(),
            on_confirm: None,
            on_input: None,
        }
    }
}

} // verus!
