//! The failures that end a run, with the message of each and the chain of
//! causes behind it.

use crate::text::{lemma_occurs_between, occurs_in};
use crate::version::{version_text, Version, VersionModel};
use vstd::prelude::*;

verus! {

/// Why a command's output could not be had.
#[derive(Debug, Clone, PartialEq, Eq)]
pub enum CommandFailure {
    /// The command could not be run; `cause` says why.
    Execution { cause: String },
    /// The command ran, and what it wrote was not UTF-8 text; `cause` says
    /// where it went wrong.
    Decoding { cause: String },
}

/// What a [`CommandFailure`] stands for.
pub enum CommandFailureModel {
    Execution { cause: Seq<char> },
    Decoding { cause: Seq<char> },
}

impl View for CommandFailure {
    type V = CommandFailureModel;

    open spec fn view(&self) -> CommandFailureModel {
        match self {
            CommandFailure::Execution { cause } => CommandFailureModel::Execution { cause: cause@ },
            CommandFailure::Decoding { cause } => CommandFailureModel::Decoding { cause: cause@ },
        }
    }
}

impl CommandFailure {
    /// What lay behind this failure.
    pub fn cause(&self) -> (r: String)
        ensures
            r@ == command_cause(self@),
    {
        match self {
            CommandFailure::Execution { cause } => cause.clone(),
            CommandFailure::Decoding { cause } => cause.clone(),
        }
    }
}

/// The step of preparing the default output directory that failed.
#[derive(Debug, Clone, Copy, PartialEq, Eq)]
pub enum DirectoryStep {
    Creation,
    Canonicalization,
}

/// What was malformed.
#[derive(Debug, Clone, PartialEq, Eq)]
pub enum Malformed {
    /// The runtime's version: the text that was parsed, and the text as the
    /// runtime wrote it.
    Version { trimmed: String, raw: String },
    /// The import map: its content, the file it came from, and what the
    /// parser said.
    ImportMap { content: String, path: String, cause: String },
}

/// What a [`Malformed`] stands for.
pub enum MalformedModel {
    Version { trimmed: Seq<char>, raw: Seq<char> },
    ImportMap { content: Seq<char>, path: Seq<char>, cause: Seq<char> },
}

impl View for Malformed {
    type V = MalformedModel;

    open spec fn view(&self) -> MalformedModel {
        match self {
            Malformed::Version { trimmed, raw } => MalformedModel::Version {
                trimmed: trimmed@,
                raw: raw@,
            },
            Malformed::ImportMap { content, path, cause } => MalformedModel::ImportMap {
                content: content@,
                path: path@,
                cause: cause@,
            },
        }
    }
}

/// A failure that ends the run.
#[derive(Debug, Clone, PartialEq, Eq)]
pub enum ToastError {
    /// The runtime's version could not be asked for.
    ExecutionFailure(CommandFailure),
    /// A required file was missing or unreadable.
    ReadFailure { path: String, cause: String },
    /// The runtime's version or the import map could not be parsed.
    ParseFailure(Malformed),
    /// The runtime is older than the minimum.
    IncompatibleVersion { found: Version, required: Version },
    /// The package manager's directory of executables could not be
    /// discovered. Nothing can be done without it.
    Unrecoverable(CommandFailure),
    /// The default output directory could not be prepared.
    DirectoryFailure { step: DirectoryStep, path: String, cause: String },
}

/// What a [`ToastError`] stands for.
pub enum ErrorModel {
    ExecutionFailure(CommandFailureModel),
    ReadFailure { path: Seq<char>, cause: Seq<char> },
    ParseFailure(MalformedModel),
    IncompatibleVersion { found: VersionModel, required: VersionModel },
    Unrecoverable(CommandFailureModel),
    DirectoryFailure { step: DirectoryStep, path: Seq<char>, cause: Seq<char> },
}

impl View for ToastError {
    type V = ErrorModel;

    open spec fn view(&self) -> ErrorModel {
        match self {
            ToastError::ExecutionFailure(f) => ErrorModel::ExecutionFailure(f@),
            ToastError::ReadFailure { path, cause } => ErrorModel::ReadFailure {
                path: path@,
                cause: cause@,
            },
            ToastError::ParseFailure(m) => ErrorModel::ParseFailure(m@),
            ToastError::IncompatibleVersion { found, required } => ErrorModel::IncompatibleVersion {
                found: found@,
                required: required@,
            },
            ToastError::Unrecoverable(f) => ErrorModel::Unrecoverable(f@),
            ToastError::DirectoryFailure { step, path, cause } => ErrorModel::DirectoryFailure {
                step: *step,
                path: path@,
                cause: cause@,
            },
        }
    }
}

/// The message of a failure: what was being done, and on what.
pub open spec fn message(e: ErrorModel) -> Seq<char> {
    match e {
        ErrorModel::ExecutionFailure(CommandFailureModel::Execution { .. }) =>
            "Failed to execute `node -v` Command and collect output"@,
        ErrorModel::ExecutionFailure(CommandFailureModel::Decoding { .. }) =>
            "Failed to create utf8 string from node -v Command output"@,
        ErrorModel::ReadFailure { path, .. } => "Failed to read `import-map.json` from `"@ + path
            + "`"@,
        ErrorModel::ParseFailure(MalformedModel::Version { trimmed, raw }) =>
            "Couldn't parse node version from trimmed version `"@ + trimmed
            + "`, original string is `"@ + raw + "`"@,
        ErrorModel::ParseFailure(MalformedModel::ImportMap { content, path, .. }) =>
            "Failed to parse import map from content `"@ + content + "` at `"@ + path + "`"@,
        ErrorModel::IncompatibleVersion { found, required } => "node version "@ + version_text(
            found,
        ) + " doesn't meet the minimum required version "@ + version_text(required),
        ErrorModel::Unrecoverable(CommandFailureModel::Execution { .. }) =>
            "failed to execute process"@,
        ErrorModel::Unrecoverable(CommandFailureModel::Decoding { .. }) =>
            "npm bin location could not be found, exiting"@,
        ErrorModel::DirectoryFailure { step: DirectoryStep::Creation, path, .. } =>
            "Failed create directories for path `"@ + path + "`"@,
        ErrorModel::DirectoryFailure { step: DirectoryStep::Canonicalization, .. } =>
            "Failed canonicalize the output directory path"@,
    }
}

/// What lay behind a failure of a command.
pub open spec fn command_cause(f: CommandFailureModel) -> Seq<char> {
    match f {
        CommandFailureModel::Execution { cause } => cause,
        CommandFailureModel::Decoding { cause } => cause,
    }
}

/// What lay behind a failure, where something did. Only the runtime's
/// version, when it is malformed or too old, has nothing behind it.
pub open spec fn cause(e: ErrorModel) -> Option<Seq<char>> {
    match e {
        ErrorModel::ExecutionFailure(f) => Some(command_cause(f)),
        ErrorModel::ReadFailure { cause, .. } => Some(cause),
        ErrorModel::ParseFailure(MalformedModel::ImportMap { cause, .. }) => Some(cause),
        ErrorModel::Unrecoverable(f) => Some(command_cause(f)),
        ErrorModel::DirectoryFailure { cause, .. } => Some(cause),
        _ => None,
    }
}

/// The failure is a fault: it ends the process at once, and is no value to
/// hand back. Only the failed discovery of the package manager's directory
/// is one.
pub open spec fn is_fault(e: ErrorModel) -> bool {
    e is Unrecoverable
}

/// The failure from the top down: its message, then its cause if it has one.
pub open spec fn causal_chain(e: ErrorModel) -> Seq<Seq<char>> {
    match cause(e) {
        Some(c) => seq![message(e), c],
        None => seq![message(e)],
    }
}

/// The texts that a vector of strings holds, in order.
pub open spec fn texts(v: Seq<String>) -> Seq<Seq<char>> {
    Seq::new(v.len(), |i: int| v[i]@)
}

impl ToastError {
    /// The message of this failure.
    pub fn message(&self) -> (r: String)
        ensures
            r@ == message(self@),
    {
        match self {
            ToastError::ExecutionFailure(CommandFailure::Execution { .. }) => String::from_str(
                "Failed to execute `node -v` Command and collect output",
            ),
            ToastError::ExecutionFailure(CommandFailure::Decoding { .. }) => String::from_str(
                "Failed to create utf8 string from node -v Command output",
            ),
            ToastError::ReadFailure { path, .. } => {
                let mut r = String::from_str("Failed to read `import-map.json` from `");
                r.append(path.as_str());
                r.append("`");
                r
            },
            ToastError::ParseFailure(Malformed::Version { trimmed, raw }) => {
                let mut r = String::from_str("Couldn't parse node version from trimmed version `");
                r.append(trimmed.as_str());
                r.append("`, original string is `");
                r.append(raw.as_str());
                r.append("`");
                r
            },
            ToastError::ParseFailure(Malformed::ImportMap { content, path, .. }) => {
                let mut r = String::from_str("Failed to parse import map from content `");
                r.append(content.as_str());
                r.append("` at `");
                r.append(path.as_str());
                r.append("`");
                r
            },
            ToastError::IncompatibleVersion { found, required } => {
                let mut r = String::from_str("node version ");
                let found_text = found.to_text();
                r.append(found_text.as_str());
                r.append(" doesn't meet the minimum required version ");
                let required_text = required.to_text();
                r.append(required_text.as_str());
                r
            },
            ToastError::Unrecoverable(CommandFailure::Execution { .. }) => String::from_str(
                "failed to execute process",
            ),
            ToastError::Unrecoverable(CommandFailure::Decoding { .. }) => String::from_str(
                "npm bin location could not be found, exiting",
            ),
            ToastError::DirectoryFailure { step: DirectoryStep::Creation, path, .. } => {
                let mut r = String::from_str("Failed create directories for path `");
                r.append(path.as_str());
                r.append("`");
                r
            },
            ToastError::DirectoryFailure { step: DirectoryStep::Canonicalization, .. } =>
                String::from_str("Failed canonicalize the output directory path"),
        }
    }

    /// What lay behind this failure, where something did.
    pub fn cause(&self) -> (r: Option<String>)
        ensures
            r is Some == cause(self@) is Some,
            r matches Some(c) ==> cause(self@) == Some(c@),
    {
        match self {
            ToastError::ExecutionFailure(f) => Some(f.cause()),
            ToastError::ReadFailure { cause, .. } => Some(cause.clone()),
            ToastError::ParseFailure(Malformed::ImportMap { cause, .. }) => Some(cause.clone()),
            ToastError::Unrecoverable(f) => Some(f.cause()),
            ToastError::DirectoryFailure { cause, .. } => Some(cause.clone()),
            _ => None,
        }
    }

    /// Whether this failure is a fault, which ends the process at once.
    pub fn is_fault(&self) -> (r: bool)
        ensures
            r == is_fault(self@),
            r == (self@ is Unrecoverable),
    {
        match self {
            ToastError::Unrecoverable(_) => true,
            _ => false,
        }
    }

    /// This failure from the top down: its message, then its cause if it has
    /// one.
    pub fn causal_chain(&self) -> (r: Vec<String>)
        ensures
            texts(r@) == causal_chain(self@),
    {
        let mut r: Vec<String> = Vec::new();
        r.push(self.message());
        match self.cause() {
            Some(c) => {
                r.push(c);
            },
            None => {},
        }
        assert(texts(r@) =~= causal_chain(self@));
        r
    }
}

/// The message of a failure shows what the failure was about: the file that
/// could not be read; both forms of a version text that did not parse; the
/// content and the file of an import map that did not parse; the version that
/// was found and the one that is required; the directory that could not be
/// created.
pub proof fn lemma_message_shows_its_subject(e: ErrorModel)
    ensures
        e matches ErrorModel::ReadFailure { path, .. } ==> occurs_in(path, message(e)),
        e matches ErrorModel::ParseFailure(MalformedModel::Version { trimmed, raw }) ==> occurs_in(
            trimmed,
            message(e),
        ) && occurs_in(raw, message(e)),
        e matches ErrorModel::ParseFailure(MalformedModel::ImportMap { content, path, .. })
            ==> occurs_in(content, message(e)) && occurs_in(path, message(e)),
        e matches ErrorModel::IncompatibleVersion { found, required } ==> occurs_in(
            version_text(found),
            message(e),
        ) && occurs_in(version_text(required), message(e)),
        e matches ErrorModel::DirectoryFailure { step: DirectoryStep::Creation, path, .. }
            ==> occurs_in(path, message(e)),
{
    let text = message(e);
    let none = Seq::<char>::empty();
    match e {
        ErrorModel::ReadFailure { path, .. } => {
            lemma_occurs_between("Failed to read `import-map.json` from `"@, path, "`"@);
        },
        ErrorModel::ParseFailure(MalformedModel::Version { trimmed, raw }) => {
            let head = "Couldn't parse node version from trimmed version `"@;
            let middle = "`, original string is `"@;
            lemma_occurs_between(head, trimmed, middle + raw + "`"@);
            assert(text =~= head + trimmed + (middle + raw + "`"@));
            lemma_occurs_between(head + trimmed + middle, raw, "`"@);
        },
        ErrorModel::ParseFailure(MalformedModel::ImportMap { content, path, .. }) => {
            let head = "Failed to parse import map from content `"@;
            let middle = "` at `"@;
            lemma_occurs_between(head, content, middle + path + "`"@);
            assert(text =~= head + content + (middle + path + "`"@));
            lemma_occurs_between(head + content + middle, path, "`"@);
        },
        ErrorModel::IncompatibleVersion { found, required } => {
            let head = "node version "@;
            let middle = " doesn't meet the minimum required version "@;
            lemma_occurs_between(head, version_text(found), middle + version_text(required));
            assert(text =~= head + version_text(found) + (middle + version_text(required)));
            lemma_occurs_between(head + version_text(found) + middle, version_text(required), none);
            assert(text =~= head + version_text(found) + middle + version_text(required) + none);
        },
        ErrorModel::DirectoryFailure { step: DirectoryStep::Creation, path, .. } => {
            lemma_occurs_between("Failed create directories for path `"@, path, "`"@);
        },
        _ => {},
    }
}

} // verus!
