//! The error taxonomy of the library, and the rendering of each error as
//! console lines.
//!
//! Failures coming from the surrounding process (the filesystem, the
//! serializer) are carried as the plain text of the underlying error, so the
//! whole taxonomy stays a value of plain strings and numbers.

use vstd::prelude::*;

verus! {

use crate::output::Output;
use crate::text::{dec_chars, u64_to_dec_string};
use vstd::string::StringExecFns;

/// Everything that can go wrong in a repository operation.
#[derive(Debug, Clone, PartialEq, Eq)]
pub enum Error {
    /// No repository was found upward from the start path.
    KifiNotInitialised,
    /// A path could not be canonicalized: the failure text, then the path.
    Canonicalize(String, String),
    CreateDirectory(String),
    CreateFile(String),
    ReadFile(String),
    GetCurrentDirectory(String),
    /// Encoding a persisted structure failed.
    CBORWriter(String),
    /// Decoding a persisted structure failed.
    CBORReader(String),
    /// Copying one file failed: source, destination, failure text.
    FileCopy(String, String, String),
    /// Copying a directory failed: source, destination, failure text.
    DirCopy(String, String, String),
    /// The path is absent from the most recently reconciled cache.
    FileNotFoundInCache(String),
    /// A metadata file name is taken by something else.
    ReservedFilenameNotAvailable(String),
    /// No snapshots exist yet where one is required.
    PreviewWithoutSnapshots,
    InvalidEmail,
    InvalidConfigDir,
    UserNotRegistered,
    /// Tracking an ignored path was asked for without the override.
    TrackIgnoredFile(String),
    /// A stored timestamp (seconds since the epoch) could not be rendered.
    InvalidTime(u64),
}

/// The console lines that `Error::handle` emits for `e`.
pub open spec fn error_lines(e: Error) -> Seq<Seq<char>> {
    match e {
        Error::KifiNotInitialised => seq![
            ("No repository accessible at the current working directory.")@,
            ("Run `kifi init` to initialise the repository.")@,
        ],
        Error::Canonicalize(m, p) => seq![
            ("Could not canonicalize ")@ + p@ + (": ")@ + m@,
        ],
        Error::CreateDirectory(m) => seq![("Failed to create directory: ")@ + m@],
        Error::CreateFile(m) => seq![("Failed to create file: ")@ + m@],
        Error::ReadFile(m) => seq![("Failed to read file: ")@ + m@],
        Error::GetCurrentDirectory(m) => seq![
            ("Failed to get details about current directory: ")@ + m@,
        ],
        Error::CBORWriter(m) => seq![("Could not write CBOR to file: ")@ + m@],
        Error::CBORReader(m) => seq![("Could not read CBOR from file: ")@ + m@],
        Error::FileCopy(from, to, m) => seq![
            ("Failed to copy ")@ + from@ + (" to ")@ + to@ + (": ")@ + m@,
        ],
        Error::DirCopy(from, to, m) => seq![
            ("Failed to copy ")@ + from@ + (" to ")@ + to@ + (": ")@ + m@,
        ],
        Error::FileNotFoundInCache(p) => seq![("File not found in cache: ")@ + p@],
        Error::ReservedFilenameNotAvailable(p) => seq![
            p@ + (" is a reserved file name, and isn't available. Is there a directory with the same name?")@,
        ],
        Error::PreviewWithoutSnapshots => seq![
            ("No previous snapshots exist to preview from.")@,
        ],
        Error::InvalidEmail => seq![("Invalid email provided.")@],
        Error::InvalidConfigDir => seq![("Could not fetch config directory.")@],
        Error::UserNotRegistered => seq![
            ("No registered user was found.")@,
            ("Use `kifi register` to register the current user.")@,
        ],
        Error::TrackIgnoredFile(p) => seq![
            ("File ")@ + p@ + (" has been ignored.")@,
            ("Use -f to force tracking.")@,
        ],
        Error::InvalidTime(t) => seq![
            ("Could not parse time ")@ + dec_chars(t as nat) + (".")@,
        ],
    }
}

impl Error {
    /// Renders this error as its console lines on `output`.
    pub fn handle<O: Output>(&self, output: &mut O)
        ensures
            final(output).lines() == old(output).lines() + error_lines(*self),
    {
        match self {
            Error::KifiNotInitialised => {
                output.add_str("No repository accessible at the current working directory.");
                output.add_str("Run `kifi init` to initialise the repository.");
            },
            Error::Canonicalize(m, p) => {
                let mut line = String::from_str("Could not canonicalize ");
                line.append(p.as_str());
                line.append(": ");
                line.append(m.as_str());
                output.add(line);
            },
            Error::CreateDirectory(m) => {
                let mut line = String::from_str("Failed to create directory: ");
                line.append(m.as_str());
                output.add(line);
            },
            Error::CreateFile(m) => {
                let mut line = String::from_str("Failed to create file: ");
                line.append(m.as_str());
                output.add(line);
            },
            Error::ReadFile(m) => {
                let mut line = String::from_str("Failed to read file: ");
                line.append(m.as_str());
                output.add(line);
            },
            Error::GetCurrentDirectory(m) => {
                let mut line = String::from_str("Failed to get details about current directory: ");
                line.append(m.as_str());
                output.add(line);
            },
            Error::CBORWriter(m) => {
                let mut line = String::from_str("Could not write CBOR to file: ");
                line.append(m.as_str());
                output.add(line);
            },
            Error::CBORReader(m) => {
                let mut line = String::from_str("Could not read CBOR from file: ");
                line.append(m.as_str());
                output.add(line);
            },
            Error::FileCopy(from, to, m) => {
                let mut line = String::from_str("Failed to copy ");
                line.append(from.as_str());
                line.append(" to ");
                line.append(to.as_str());
                line.append(": ");
                line.append(m.as_str());
                output.add(line);
            },
            Error::DirCopy(from, to, m) => {
                let mut line = String::from_str("Failed to copy ");
                line.append(from.as_str());
                line.append(" to ");
                line.append(to.as_str());
                line.append(": ");
                line.append(m.as_str());
                output.add(line);
            },
            Error::FileNotFoundInCache(p) => {
                let mut line = String::from_str("File not found in cache: ");
                line.append(p.as_str());
                output.add(line);
            },
            Error::ReservedFilenameNotAvailable(p) => {
                let mut line = p.clone();
                line.append(
                    " is a reserved file name, and isn't available. Is there a directory with the same name?",
                );
                output.add(line);
            },
            Error::PreviewWithoutSnapshots => {
                output.add_str("No previous snapshots exist to preview from.");
            },
            Error::InvalidEmail => {
                output.add_str("Invalid email provided.");
            },
            Error::InvalidConfigDir => {
                output.add_str("Could not fetch config directory.");
            },
            Error::UserNotRegistered => {
                output.add_str("No registered user was found.");
                output.add_str("Use `kifi register` to register the current user.");
            },
            Error::TrackIgnoredFile(p) => {
                let mut line = String::from_str("File ");
                line.append(p.as_str());
                line.append(" has been ignored.");
                output.add(line);
                output.add_str("Use -f to force tracking.");
            },
            Error::InvalidTime(t) => {
                let rendered = u64_to_dec_string(*t);
                let mut line = String::from_str("Could not parse time ");
                line.append(rendered.as_str());
                line.append(".");
                output.add(line);
            },
        }
        proof {
            assert(output.lines() =~= old(output).lines() + error_lines(*self));
        }
    }
}

} // verus!
