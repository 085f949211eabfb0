//! The files of genesis keys that accompany a resolved configuration.
//!
//! The library decides which files there are, what each holds and how a failure to write
//! one is reported; the host writes them.

use vstd::prelude::*;
use vstd::string::*;
use crate::config::{ConfluxConfig, HostContext};
use crate::error::{ErrorKind, ErrorView, NodeError};
use crate::text::{append, strip_hex_prefix, without_hex_prefix};

verus! {

/// A file of keys to write: one key on each line, without its `0x`.
#[derive(Debug)]
pub struct SecretsFile {
    /// The name of the file, as it appears in messages.
    pub filename: String,
    /// Where the file is written.
    pub path: String,
    pub lines: Vec<String>,
}

/// A file of keys as contracts see it.
pub struct SecretsFileView {
    pub filename: Seq<char>,
    pub path: Seq<char>,
    pub lines: Seq<Seq<char>>,
}

impl View for SecretsFile {
    type V = SecretsFileView;

    open spec fn view(&self) -> SecretsFileView {
        SecretsFileView {
            filename: self.filename@,
            path: self.path@,
            lines: Seq::new(self.lines@.len(), |i: int| self.lines@[i]@),
        }
    }
}

/// The lines of a file that holds `secrets`: each key without a leading `0x`.
pub open spec fn key_lines(secrets: Seq<String>) -> Seq<Seq<char>> {
    Seq::new(secrets.len(), |i: int| without_hex_prefix(secrets[i]@))
}

/// The file that holds `secrets`, if there are any to hold.
pub open spec fn planned_file(secrets: Option<Vec<String>>, filename: Seq<char>, path: Seq<char>)
    -> Seq<SecretsFileView> {
    match secrets {
        Some(keys) => seq![SecretsFileView { filename, path, lines: key_lines(keys@) }],
        None => seq![],
    }
}

/// The step of writing a file at which the host failed.
#[derive(Debug, Clone, Copy, PartialEq, Eq, Structural)]
pub enum WriteStep {
    Create,
    Write,
    Flush,
}

impl WriteStep {
    /// The words that open the message for a failure at this step.
    pub open spec fn heading(self) -> Seq<char> {
        match self {
            WriteStep::Create => "Failed to create file "@,
            WriteStep::Write => "Failed to write to file "@,
            WriteStep::Flush => "Failed to flush file "@,
        }
    }
}

/// The error for a file of keys that could not be written.
pub open spec fn write_failure(step: WriteStep, filename: Seq<char>, reason: Seq<char>)
    -> ErrorView {
    ErrorView {
        kind: ErrorKind::Configuration,
        message: step.heading() + filename + ": "@ + reason,
    }
}

fn key_file_lines(secrets: &Vec<String>) -> (lines: Vec<String>)
    ensures
        lines@.len() == secrets@.len(),
        forall|i: int| 0 <= i < lines@.len() ==> #[trigger] lines@[i]@ == without_hex_prefix(
            secrets@[i]@,
        ),
{
    let mut lines: Vec<String> = Vec::new();
    let mut i: usize = 0;
    while i < secrets.len()
        invariant
            i <= secrets@.len(),
            lines@.len() == i,
            forall|j: int| 0 <= j < i ==> #[trigger] lines@[j]@ == without_hex_prefix(secrets@[j]@),
        decreases secrets@.len() - i,
    {
        let key = strip_hex_prefix(secrets[i].as_str());
        lines.push(key.to_owned());
        i += 1;
    }
    lines
}

impl SecretsFile {
    /// The file named `filename` at `path` that holds `secrets`.
    pub fn holding(secrets: &Vec<String>, filename: &str, path: &str) -> (file: SecretsFile)
        ensures
            file@ == (SecretsFileView {
                filename: filename@,
                path: path@,
                lines: key_lines(secrets@),
            }),
    {
        let lines = key_file_lines(secrets);
        let file = SecretsFile { filename: filename.to_owned(), path: path.to_owned(), lines };
        assert(file@.lines =~= key_lines(secrets@));
        file
    }

    /// The error to report when writing this file failed at `step` for `reason`.
    pub fn failure(&self, step: WriteStep, reason: &str) -> (e: NodeError)
        ensures
            e@ == write_failure(step, self.filename@, reason@),
    {
        let heading = match step {
            WriteStep::Create => "Failed to create file ",
            WriteStep::Write => "Failed to write to file ",
            WriteStep::Flush => "Failed to flush file ",
        };
        let message = append(heading, self.filename.as_str());
        let message = append(message.as_str(), ": ");
        NodeError::Configuration(append(message.as_str(), reason))
    }
}

impl ConfluxConfig {
    /// The files of genesis keys the configuration calls for: the core-space keys first,
    /// then the eSpace keys, each only where keys were supplied.
    pub open spec fn secrets_files_spec(&self, host: &HostContext) -> Seq<SecretsFileView> {
        planned_file(self.genesis_secrets, "genesis_secrets.txt"@, host.genesis_secrets_path@)
            + planned_file(
            self.genesis_evm_secrets,
            "genesis_evm_secrets.txt"@,
            host.genesis_evm_secrets_path@,
        )
    }

    /// Plans the files of genesis keys for the host to write, in the order in which they
    /// are to be written.
    pub fn secrets_files(&self, host: &HostContext) -> (files: Vec<SecretsFile>)
        ensures
            files@.len() == self.secrets_files_spec(host).len(),
            forall|i: int|
                0 <= i < files@.len() ==> #[trigger] files@[i]@ == self.secrets_files_spec(host)[i],
    {
        let mut files: Vec<SecretsFile> = Vec::new();
        if let Some(secrets) = &self.genesis_secrets {
            files.push(
                SecretsFile::holding(
                    secrets,
                    "genesis_secrets.txt",
                    host.genesis_secrets_path.as_str(),
                ),
            );
        }
        if let Some(secrets) = &self.genesis_evm_secrets {
            files.push(
                SecretsFile::holding(
                    secrets,
                    "genesis_evm_secrets.txt",
                    host.genesis_evm_secrets_path.as_str(),
                ),
            );
        }
        files
    }
}

} // verus!
