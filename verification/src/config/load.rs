//! The configs loading logic.
//!
//! The reading of the directories and of the files in them is the caller's,
//! and so is the parsing of the files. What is decided here is what becomes
//! of each outcome: which failures end the loading of a directory, which
//! are only put on record, and which are not worth reporting.

use crate::config::Sources;
use vstd::prelude::*;
use vstd::string::*;

verus! {

/// The result of loading the sources.
#[derive(Debug)]
pub struct SourcesLoadingResult {
    /// The loaded sources.
    pub sources: Sources,
    /// The errors that have occurred while loading the sources.
    pub errors: SourcesLoadingErrors,
}

/// The errors that can occur while loading the sources.
#[derive(Debug)]
pub struct SourcesLoadingErrors {
    /// The Manifest URLs loading errors.
    pub manifest_urls: Vec<LoadingError>,
    /// The Repo URLs loading errors.
    pub repo_urls: Vec<LoadingError>,
}

/// A failure of the file system.
#[derive(Debug)]
pub struct Failure {
    /// What the system said of it.
    pub text: String,
    /// Whether the system said that there is no such file or directory.
    pub not_found: bool,
}

/// A loading error.
#[derive(Debug)]
pub enum LoadingError {
    /// Error while reading the directory, with its path.
    DirReading(Failure, String),
    /// Error while reading the next dir entry, with the path of the
    /// directory.
    DirNextEntry(Failure, String),
    /// Error while reading the file, with its path.
    FileReading(Failure, String),
    /// Error while parsing the file: what the parser said of it, and the
    /// path of the file.
    Parsing(String, String),
}

impl LoadingError {
    /// The text of the message that describes the error.
    pub open spec fn text(self) -> Seq<char> {
        match self {
            LoadingError::DirReading(failure, path) => "reading directory "@ + path@ + ": "@
                + failure.text@,
            LoadingError::DirNextEntry(failure, path) => "reading directory entry "@ + path@
                + ": "@ + failure.text@,
            LoadingError::FileReading(failure, path) => "reading file "@ + path@ + ": "@
                + failure.text@,
            LoadingError::Parsing(cause, path) => "parsing file "@ + path@ + ": "@ + cause@,
        }
    }

    /// Describes the error.
    pub fn to_string(&self) -> (r: String)
        ensures
            r@ == self.text(),
    {
        match self {
            LoadingError::DirReading(failure, path) => "reading directory ".to_owned().concat(
                path.as_str(),
            ).concat(": ").concat(failure.text.as_str()),
            LoadingError::DirNextEntry(failure, path) => "reading directory entry ".to_owned().concat(
                path.as_str(),
            ).concat(": ").concat(failure.text.as_str()),
            LoadingError::FileReading(failure, path) => "reading file ".to_owned().concat(
                path.as_str(),
            ).concat(": ").concat(failure.text.as_str()),
            LoadingError::Parsing(cause, path) => "parsing file ".to_owned().concat(
                path.as_str(),
            ).concat(": ").concat(cause.as_str()),
        }
    }

    /// Whether the error says no more than that a config directory is not
    /// there.
    pub open spec fn boring(self) -> bool {
        self matches LoadingError::DirReading(failure, _) && failure.not_found
    }

    /// Whether the error is not worth reporting: a config directory that
    /// does not exist is nothing to complain about.
    pub fn is_boring(&self) -> (boring: bool)
        ensures
            boring == self.boring(),
    {
        match self {
            LoadingError::DirReading(failure, _) => failure.not_found,
            _ => false,
        }
    }
}

impl SourcesLoadingErrors {
    /// Returns `true` if no errors have occurred.
    pub fn is_empty(&self) -> (empty: bool)
        ensures
            empty == (self.manifest_urls@.len() == 0 && self.repo_urls@.len() == 0),
    {
        self.manifest_urls.is_empty() && self.repo_urls.is_empty()
    }

    /// All of the errors: those of the manifest URLs, then those of the repo
    /// URLs.
    pub fn all(self) -> (errors: Vec<LoadingError>)
        ensures
            errors@ == self.manifest_urls@ + self.repo_urls@,
    {
        let SourcesLoadingErrors { manifest_urls, repo_urls } = self;
        let mut errors = manifest_urls;
        let mut repo_urls = repo_urls;
        errors.append(&mut repo_urls);
        errors
    }

    /// Whether `text` sums the errors up: that there are none, or how many
    /// there are, in decimal digits.
    pub open spec fn summed_up_by(self, text: Seq<char>) -> bool {
        if self.manifest_urls@.len() == 0 && self.repo_urls@.len() == 0 {
            text == "no errors occurred while loading the source configs"@
        } else {
            exists|count: u128, digits: String|
                count == self.manifest_urls@.len() + self.repo_urls@.len()
                    && #[trigger] to_string_from_display_ensures::<u128>(&count, digits) && text
                    == digits@ + " errors have occurred while loading the source configs"@
        }
    }

    /// Sums the errors up.
    pub fn to_string(&self) -> (r: String)
        ensures
            self.summed_up_by(r@),
    {
        if self.is_empty() {
            "no errors occurred while loading the source configs".to_owned()
        } else {
            let count: u128 = self.manifest_urls.len() as u128 + self.repo_urls.len() as u128;
            let digits = count.to_string();
            let text = digits.clone().concat(
                " errors have occurred while loading the source configs",
            );
            assert(to_string_from_display_ensures::<u128>(&count, digits));
            text
        }
    }
}

/// What came of one entry of a config directory.
pub enum Entry {
    /// The next entry could not be read: the failure, and the path of the
    /// directory.
    Unreadable(Failure, String),
    /// The file could not be read: the failure, and the path of the file.
    FileUnreadable(Failure, String),
    /// The file could not be parsed: what the parser said of it, and the
    /// path of the file.
    Unparsable(String, String),
    /// The file was parsed: the URLs that it lists.
    Parsed(Vec<String>),
}

/// The loading of one config directory: the URLs that its files listed so
/// far, and the errors that occurred.
pub struct Loading {
    /// The URLs, in the order in which they were listed.
    pub values: Vec<String>,
    /// The errors, in the order in which they occurred.
    pub errors: Vec<LoadingError>,
}

impl Loading {
    /// The loading of a directory that could not be read at all: no URLs,
    /// and the one error.
    pub fn dir_failed(failure: Failure, path: String) -> (loading: Loading)
        ensures
            loading.values@ == Seq::<String>::empty(),
            loading.errors@ == seq![LoadingError::DirReading(failure, path)],
    {
        let mut errors: Vec<LoadingError> = Vec::new();
        errors.push(LoadingError::DirReading(failure, path));
        Loading { values: Vec::new(), errors }
    }

    /// The loading of a directory that was opened: nothing was read yet.
    pub fn new() -> (loading: Loading)
        ensures
            loading.values@ == Seq::<String>::empty(),
            loading.errors@ == Seq::<LoadingError>::empty(),
    {
        Loading { values: Vec::new(), errors: Vec::new() }
    }

    /// Takes what came of the next entry, and says whether to go on.
    ///
    /// The URLs of a file that was parsed come behind those that are there.
    /// A file that cannot be read or parsed is put on record, and the
    /// loading goes on. An entry that cannot be read is put on record and
    /// ends the loading.
    pub fn entry(&mut self, entry: Entry) -> (go_on: bool)
        ensures
            match entry {
                Entry::Unreadable(failure, path) => {
                    &&& !go_on
                    &&& final(self).values@ == old(self).values@
                    &&& final(self).errors@ == old(self).errors@.push(
                        LoadingError::DirNextEntry(failure, path),
                    )
                },
                Entry::FileUnreadable(failure, path) => {
                    &&& go_on
                    &&& final(self).values@ == old(self).values@
                    &&& final(self).errors@ == old(self).errors@.push(
                        LoadingError::FileReading(failure, path),
                    )
                },
                Entry::Unparsable(cause, path) => {
                    &&& go_on
                    &&& final(self).values@ == old(self).values@
                    &&& final(self).errors@ == old(self).errors@.push(
                        LoadingError::Parsing(cause, path),
                    )
                },
                Entry::Parsed(urls) => {
                    &&& go_on
                    &&& final(self).values@ == old(self).values@ + urls@
                    &&& final(self).errors@ == old(self).errors@
                },
            },
    {
        match entry {
            Entry::Unreadable(failure, path) => {
                self.errors.push(LoadingError::DirNextEntry(failure, path));
                false
            },
            Entry::FileUnreadable(failure, path) => {
                self.errors.push(LoadingError::FileReading(failure, path));
                true
            },
            Entry::Unparsable(cause, path) => {
                self.errors.push(LoadingError::Parsing(cause, path));
                true
            },
            Entry::Parsed(urls) => {
                let mut urls = urls;
                self.values.append(&mut urls);
                true
            },
        }
    }
}

/// Puts together what the two config directories gave.
pub fn sources(repo_urls: Loading, manifest_urls: Loading) -> (result: SourcesLoadingResult)
    ensures
        result.sources.repo_urls == repo_urls.values,
        result.sources.manifest_urls == manifest_urls.values,
        result.errors.repo_urls == repo_urls.errors,
        result.errors.manifest_urls == manifest_urls.errors,
{
    SourcesLoadingResult {
        sources: Sources { manifest_urls: manifest_urls.values, repo_urls: repo_urls.values },
        errors: SourcesLoadingErrors {
            manifest_urls: manifest_urls.errors,
            repo_urls: repo_urls.errors,
        },
    }
}

} // verus!
