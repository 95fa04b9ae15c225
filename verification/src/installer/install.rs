//! Installation logic.
//!
//! An installation brings the files of a package to a directory, one after
//! the other in the order of the package, and then marks its executables.
//! The network and the file system are the caller's: the installation says
//! what is due, takes what came of it, and decides how to go on. The first
//! failure ends it; what was written before stays where it is.

use crate::installer::digest::sha256;
use crate::installer::hash::{decoded, parse_hash, HexError};
use crate::installer::http::{FileLoad, FileLoadError};
use crate::installer::location::{parse_base_url, resolve_file_url, url_joined, url_parsed};
use crate::schema::manifest::{File, LocalPath, Package};
use vstd::prelude::*;
use vstd::utf8::encode_utf8;

verus! {

/// The mode that an executable of a package is given: read and execute for
/// everyone, write for the owner.
pub const EXECUTABLE_MODE: u32 = 0o755;

/// An error that can happen during the installation.
#[derive(Debug)]
pub enum InstallationError {
    /// The hash of a file is invalid.
    ParseHash {
        /// The hash that we attempted to parse.
        hash: String,
        /// The path of the file we attempted to parse the hash for.
        path: String,
        /// The URL of the file we attempted to parse the hash for.
        url: String,
        /// The underlying error.
        error: HexError,
    },
    /// Base URL is invalid.
    ParseBaseUrl {
        /// The URL we attempted to parse.
        url: String,
        /// The underlying error.
        error: url::ParseError,
    },
    /// Failed to parse the file URL relative to the base URL.
    ParseFileUrl {
        /// The URL we attempted to parse.
        url: String,
        /// The base URL we used.
        base_url: String,
        /// The underlying error.
        error: url::ParseError,
    },
    /// Failed to create a dir where to put the files.
    CreateDir {
        /// The directory path.
        path: String,
        /// What the system said of it.
        error: String,
    },
    /// Failed to create a file.
    CreateFile {
        /// File path.
        path: String,
        /// What the system said of it.
        error: String,
    },
    /// Downloading file failed.
    LoadFile {
        /// The local path to the file we were downloading.
        path: String,
        /// The URL of the file we were downloading.
        url: String,
        /// The underlying error.
        error: FileLoadError,
    },
    /// The file hash did not match the expectation.
    FileHashMismatch {
        /// The file path.
        path: String,
        /// The expected hash.
        expected: Vec<u8>,
        /// The actual hash.
        actual: Vec<u8>,
    },
    /// Failed to set the file permissions.
    SetFilePermissions {
        /// The file path.
        path: String,
        /// What the system said of it.
        error: String,
    },
}

/// The installation routine parameters.
pub struct Params {
    /// The path to the target directory where to install the package.
    pub dir: String,
    /// The base URL to use for resolving the URLs.
    pub base_url: String,
    /// The package to install.
    pub package: Package,
    /// Whether the target has POSIX file modes, so that the executables of
    /// the package can be marked.
    pub posix: bool,
}

/// The paths of a package that are marked executable, in the order in which
/// they are marked.
pub open spec fn executables(package: Package) -> Seq<LocalPath> {
    seq![
        package.executable_path,
        package.ngrok_path,
        package.humanode_websocket_tunnel_client_path,
    ]
}

/// An installation under way.
pub struct Installation {
    dir: String,
    base_url: String,
    base: String,
    package: Package,
    posix: bool,
    files_done: usize,
    executables_done: usize,
}

/// What an installation asks for next.
pub enum Step {
    /// A file is to be downloaded.
    Download(Download),
    /// An executable is to be marked.
    SetPermissions(SetPermissions),
    /// Nothing is left to do.
    Finished,
}

/// An installation that waits for a file.
pub struct Download {
    installation: Installation,
    url: String,
    expected: Vec<u8>,
}

/// What came of the download of a file.
pub enum Outcome {
    /// The directory of the file could not be created.
    CreateDir {
        /// The directory path.
        path: String,
        /// What the system said of it.
        error: String,
    },
    /// The file could not be created.
    CreateFile {
        /// File path.
        path: String,
        /// What the system said of it.
        error: String,
    },
    /// The loading failed.
    LoadFile {
        /// The local path to the file.
        path: String,
        /// The underlying error.
        error: FileLoadError,
    },
    /// The body was written to the file.
    Loaded {
        /// The local path to the file.
        path: String,
        /// The body as it arrived.
        load: FileLoad,
    },
}

/// An installation that waits for an executable to be marked.
pub struct SetPermissions {
    installation: Installation,
}

/// Why an executable could not be marked.
pub struct PermissionsFailure {
    /// The file path.
    pub path: String,
    /// What the system said of it.
    pub error: String,
}

impl Installation {
    /// What holds of every installation.
    #[verifier::type_invariant]
    pub closed spec fn valid(self) -> bool {
        &&& url_parsed(self.base_url@) == Ok::<Seq<char>, url::ParseError>(self.base@)
        &&& self.files_done <= self.package.files@.len()
        &&& self.executables_done <= 3
        &&& self.files_done < self.package.files@.len() ==> self.executables_done == 0
        &&& !self.posix ==> self.executables_done == 0
    }

    /// The directory to install to.
    pub closed spec fn dir(self) -> String {
        self.dir
    }

    /// The URL of the manifest, as it was given.
    pub closed spec fn base_url(self) -> String {
        self.base_url
    }

    /// The package to install.
    pub closed spec fn package(self) -> Package {
        self.package
    }

    /// Whether executables are marked.
    pub closed spec fn posix(self) -> bool {
        self.posix
    }

    /// How many files of the package were brought.
    pub closed spec fn files_done(self) -> nat {
        self.files_done as nat
    }

    /// How many executables of the package were marked.
    pub closed spec fn executables_done(self) -> nat {
        self.executables_done as nat
    }

    /// Whether `other` is this installation with different progress.
    pub open spec fn continues(self, other: Installation) -> bool {
        &&& self.dir() == other.dir()
        &&& self.base_url() == other.base_url()
        &&& self.package() == other.package()
        &&& self.posix() == other.posix()
    }

    /// The file that is due.
    pub open spec fn file(self) -> File {
        self.package().files@[self.files_done() as int]
    }
}

/// Starts the installation of `params`.
///
/// The base URL has to be an absolute URL. Nothing was brought yet.
pub fn install(params: Params) -> (r: Result<Installation, InstallationError>)
    ensures
        match r {
            Ok(installation) => {
                &&& url_parsed(params.base_url@) is Ok
                &&& installation.valid()
                &&& installation.dir() == params.dir
                &&& installation.base_url() == params.base_url
                &&& installation.package() == params.package
                &&& installation.posix() == params.posix
                &&& installation.files_done() == 0
                &&& installation.executables_done() == 0
            },
            Err(error) => {
                &&& url_parsed(params.base_url@) matches Err(cause)
                &&& error == (InstallationError::ParseBaseUrl {
                    url: params.base_url,
                    error: cause,
                })
            },
        },
{
    let Params { dir, base_url, package, posix } = params;
    match parse_base_url(base_url.as_str()) {
        Ok(base) => Ok(
            Installation {
                dir,
                base_url,
                base,
                package,
                posix,
                files_done: 0,
                executables_done: 0,
            },
        ),
        Err(error) => Err(InstallationError::ParseBaseUrl { url: base_url, error }),
    }
}

/// Whether two lists hold the same bytes.
fn same_bytes(left: &Vec<u8>, right: &Vec<u8>) -> (same: bool)
    ensures
        same == (left@ == right@),
{
    if left.len() != right.len() {
        return false;
    }
    let mut index: usize = 0;
    while index < left.len()
        invariant
            index <= left.len(),
            left.len() == right.len(),
            forall|i: int| 0 <= i < index ==> left@[i] == right@[i],
        decreases left.len() - index,
    {
        if left[index] != right[index] {
            return false;
        }
        index += 1;
    }
    assert(left@ =~= right@);
    true
}

impl Installation {
    /// What is due.
    ///
    /// While files are left, the next file of the package: its declared sum
    /// is decoded, then its sub URL is resolved against the base URL, and
    /// the installation fails where either cannot be done. After the last
    /// file, on a target with POSIX file modes, the next executable to mark.
    /// Then nothing.
    pub fn next(self) -> (r: Result<Step, InstallationError>)
        ensures
            self.files_done() < self.package().files@.len() ==> match decoded(
                encode_utf8(self.file().sha256.0@),
            ) {
                Err(cause) => r == Err::<Step, InstallationError>(
                    InstallationError::ParseHash {
                        hash: self.file().sha256.0,
                        path: self.file().destination_sub_path.0,
                        url: self.file().sub_url.0,
                        error: cause,
                    },
                ),
                Ok(expected) => match url_joined(self.base_url()@, self.file().sub_url.0@) {
                    Err(cause) => {
                        &&& r matches Err(InstallationError::ParseFileUrl { url, base_url, error })
                        &&& url == self.file().sub_url.0
                        &&& url_parsed(self.base_url()@) == Ok::<Seq<char>, url::ParseError>(
                            base_url@,
                        )
                        &&& error == cause
                    },
                    Ok(resolved) => {
                        &&& r matches Ok(Step::Download(download))
                        &&& download.installation() == self
                        &&& download.resolved()@ == resolved
                        &&& download.expected()@ == expected
                    },
                },
            },
            self.files_done() >= self.package().files@.len() && self.posix()
                && self.executables_done() < 3 ==> (r matches Ok(Step::SetPermissions(marking))
                && marking.installation() == self),
            self.files_done() >= self.package().files@.len() && !(self.posix()
                && self.executables_done() < 3) ==> r matches Ok(Step::Finished),
    {
        proof {
            use_type_invariant(&self);
        }
        if self.files_done < self.package.files.len() {
            let file = &self.package.files[self.files_done];
            let expected = match parse_hash(&file.sha256) {
                Ok(expected) => expected,
                Err(error) => {
                    return Err(
                        InstallationError::ParseHash {
                            hash: file.sha256.0.clone(),
                            path: file.destination_sub_path.0.clone(),
                            url: file.sub_url.0.clone(),
                            error,
                        },
                    );
                },
            };
            match resolve_file_url(self.base_url.as_str(), file.sub_url.0.as_str()) {
                Ok(url) => Ok(Step::Download(Download { installation: self, url, expected })),
                Err(error) => Err(
                    InstallationError::ParseFileUrl {
                        url: file.sub_url.0.clone(),
                        base_url: self.base.clone(),
                        error,
                    },
                ),
            }
        } else if self.posix && self.executables_done < 3 {
            Ok(Step::SetPermissions(SetPermissions { installation: self }))
        } else {
            Ok(Step::Finished)
        }
    }
}

impl Download {
    #[verifier::type_invariant]
    spec fn due(self) -> bool {
        &&& self.installation.valid()
        &&& self.installation.files_done < self.installation.package.files@.len()
        &&& url_joined(self.installation.base_url@, self.installation.file().sub_url.0@) == Ok::<
            Seq<char>,
            url::ParseError,
        >(self.url@)
        &&& decoded(encode_utf8(self.installation.file().sha256.0@)) == Ok::<Seq<u8>, HexError>(
            self.expected@,
        )
    }

    /// The installation that waits.
    pub closed spec fn installation(self) -> Installation {
        self.installation
    }

    /// The URL to fetch the file from.
    pub closed spec fn resolved(self) -> String {
        self.url
    }

    /// The sum that the file has to have.
    pub closed spec fn expected(self) -> Vec<u8> {
        self.expected
    }

    /// The directory to install to.
    pub fn dir(&self) -> (dir: &String)
        ensures
            *dir == self.installation().dir(),
    {
        &self.installation.dir
    }

    /// The path of the file below the directory to install to.
    pub fn sub_path(&self) -> (path: &String)
        ensures
            self.installation().files_done() < self.installation().package().files@.len(),
            *path == self.installation().file().destination_sub_path.0,
    {
        proof {
            use_type_invariant(self);
        }
        &self.installation.package.files[self.installation.files_done].destination_sub_path.0
    }

    /// The URL to fetch the file from: the sub URL of the file, resolved
    /// against the base URL.
    pub fn url(&self) -> (url: &String)
        ensures
            *url == self.resolved(),
            url_joined(self.installation().base_url()@, self.installation().file().sub_url.0@)
                == Ok::<Seq<char>, url::ParseError>(url@),
    {
        proof {
            use_type_invariant(self);
        }
        &self.url
    }

    /// Takes what came of the download.
    ///
    /// A failure of the caller to create the directory or the file, or to
    /// load the body, fails the installation. A body that arrived is summed
    /// and held against the sum that the manifest declares: where they are
    /// the same the file is brought, and else the installation fails, with
    /// both sums.
    pub fn loaded(self, outcome: Outcome) -> (r: Result<Installation, InstallationError>)
        ensures
            match outcome {
                Outcome::CreateDir { path, error } => r == Err::<Installation, InstallationError>(
                    InstallationError::CreateDir { path, error },
                ),
                Outcome::CreateFile { path, error } => r == Err::<Installation, InstallationError>(
                    InstallationError::CreateFile { path, error },
                ),
                Outcome::LoadFile { path, error } => r == Err::<Installation, InstallationError>(
                    InstallationError::LoadFile { path, url: self.resolved(), error },
                ),
                Outcome::Loaded { path, load } => if sha256(load.received())
                    == self.expected()@ {
                    &&& r matches Ok(installation)
                    &&& installation.valid()
                    &&& installation.continues(self.installation())
                    &&& installation.files_done() == self.installation().files_done() + 1
                    &&& installation.executables_done() == 0
                } else {
                    &&& r matches Err(
                        InstallationError::FileHashMismatch { path: at, expected, actual },
                    )
                    &&& at == path
                    &&& expected == self.expected()
                    &&& actual@ == sha256(load.received())
                },
            },
            (r is Ok) ==> decoded(encode_utf8(self.installation().file().sha256.0@)) == Ok::<
                Seq<u8>,
                HexError,
            >(sha256(outcome->load.received())),
    {
        proof {
            use_type_invariant(&self);
            use_type_invariant(&self.installation);
        }
        let Download { installation, url, expected } = self;
        match outcome {
            Outcome::CreateDir { path, error } => Err(InstallationError::CreateDir { path, error }),
            Outcome::CreateFile { path, error } => Err(
                InstallationError::CreateFile { path, error },
            ),
            Outcome::LoadFile { path, error } => Err(
                InstallationError::LoadFile { path, url, error },
            ),
            Outcome::Loaded { path, load } => {
                let actual = load.finish();
                if same_bytes(&actual, &expected) {
                    let Installation {
                        dir,
                        base_url,
                        base,
                        package,
                        posix,
                        files_done,
                        executables_done,
                    } = installation;
                    let files = package.files.len();
                    assert(files_done < files);
                    Ok(
                        Installation {
                            dir,
                            base_url,
                            base,
                            package,
                            posix,
                            files_done: files_done + 1,
                            executables_done,
                        },
                    )
                } else {
                    Err(InstallationError::FileHashMismatch { path, expected, actual })
                }
            },
        }
    }
}

impl SetPermissions {
    #[verifier::type_invariant]
    spec fn due(self) -> bool {
        &&& self.installation.valid()
        &&& self.installation.files_done == self.installation.package.files@.len()
        &&& self.installation.posix
        &&& self.installation.executables_done < 3
    }

    /// The installation that waits.
    pub closed spec fn installation(self) -> Installation {
        self.installation
    }

    /// The directory that was installed to.
    pub fn dir(&self) -> (dir: &String)
        ensures
            *dir == self.installation().dir(),
    {
        &self.installation.dir
    }

    /// The path of the executable below the directory that was installed
    /// to.
    pub fn sub_path(&self) -> (path: &String)
        ensures
            self.installation().executables_done() < 3,
            *path == executables(self.installation().package())[self.installation().executables_done() as int].0,
    {
        proof {
            use_type_invariant(self);
        }
        if self.installation.executables_done == 0 {
            &self.installation.package.executable_path.0
        } else if self.installation.executables_done == 1 {
            &self.installation.package.ngrok_path.0
        } else {
            &self.installation.package.humanode_websocket_tunnel_client_path.0
        }
    }

    /// The mode to give the executable.
    pub fn mode(&self) -> (mode: u32)
        ensures
            mode == EXECUTABLE_MODE,
    {
        EXECUTABLE_MODE
    }

    /// Takes what came of marking the executable: a failure fails the
    /// installation, and else the executable is marked.
    pub fn done(self, outcome: Result<(), PermissionsFailure>) -> (r: Result<
        Installation,
        InstallationError,
    >)
        ensures
            match outcome {
                Ok(_) => {
                    &&& r matches Ok(installation)
                    &&& installation.valid()
                    &&& installation.continues(self.installation())
                    &&& installation.files_done() == self.installation().files_done()
                    &&& installation.executables_done() == self.installation().executables_done()
                        + 1
                },
                Err(failure) => r == Err::<Installation, InstallationError>(
                    InstallationError::SetFilePermissions {
                        path: failure.path,
                        error: failure.error,
                    },
                ),
            },
    {
        proof {
            use_type_invariant(&self);
            use_type_invariant(&self.installation);
        }
        match outcome {
            Ok(_) => {
                let Installation {
                    dir,
                    base_url,
                    base,
                    package,
                    posix,
                    files_done,
                    executables_done,
                } = self.installation;
                Ok(
                    Installation {
                        dir,
                        base_url,
                        base,
                        package,
                        posix,
                        files_done,
                        executables_done: executables_done + 1,
                    },
                )
            },
            Err(failure) => Err(
                InstallationError::SetFilePermissions { path: failure.path, error: failure.error },
            ),
        }
    }
}

/// The files of a package are brought before any of its executables is
/// marked, the executables are marked one by one in their order, and on a
/// target without POSIX file modes none is ever marked.
pub proof fn lemma_marking_follows_the_files(installation: Installation)
    requires
        installation.valid(),
    ensures
        installation.files_done() <= installation.package().files@.len(),
        installation.executables_done() <= executables(installation.package()).len(),
        installation.executables_done() > 0 ==> installation.posix() && installation.files_done()
            == installation.package().files@.len(),
{
}

/// The mode that an executable is given lets its owner, its group and
/// everyone else read and execute it, and its owner alone write it.
pub proof fn lemma_executables_run_for_everyone()
    ensures
        EXECUTABLE_MODE & 0o111 == 0o111,
        EXECUTABLE_MODE & 0o444 == 0o444,
        EXECUTABLE_MODE & 0o222 == 0o200,
{
    assert(0o755u32 & 0o111 == 0o111) by (bit_vector);
    assert(0o755u32 & 0o444 == 0o444) by (bit_vector);
    assert(0o755u32 & 0o222 == 0o200) by (bit_vector);
}

} // verus!
