//! The error kinds that resolution, installation and debug-request
//! translation can report, each carrying enough context to diagnose the
//! failure without re-running.

use vstd::prelude::*;

verus! {

/// Every failure this crate can surface to the host.
pub enum Error {
    /// The host architecture has no published artifacts.
    UnsupportedPlatform,
    /// The release index returned no release with downloadable assets.
    NoReleaseFound { repository: String },
    /// No asset of the release matched the expected artifact name.
    AssetNotFound { expected: String },
    /// Creating the versioned install directory failed.
    DirectoryCreationFailed { message: String },
    /// Fetching the selected asset failed.
    DownloadFailed { message: String },
    /// Marking the downloaded binary executable failed.
    MakeExecutableFailed { message: String },
    /// A query or installation step failed; the message carries the
    /// underlying cause.
    InstallFailed { message: String },
    /// The registry reported a successful install, but the expected entry
    /// path was not produced.
    InstallVerificationFailed { package: String, entry_path: String },
    /// A debug request named an adapter this crate does not serve.
    UnsupportedAdapter { adapter: String },
    /// The debug request's `request` field was not `launch`.
    UnsupportedRequestKind,
    /// Attaching to a running build is never supported.
    UnsupportedDebugRequestVariant,
    /// The stored debug configuration could not be read.
    InvalidConfig { message: String },
    /// A language-server identity this crate does not know.
    UnknownLanguageServer { id: String },
}

/// The diagnostic text of each error kind.
pub open spec fn spec_message(e: Error) -> Seq<char> {
    match e {
        Error::UnsupportedPlatform => "unsupported architecture: x86"@,
        Error::NoReleaseFound { repository } => "no release with downloadable assets found for "@
            + repository@,
        Error::AssetNotFound { expected } => "no asset found matching "@ + expected@,
        Error::DirectoryCreationFailed { message } => "failed to create directory: "@ + message@,
        Error::DownloadFailed { message } => "failed to download file: "@ + message@,
        Error::MakeExecutableFailed { message } => "failed to make file executable: "@ + message@,
        Error::InstallFailed { message } => message@,
        Error::InstallVerificationFailed { package, entry_path } => "installed package '"@
            + package@ + "' did not contain expected path '"@ + entry_path@ + "'"@,
        Error::UnsupportedAdapter { adapter } => {
            "Unexpected debug adapter launched in the Dockerfile extension \""@ + adapter@ + "\""@
        },
        Error::UnsupportedRequestKind => {
            "Invalid request, expected `request` to be `launch`, `attach` or any other value is unsupported"@
        },
        Error::UnsupportedDebugRequestVariant => "attaching to a running build is not supported"@,
        Error::InvalidConfig { message } => message@,
        Error::UnknownLanguageServer { id } => "unknown language server: "@ + id@,
    }
}

impl Error {
    /// Renders the error as the diagnostic string handed to the host.
    pub fn message(&self) -> (r: String)
        ensures
            r@ == spec_message(*self),
    {
        match self {
            Error::UnsupportedPlatform => String::from_str("unsupported architecture: x86"),
            Error::NoReleaseFound { repository } => {
                let mut s = String::from_str("no release with downloadable assets found for ");
                s.append(repository.as_str());
                s
            },
            Error::AssetNotFound { expected } => {
                let mut s = String::from_str("no asset found matching ");
                s.append(expected.as_str());
                s
            },
            Error::DirectoryCreationFailed { message } => {
                let mut s = String::from_str("failed to create directory: ");
                s.append(message.as_str());
                s
            },
            Error::DownloadFailed { message } => {
                let mut s = String::from_str("failed to download file: ");
                s.append(message.as_str());
                s
            },
            Error::MakeExecutableFailed { message } => {
                let mut s = String::from_str("failed to make file executable: ");
                s.append(message.as_str());
                s
            },
            Error::InstallFailed { message } => message.clone(),
            Error::InstallVerificationFailed { package, entry_path } => {
                let mut s = String::from_str("installed package '");
                s.append(package.as_str());
                s.append("' did not contain expected path '");
                s.append(entry_path.as_str());
                s.append("'");
                s
            },
            Error::UnsupportedAdapter { adapter } => {
                let mut s = String::from_str(
                    "Unexpected debug adapter launched in the Dockerfile extension \"",
                );
                s.append(adapter.as_str());
                s.append("\"");
                s
            },
            Error::UnsupportedRequestKind => {
                String::from_str(
                    "Invalid request, expected `request` to be `launch`, `attach` or any other value is unsupported",
                )
            },
            Error::UnsupportedDebugRequestVariant => {
                String::from_str("attaching to a running build is not supported")
            },
            Error::InvalidConfig { message } => message.clone(),
            Error::UnknownLanguageServer { id } => {
                let mut s = String::from_str("unknown language server: ");
                s.append(id.as_str());
                s
            },
        }
    }
}

} // verus!
