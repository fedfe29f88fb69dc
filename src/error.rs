//! Why a resolution failed.

use vstd::prelude::*;

verus! {

/// The distinguishable causes of a failed resolution.
#[derive(Clone, Debug, PartialEq, Eq)]
pub enum ResolveError {
    /// 32-bit x86 has no published builds.
    UnsupportedPlatform,
    /// The release holds no asset with the name built for this platform; the name is kept.
    NoMatchingAsset(String),
    /// The release source failed; its message is kept as it came.
    ReleaseLookupFailed(String),
    /// Fetching or unpacking the asset failed; the cause is kept.
    DownloadFailed(String),
}

/// A `ResolveError` with its text as character sequences.
pub enum ErrorView {
    UnsupportedPlatform,
    NoMatchingAsset(Seq<char>),
    ReleaseLookupFailed(Seq<char>),
    DownloadFailed(Seq<char>),
}

impl View for ResolveError {
    type V = ErrorView;

    open spec fn view(&self) -> ErrorView {
        match self {
            ResolveError::UnsupportedPlatform => ErrorView::UnsupportedPlatform,
            ResolveError::NoMatchingAsset(n) => ErrorView::NoMatchingAsset(n@),
            ResolveError::ReleaseLookupFailed(m) => ErrorView::ReleaseLookupFailed(m@),
            ResolveError::DownloadFailed(m) => ErrorView::DownloadFailed(m@),
        }
    }
}

/// The text shown to the user for an error.
pub open spec fn spec_message(e: ErrorView) -> Seq<char> {
    match e {
        ErrorView::UnsupportedPlatform => "unsupported platform"@,
        ErrorView::NoMatchingAsset(n) => "no asset found matching \""@ + n + "\""@,
        ErrorView::ReleaseLookupFailed(m) => m,
        ErrorView::DownloadFailed(m) => "failed to download file: "@ + m,
    }
}

impl ResolveError {
    /// The human-readable message the host displays.
    pub fn message(&self) -> (r: String)
        ensures
            r@ == spec_message(self@),
    {
        match self {
            ResolveError::UnsupportedPlatform => String::from_str("unsupported platform"),
            ResolveError::NoMatchingAsset(n) => {
                let mut m = String::from_str("no asset found matching \"");
                m.append(n.as_str());
                m.append("\"");
                m
            },
            ResolveError::ReleaseLookupFailed(m) => m.clone(),
            ResolveError::DownloadFailed(cause) => {
                let mut m = String::from_str("failed to download file: ");
                m.append(cause.as_str());
                m
            },
        }
    }
}

} // verus!
