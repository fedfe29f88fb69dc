//! The resolver as a decision machine.
//!
//! The host performs every effect (file checks, the search-path probe, the
//! release query, the download, directory listing and removal) and reports
//! each outcome back as an [`Event`]; [`Moxide::step`] decides the next
//! [`Action`] from its state and that event.

use vstd::prelude::*;
use crate::error::{ErrorView, ResolveError};
use crate::platform::{
    arch_token, archive_extension, archive_kind, asset_base_name, binary_path, is_supported, spec_archive_kind,
    spec_asset_file_name, spec_binary_path, spec_version_dir, version_dir, Arch, ArchiveKind, Os,
};
use crate::release::{find_asset, spec_find_asset, Release};

verus! {

/// Where a resolution stands, that is, which outcome the machine waits for.
#[derive(Clone, Copy, Debug, PartialEq, Eq, Structural)]
pub enum Stage {
    /// No resolution in progress.
    Idle,
    /// Waiting to hear whether the memoized path is still a regular file.
    CheckingCached,
    /// Waiting for the search-path probe.
    Probing,
    /// Waiting for the latest release.
    LookingUp,
    /// Waiting to hear whether the executable is already unpacked.
    CheckingInstalled,
    /// Waiting for the download and unpacking.
    Downloading,
    /// Waiting for the listing of the working directory.
    Listing,
    /// Waiting for the stale entries to be removed.
    Pruning,
}

/// An outcome reported by the host.
#[derive(Debug, PartialEq, Eq)]
pub enum Event {
    /// A resolution is requested on this platform.
    Begin { os: Os, arch: Arch },
    /// Whether the path last handed out in `CheckFile` is a regular file.
    FileChecked(bool),
    /// What the search path gave for the name handed out in `Probe`.
    Probed(Option<String>),
    /// The release source's answer.
    ReleaseFetched(Result<Release, String>),
    /// Whether the download and unpacking succeeded.
    Downloaded(Result<(), String>),
    /// The entry names of the working directory, or why they could not be read.
    Listed(Result<Vec<String>, String>),
    /// The removal was attempted; its failures are ignored.
    Pruned,
}

/// What the host is asked to do next.
#[derive(Debug, PartialEq, Eq)]
pub enum Action {
    /// Report whether this path is a regular file.
    CheckFile(String),
    /// Look this binary name up on the search path.
    Probe(String),
    /// Announce an update check, then fetch the latest release of this repository
    /// that has assets and is not a pre-release.
    FetchRelease(String),
    /// Announce a download, then fetch `url` and unpack it as `kind` into `dir`.
    Download { url: String, dir: String, kind: ArchiveKind },
    /// List the entry names of this directory.
    ListDir(String),
    /// Remove each of these working-directory entries recursively, ignoring failures.
    Remove(Vec<String>),
    /// The resolution is over, with this path or this error.
    Finish(Result<String, ResolveError>),
}

/// An `Action` with its text as character sequences.
pub enum ActionView {
    CheckFile(Seq<char>),
    Probe(Seq<char>),
    FetchRelease(Seq<char>),
    Download { url: Seq<char>, dir: Seq<char>, kind: ArchiveKind },
    ListDir(Seq<char>),
    Remove(Seq<Seq<char>>),
    Finish(Result<Seq<char>, ErrorView>),
}

pub open spec fn names(v: Seq<String>) -> Seq<Seq<char>> {
    v.map_values(|s: String| s@)
}

impl View for Action {
    type V = ActionView;

    open spec fn view(&self) -> ActionView {
        match self {
            Action::CheckFile(p) => ActionView::CheckFile(p@),
            Action::Probe(n) => ActionView::Probe(n@),
            Action::FetchRelease(r) => ActionView::FetchRelease(r@),
            Action::Download { url, dir, kind } => ActionView::Download {
                url: url@,
                dir: dir@,
                kind: *kind,
            },
            Action::ListDir(d) => ActionView::ListDir(d@),
            Action::Remove(v) => ActionView::Remove(names(v@)),
            Action::Finish(r) => ActionView::Finish(
                match r {
                    Ok(p) => Ok(p@),
                    Err(e) => Err(e@),
                },
            ),
        }
    }
}

/// The entries of `entries` other than `keep`, in their order.
pub open spec fn spec_stale_entries(entries: Seq<Seq<char>>, keep: Seq<char>) -> Seq<Seq<char>>
    decreases entries.len(),
{
    if entries.len() == 0 {
        Seq::empty()
    } else {
        let rest = spec_stale_entries(entries.drop_last(), keep);
        if entries.last() != keep {
            rest.push(entries.last())
        } else {
            rest
        }
    }
}

/// The entries that pruning removes: every name but `keep`, in order.
pub fn stale_entries(entries: &Vec<String>, keep: &String) -> (r: Vec<String>)
    ensures
        names(r@) == spec_stale_entries(names(entries@), keep@),
{
    let mut stale: Vec<String> = Vec::new();
    let mut i: usize = 0;
    while i < entries.len()
        invariant
            i <= entries@.len(),
            names(stale@) == spec_stale_entries(names(entries@.subrange(0, i as int)), keep@),
        decreases entries@.len() - i,
    {
        let ghost before = stale@;
        proof {
            assert(names(entries@.subrange(0, i + 1)).drop_last() =~= names(
                entries@.subrange(0, i as int),
            ));
            assert(names(entries@.subrange(0, i + 1)).last() == entries@[i as int]@);
        }
        if entries[i] != *keep {
            stale.push(entries[i].clone());
            assert(names(stale@) =~= names(before).push(entries@[i as int]@));
        }
        i += 1;
    }
    assert(entries@.subrange(0, entries@.len() as int) =~= entries@);
    stale
}

/// The resolver's state as plain values.
pub struct MoxideView {
    /// The memoized binary path.
    pub cached: Option<Seq<char>>,
    pub stage: Stage,
    /// The platform of the resolution in progress.
    pub os: Os,
    pub arch: Arch,
    /// The release version and asset URL chosen by the resolution in progress.
    pub version: Seq<char>,
    pub download_url: Seq<char>,
}

/// The resolver of the markdown-oxide binary, with its memoized path.
pub struct Moxide {
    cached_binary_path: Option<String>,
    stage: Stage,
    os: Os,
    arch: Arch,
    version: String,
    download_url: String,
}

impl View for Moxide {
    type V = MoxideView;

    closed spec fn view(&self) -> MoxideView {
        MoxideView {
            cached: match self.cached_binary_path {
                Some(p) => Some(p@),
                None => None,
            },
            stage: self.stage,
            os: self.os,
            arch: self.arch,
            version: self.version@,
            download_url: self.download_url@,
        }
    }
}

/// The stages in which a release for the current platform is being handled.
pub open spec fn past_probe(stage: Stage) -> bool {
    ||| stage is LookingUp
    ||| stage is CheckingInstalled
    ||| stage is Downloading
    ||| stage is Listing
    ||| stage is Pruning
}

/// What every reachable state satisfies.
pub open spec fn wf(s: MoxideView) -> bool {
    &&& (s.stage is CheckingCached ==> s.cached is Some)
    &&& (past_probe(s.stage) ==> is_supported(s.arch))
}

/// Which events the machine can take in each stage; a new resolution may begin at any time.
pub open spec fn spec_accepts(stage: Stage, e: Event) -> bool {
    match e {
        Event::Begin { .. } => true,
        Event::FileChecked(_) => stage is CheckingCached || stage is CheckingInstalled,
        Event::Probed(_) => stage is Probing,
        Event::ReleaseFetched(_) => stage is LookingUp,
        Event::Downloaded(_) => stage is Downloading,
        Event::Listed(_) => stage is Listing,
        Event::Pruned => stage is Pruning,
    }
}

pub open spec fn with_stage(s: MoxideView, stage: Stage) -> MoxideView {
    MoxideView { stage, ..s }
}

/// End the resolution with `path`, memoizing it.
pub open spec fn finish_ok(s: MoxideView, path: Seq<char>) -> (MoxideView, ActionView) {
    (
        MoxideView { cached: Some(path), stage: Stage::Idle, ..s },
        ActionView::Finish(Ok(path)),
    )
}

/// End the resolution with an error, leaving the memoized path as it was.
pub open spec fn finish_err(s: MoxideView, e: ErrorView) -> (MoxideView, ActionView) {
    (with_stage(s, Stage::Idle), ActionView::Finish(Err(e)))
}

/// The executable path of the release being handled.
pub open spec fn current_binary_path(s: MoxideView) -> Seq<char> {
    spec_binary_path(s.version, s.os, s.arch)
}

/// The transition function: the next state and action for a state and an event.
pub open spec fn next(s: MoxideView, e: Event) -> (MoxideView, ActionView) {
    match e {
        Event::Begin { os, arch } => {
            let t = MoxideView { os, arch, ..s };
            match s.cached {
                Some(p) => (with_stage(t, Stage::CheckingCached), ActionView::CheckFile(p)),
                None => (with_stage(t, Stage::Probing), ActionView::Probe("markdown-oxide"@)),
            }
        },
        Event::FileChecked(is_file) => {
            if s.stage is CheckingCached {
                if is_file {
                    finish_ok(s, s.cached->0)
                } else {
                    (with_stage(s, Stage::Probing), ActionView::Probe("markdown-oxide"@))
                }
            } else if is_file {
                finish_ok(s, current_binary_path(s))
            } else {
                (
                    with_stage(s, Stage::Downloading),
                    ActionView::Download {
                        url: s.download_url,
                        dir: spec_version_dir(s.version),
                        kind: spec_archive_kind(s.os),
                    },
                )
            }
        },
        Event::Probed(found) => match found {
            Some(p) => finish_ok(s, p@),
            None => if is_supported(s.arch) {
                (
                    with_stage(s, Stage::LookingUp),
                    ActionView::FetchRelease("feel-ix-343/markdown-oxide"@),
                )
            } else {
                finish_err(s, ErrorView::UnsupportedPlatform)
            },
        },
        Event::ReleaseFetched(res) => match res {
            Err(m) => finish_err(s, ErrorView::ReleaseLookupFailed(m@)),
            Ok(rel) => {
                let name = spec_asset_file_name(rel.version@, s.os, s.arch);
                match spec_find_asset(rel.assets@, name) {
                    None => finish_err(s, ErrorView::NoMatchingAsset(name)),
                    Some(i) => (
                        MoxideView {
                            stage: Stage::CheckingInstalled,
                            version: rel.version@,
                            download_url: rel.assets@[i].download_url@,
                            ..s
                        },
                        ActionView::CheckFile(spec_binary_path(rel.version@, s.os, s.arch)),
                    ),
                }
            },
        },
        Event::Downloaded(res) => match res {
            Err(m) => finish_err(s, ErrorView::DownloadFailed(m@)),
            Ok(_) => (with_stage(s, Stage::Listing), ActionView::ListDir("."@)),
        },
        Event::Listed(res) => match res {
            Err(_) => finish_ok(s, current_binary_path(s)),
            Ok(entries) => (
                with_stage(s, Stage::Pruning),
                ActionView::Remove(
                    spec_stale_entries(names(entries@), spec_version_dir(s.version)),
                ),
            ),
        },
        Event::Pruned => finish_ok(s, current_binary_path(s)),
    }
}

impl Moxide {
    /// A resolver with nothing memoized.
    pub fn new() -> (r: Moxide)
        ensures
            r@.cached is None,
            r@.stage is Idle,
            wf(r@),
    {
        Moxide {
            cached_binary_path: None,
            stage: Stage::Idle,
            os: Os::Linux,
            arch: Arch::X8664,
            version: String::new(),
            download_url: String::new(),
        }
    }

    pub fn stage(&self) -> (r: Stage)
        ensures
            r == self@.stage,
    {
        self.stage
    }

    /// Whether `step` can take `event` now.
    pub fn accepts(&self, event: &Event) -> (r: bool)
        ensures
            r == spec_accepts(self@.stage, *event),
    {
        match event {
            Event::Begin { .. } => true,
            Event::FileChecked(_) => self.stage == Stage::CheckingCached || self.stage
                == Stage::CheckingInstalled,
            Event::Probed(_) => self.stage == Stage::Probing,
            Event::ReleaseFetched(_) => self.stage == Stage::LookingUp,
            Event::Downloaded(_) => self.stage == Stage::Downloading,
            Event::Listed(_) => self.stage == Stage::Listing,
            Event::Pruned => self.stage == Stage::Pruning,
        }
    }

    fn finish_ok(&mut self, path: String) -> (r: Action)
        ensures
            (final(self)@, r@) == finish_ok(old(self)@, path@),
    {
        self.cached_binary_path = Some(path.clone());
        self.stage = Stage::Idle;
        Action::Finish(Ok(path))
    }

    fn finish_err(&mut self, e: ResolveError) -> (r: Action)
        ensures
            (final(self)@, r@) == finish_err(old(self)@, e@),
    {
        self.stage = Stage::Idle;
        Action::Finish(Err(e))
    }

    fn current_binary_path(&self) -> (r: String)
        requires
            is_supported(self@.arch),
        ensures
            r@ == current_binary_path(self@),
    {
        match binary_path(self.version.as_str(), self.os, self.arch) {
            Some(p) => p,
            None => String::new(),
        }
    }

    /// Takes one outcome from the host and decides what to do next.
    pub fn step(&mut self, event: Event) -> (r: Action)
        requires
            wf(old(self)@),
            spec_accepts(old(self)@.stage, event),
        ensures
            wf(final(self)@),
            (final(self)@, r@) == next(old(self)@, event),
    {
        match event {
            Event::Begin { os, arch } => {
                self.os = os;
                self.arch = arch;
                match &self.cached_binary_path {
                    Some(p) => {
                        let p = p.clone();
                        self.stage = Stage::CheckingCached;
                        Action::CheckFile(p)
                    },
                    None => {
                        self.stage = Stage::Probing;
                        Action::Probe(String::from_str("markdown-oxide"))
                    },
                }
            },
            Event::FileChecked(is_file) => {
                if self.stage == Stage::CheckingCached {
                    if is_file {
                        let p = match &self.cached_binary_path {
                            Some(p) => p.clone(),
                            None => String::new(),
                        };
                        self.finish_ok(p)
                    } else {
                        self.stage = Stage::Probing;
                        Action::Probe(String::from_str("markdown-oxide"))
                    }
                } else if is_file {
                    let p = self.current_binary_path();
                    self.finish_ok(p)
                } else {
                    self.stage = Stage::Downloading;
                    Action::Download {
                        url: self.download_url.clone(),
                        dir: version_dir(self.version.as_str()),
                        kind: archive_kind(self.os),
                    }
                }
            },
            Event::Probed(found) => match found {
                Some(p) => self.finish_ok(p),
                None => {
                    if arch_token(self.arch).is_some() {
                        self.stage = Stage::LookingUp;
                        Action::FetchRelease(String::from_str("feel-ix-343/markdown-oxide"))
                    } else {
                        self.finish_err(ResolveError::UnsupportedPlatform)
                    }
                },
            },
            Event::ReleaseFetched(res) => match res {
                Err(m) => self.finish_err(ResolveError::ReleaseLookupFailed(m)),
                Ok(rel) => {
                    let Release { version, assets } = rel;
                    let mut name = match asset_base_name(version.as_str(), self.os, self.arch) {
                        Some(base) => base,
                        None => String::new(),
                    };
                    name.append(archive_extension(self.os));
                    match find_asset(&assets, &name) {
                        None => self.finish_err(ResolveError::NoMatchingAsset(name)),
                        Some(i) => {
                            self.download_url = assets[i].download_url.clone();
                            self.version = version;
                            self.stage = Stage::CheckingInstalled;
                            Action::CheckFile(self.current_binary_path())
                        },
                    }
                },
            },
            Event::Downloaded(res) => match res {
                Err(m) => self.finish_err(ResolveError::DownloadFailed(m)),
                Ok(()) => {
                    self.stage = Stage::Listing;
                    Action::ListDir(String::from_str("."))
                },
            },
            Event::Listed(res) => match res {
                Err(_) => {
                    let p = self.current_binary_path();
                    self.finish_ok(p)
                },
                Ok(entries) => {
                    let keep = version_dir(self.version.as_str());
                    self.stage = Stage::Pruning;
                    Action::Remove(stale_entries(&entries, &keep))
                },
            },
            Event::Pruned => {
                let p = self.current_binary_path();
                self.finish_ok(p)
            },
        }
    }
}

} // verus!
