use moxide::error::ResolveError;
use moxide::platform::{Arch, ArchiveKind, Os};
use moxide::release::{Asset, Release};
use moxide::resolver::{Action, Event, Moxide, Stage};

const LINUX_ASSET: &str = "markdown-oxide-1.2.3-x86_64-unknown-linux-gnu.tar.gz";
const LINUX_BINARY: &str =
    "markdown-oxide-1.2.3/markdown-oxide-1.2.3-x86_64-unknown-linux-gnu/markdown-oxide";

fn asset(name: &str, url: &str) -> Asset {
    Asset { name: name.to_string(), download_url: url.to_string() }
}

fn release_123() -> Release {
    Release {
        version: "1.2.3".to_string(),
        assets: vec![
            asset("markdown-oxide-1.2.3-aarch64-apple-darwin.tar.gz", "https://example.com/mac"),
            asset(LINUX_ASSET, "https://example.com/linux"),
            asset("markdown-oxide-1.2.3-x86_64-pc-windows-gnu.zip", "https://example.com/win"),
        ],
    }
}

fn step(m: &mut Moxide, e: Event) -> Action {
    assert!(m.accepts(&e));
    m.step(e)
}

fn ok(path: &str) -> Action {
    Action::Finish(Ok(path.to_string()))
}

/// Runs a resolution on a miss of the memoized path and the search path, up to the release query.
fn up_to_release(m: &mut Moxide, os: Os, arch: Arch) {
    assert_eq!(step(m, Event::Begin { os, arch }), Action::Probe("markdown-oxide".to_string()));
    assert_eq!(
        step(m, Event::Probed(None)),
        Action::FetchRelease("feel-ix-343/markdown-oxide".to_string())
    );
}

#[test]
fn x86_fails_before_any_network_call_on_every_os() {
    for os in [Os::Mac, Os::Linux, Os::Windows] {
        let mut m = Moxide::new();
        assert_eq!(step(&mut m, Event::Begin { os, arch: Arch::X86 }), Action::Probe("markdown-oxide".to_string()));
        assert_eq!(
            step(&mut m, Event::Probed(None)),
            Action::Finish(Err(ResolveError::UnsupportedPlatform))
        );
        assert_eq!(m.stage(), Stage::Idle);
        assert!(!m.accepts(&Event::ReleaseFetched(Ok(release_123()))));
    }
}

#[test]
fn probe_hit_takes_precedence() {
    let mut m = Moxide::new();
    assert_eq!(
        step(&mut m, Event::Begin { os: Os::Linux, arch: Arch::X8664 }),
        Action::Probe("markdown-oxide".to_string())
    );
    assert_eq!(step(&mut m, Event::Probed(Some("/usr/bin/markdown-oxide".to_string()))), ok("/usr/bin/markdown-oxide"));
    assert_eq!(m.stage(), Stage::Idle);
    // The hit is memoized: the next resolution only checks the file.
    assert_eq!(
        step(&mut m, Event::Begin { os: Os::Linux, arch: Arch::X8664 }),
        Action::CheckFile("/usr/bin/markdown-oxide".to_string())
    );
    assert_eq!(step(&mut m, Event::FileChecked(true)), ok("/usr/bin/markdown-oxide"));
}

#[test]
fn probe_hit_on_x86_succeeds() {
    let mut m = Moxide::new();
    step(&mut m, Event::Begin { os: Os::Mac, arch: Arch::X86 });
    assert_eq!(step(&mut m, Event::Probed(Some("/opt/mo".to_string()))), ok("/opt/mo"));
}

#[test]
fn memoized_path_returned_without_collaborators() {
    let mut m = Moxide::new();
    up_to_release(&mut m, Os::Linux, Arch::X8664);
    assert_eq!(step(&mut m, Event::ReleaseFetched(Ok(release_123()))), Action::CheckFile(LINUX_BINARY.to_string()));
    assert_eq!(step(&mut m, Event::FileChecked(true)), ok(LINUX_BINARY));
    // Second resolution: one file check, then the same path.
    assert_eq!(
        step(&mut m, Event::Begin { os: Os::Linux, arch: Arch::X8664 }),
        Action::CheckFile(LINUX_BINARY.to_string())
    );
    assert_eq!(step(&mut m, Event::FileChecked(true)), ok(LINUX_BINARY));
}

#[test]
fn stale_memoized_path_falls_back_to_probe() {
    let mut m = Moxide::new();
    step(&mut m, Event::Begin { os: Os::Linux, arch: Arch::X8664 });
    step(&mut m, Event::Probed(Some("/old/markdown-oxide".to_string())));
    assert_eq!(
        step(&mut m, Event::Begin { os: Os::Linux, arch: Arch::X8664 }),
        Action::CheckFile("/old/markdown-oxide".to_string())
    );
    assert_eq!(step(&mut m, Event::FileChecked(false)), Action::Probe("markdown-oxide".to_string()));
    assert_eq!(
        step(&mut m, Event::Probed(Some("/new/markdown-oxide".to_string()))),
        ok("/new/markdown-oxide")
    );
}

#[test]
fn installed_release_is_not_downloaded_again() {
    let mut m = Moxide::new();
    up_to_release(&mut m, Os::Linux, Arch::X8664);
    assert_eq!(
        step(&mut m, Event::ReleaseFetched(Ok(release_123()))),
        Action::CheckFile(LINUX_BINARY.to_string())
    );
    assert_eq!(step(&mut m, Event::FileChecked(true)), ok(LINUX_BINARY));
    assert_eq!(m.stage(), Stage::Idle);
}

#[test]
fn missing_binary_is_downloaded_once_then_stale_versions_pruned() {
    let mut m = Moxide::new();
    up_to_release(&mut m, Os::Linux, Arch::X8664);
    step(&mut m, Event::ReleaseFetched(Ok(release_123())));
    assert_eq!(
        step(&mut m, Event::FileChecked(false)),
        Action::Download {
            url: "https://example.com/linux".to_string(),
            dir: "markdown-oxide-1.2.3".to_string(),
            kind: ArchiveKind::GzipTar,
        }
    );
    assert_eq!(step(&mut m, Event::Downloaded(Ok(()))), Action::ListDir(".".to_string()));
    let entries = vec![
        "markdown-oxide-1.1.0".to_string(),
        "markdown-oxide-1.2.3".to_string(),
        "partial".to_string(),
    ];
    assert_eq!(
        step(&mut m, Event::Listed(Ok(entries))),
        Action::Remove(vec!["markdown-oxide-1.1.0".to_string(), "partial".to_string()])
    );
    assert_eq!(step(&mut m, Event::Pruned), ok(LINUX_BINARY));
    assert!(!m.accepts(&Event::Downloaded(Ok(()))));
}

#[test]
fn windows_download_uses_zip_and_exe() {
    let mut m = Moxide::new();
    up_to_release(&mut m, Os::Windows, Arch::X8664);
    let bin = "markdown-oxide-1.2.3/markdown-oxide-1.2.3-x86_64-pc-windows-gnu/markdown-oxide.exe";
    assert_eq!(step(&mut m, Event::ReleaseFetched(Ok(release_123()))), Action::CheckFile(bin.to_string()));
    assert_eq!(
        step(&mut m, Event::FileChecked(false)),
        Action::Download {
            url: "https://example.com/win".to_string(),
            dir: "markdown-oxide-1.2.3".to_string(),
            kind: ArchiveKind::Zip,
        }
    );
}

#[test]
fn missing_asset_error_names_expected_asset() {
    let mut m = Moxide::new();
    up_to_release(&mut m, Os::Linux, Arch::Aarch64);
    let r = step(&mut m, Event::ReleaseFetched(Ok(release_123())));
    let expected = "markdown-oxide-1.2.3-aarch64-unknown-linux-gnu.tar.gz";
    assert_eq!(r, Action::Finish(Err(ResolveError::NoMatchingAsset(expected.to_string()))));
    match r {
        Action::Finish(Err(e)) => assert!(e.message().contains(expected)),
        _ => unreachable!(),
    }
}

#[test]
fn asset_match_is_case_sensitive() {
    let mut m = Moxide::new();
    up_to_release(&mut m, Os::Linux, Arch::X8664);
    let rel = Release {
        version: "1.2.3".to_string(),
        assets: vec![asset(&LINUX_ASSET.to_uppercase(), "https://example.com/upper")],
    };
    assert_eq!(
        step(&mut m, Event::ReleaseFetched(Ok(rel))),
        Action::Finish(Err(ResolveError::NoMatchingAsset(LINUX_ASSET.to_string())))
    );
}

#[test]
fn release_lookup_error_is_passed_through() {
    let mut m = Moxide::new();
    up_to_release(&mut m, Os::Mac, Arch::Aarch64);
    let r = step(&mut m, Event::ReleaseFetched(Err("no releases found".to_string())));
    assert_eq!(r, Action::Finish(Err(ResolveError::ReleaseLookupFailed("no releases found".to_string()))));
    assert_eq!(m.stage(), Stage::Idle);
}

#[test]
fn download_failure_is_reported_with_cause() {
    let mut m = Moxide::new();
    up_to_release(&mut m, Os::Linux, Arch::X8664);
    step(&mut m, Event::ReleaseFetched(Ok(release_123())));
    step(&mut m, Event::FileChecked(false));
    let r = step(&mut m, Event::Downloaded(Err("connection reset".to_string())));
    assert_eq!(r, Action::Finish(Err(ResolveError::DownloadFailed("connection reset".to_string()))));
    match r {
        Action::Finish(Err(e)) => assert_eq!(e.message(), "failed to download file: connection reset"),
        _ => unreachable!(),
    }
    // A failed attempt does not poison the memoized path: nothing is memoized.
    assert_eq!(
        step(&mut m, Event::Begin { os: Os::Linux, arch: Arch::X8664 }),
        Action::Probe("markdown-oxide".to_string())
    );
}

#[test]
fn listing_failure_still_resolves() {
    let mut m = Moxide::new();
    up_to_release(&mut m, Os::Linux, Arch::X8664);
    step(&mut m, Event::ReleaseFetched(Ok(release_123())));
    step(&mut m, Event::FileChecked(false));
    step(&mut m, Event::Downloaded(Ok(())));
    assert_eq!(step(&mut m, Event::Listed(Err("permission denied".to_string()))), ok(LINUX_BINARY));
}

#[test]
fn pruning_with_nothing_stale_still_resolves() {
    let mut m = Moxide::new();
    up_to_release(&mut m, Os::Linux, Arch::X8664);
    step(&mut m, Event::ReleaseFetched(Ok(release_123())));
    step(&mut m, Event::FileChecked(false));
    step(&mut m, Event::Downloaded(Ok(())));
    assert_eq!(
        step(&mut m, Event::Listed(Ok(vec!["markdown-oxide-1.2.3".to_string()]))),
        Action::Remove(Vec::new())
    );
    assert_eq!(step(&mut m, Event::Pruned), ok(LINUX_BINARY));
}

#[test]
fn out_of_order_events_are_not_accepted() {
    let m = Moxide::new();
    assert_eq!(m.stage(), Stage::Idle);
    assert!(m.accepts(&Event::Begin { os: Os::Linux, arch: Arch::X8664 }));
    assert!(!m.accepts(&Event::FileChecked(true)));
    assert!(!m.accepts(&Event::Probed(None)));
    assert!(!m.accepts(&Event::Pruned));
    assert!(!m.accepts(&Event::Listed(Ok(Vec::new()))));
}
