//! What every resolution guarantees, stated over the transition function.

use vstd::prelude::*;
use crate::error::{spec_message, ErrorView};
use crate::platform::{
    spec_archive_kind, spec_asset_file_name, spec_binary_path, spec_version_dir, Arch, Os,
};
use crate::release::{spec_find_asset, Release};
use crate::resolver::{
    current_binary_path, names, next, past_probe, spec_accepts, spec_stale_entries, wf,
    ActionView, Event, MoxideView,
};

verus! {

/// On x86 the release is never looked up and nothing is downloaded, whatever the
/// operating system: a resolution that misses the memoized path and the search path
/// ends with `UnsupportedPlatform`. The x86 target is kept by every step but a new
/// `Begin`, so this holds along a whole run.
pub proof fn lemma_x86_never_reaches_network(s: MoxideView, e: Event)
    requires
        wf(s),
        spec_accepts(s.stage, e),
        match e {
            Event::Begin { arch, .. } => arch is X86,
            _ => s.arch is X86,
        },
    ensures
        !(next(s, e).1 is FetchRelease),
        !(next(s, e).1 is Download),
        next(s, e).0.arch is X86,
        !past_probe(next(s, e).0.stage),
        e is Probed && e->Probed_0 is None ==> next(s, e).1 == ActionView::Finish(
            Err(ErrorView::UnsupportedPlatform),
        ),
{
}

/// A hit on the search path ends the resolution with that path, memoized, before
/// any release lookup or download.
pub proof fn lemma_probe_hit_short_circuits(s: MoxideView, os: Os, arch: Arch, found: String)
    requires
        wf(s),
        s.cached is None,
    ensures
        next(s, Event::Begin { os, arch }).1 == ActionView::Probe("markdown-oxide"@),
        next(next(s, Event::Begin { os, arch }).0, Event::Probed(Some(found))).1
            == ActionView::Finish(Ok(found@)),
        next(next(s, Event::Begin { os, arch }).0, Event::Probed(Some(found))).0.cached == Some(
            found@,
        ),
        next(next(s, Event::Begin { os, arch }).0, Event::Probed(Some(found))).0.stage is Idle,
{
}

/// A memoized path that is still a regular file is returned as it is, after a
/// single file check and nothing else.
pub proof fn lemma_memoized_path_reused(s: MoxideView, os: Os, arch: Arch)
    requires
        wf(s),
        s.cached is Some,
    ensures
        next(s, Event::Begin { os, arch }).1 == ActionView::CheckFile(s.cached->0),
        next(next(s, Event::Begin { os, arch }).0, Event::FileChecked(true)).1
            == ActionView::Finish(Ok(s.cached->0)),
        next(next(s, Event::Begin { os, arch }).0, Event::FileChecked(true)).0.cached
            == s.cached,
        next(next(s, Event::Begin { os, arch }).0, Event::FileChecked(true)).0.stage is Idle,
{
}

/// When the release has the asset built for this platform, the unpacked executable
/// is looked for at `<version dir>/<asset base name>/markdown-oxide<suffix>`; if it
/// is there, it is returned without any download.
pub proof fn lemma_installed_release_not_downloaded(s: MoxideView, rel: Release)
    requires
        wf(s),
        s.stage is LookingUp,
        spec_find_asset(rel.assets@, spec_asset_file_name(rel.version@, s.os, s.arch)) is Some,
    ensures
        next(s, Event::ReleaseFetched(Ok(rel))).1 == ActionView::CheckFile(
            spec_binary_path(rel.version@, s.os, s.arch),
        ),
        next(next(s, Event::ReleaseFetched(Ok(rel))).0, Event::FileChecked(true)).1
            == ActionView::Finish(Ok(spec_binary_path(rel.version@, s.os, s.arch))),
{
}

/// Membership in the pruned list: exactly the entries other than `keep`.
pub proof fn lemma_stale_entries_contains(entries: Seq<Seq<char>>, keep: Seq<char>, n: Seq<char>)
    ensures
        spec_stale_entries(entries, keep).contains(n) <==> (entries.contains(n) && n != keep),
    decreases entries.len(),
{
    if entries.len() > 0 {
        lemma_stale_entries_contains(entries.drop_last(), keep, n);
        let rest = spec_stale_entries(entries.drop_last(), keep);
        assert(entries =~= entries.drop_last().push(entries.last()));
        if entries.contains(n) {
            let k = choose|k: int| 0 <= k < entries.len() && entries[k] == n;
            if k < entries.len() - 1 {
                assert(entries.drop_last()[k] == n);
            }
        }
        if entries.drop_last().contains(n) {
            let k = choose|k: int| 0 <= k < entries.drop_last().len() && entries.drop_last()[k] == n;
            assert(entries[k] == n);
        }
        if entries.last() != keep {
            assert(rest.push(entries.last())[rest.len() as int] == entries.last());
            if rest.contains(n) {
                let k = choose|k: int| 0 <= k < rest.len() && rest[k] == n;
                assert(rest.push(entries.last())[k] == n);
            }
            if rest.push(entries.last()).contains(n) && n != entries.last() {
                let k = choose|k: int|
                    0 <= k < rest.len() + 1 && rest.push(entries.last())[k] == n;
                assert(rest[k] == n);
            }
        }
    }
}

/// When the executable is missing, exactly one download of the matched asset's URL
/// into the version directory follows; then the working directory is listed and
/// every entry but the version directory is removed; then the executable's path is
/// returned and memoized.
pub proof fn lemma_fresh_install_prunes_stale(s: MoxideView, entries: Vec<String>)
    requires
        wf(s),
        s.stage is CheckingInstalled,
    ensures
        ({
            let s1 = next(s, Event::FileChecked(false));
            let s2 = next(s1.0, Event::Downloaded(Ok(())));
            let s3 = next(s2.0, Event::Listed(Ok(entries)));
            let s4 = next(s3.0, Event::Pruned);
            &&& s1.1 == ActionView::Download {
                url: s.download_url,
                dir: spec_version_dir(s.version),
                kind: spec_archive_kind(s.os),
            }
            &&& s2.1 == ActionView::ListDir("."@)
            &&& s3.1 is Remove
            &&& forall|n: Seq<char>|
                #![trigger s3.1->Remove_0.contains(n)]
                s3.1->Remove_0.contains(n) <==> (names(entries@).contains(n) && n
                    != spec_version_dir(s.version))
            &&& s4.1 == ActionView::Finish(Ok(current_binary_path(s)))
            &&& s4.0.cached == Some(current_binary_path(s))
        }),
{
    let keep = spec_version_dir(s.version);
    assert forall|n: Seq<char>|
        spec_stale_entries(names(entries@), keep).contains(n) <==> (names(entries@).contains(n)
            && n != keep) by {
        lemma_stale_entries_contains(names(entries@), keep, n);
    }
}

/// If no asset carries the name built for this platform, the resolution fails with
/// that name, and the message shown to the user contains it.
pub proof fn lemma_missing_asset_names_it(s: MoxideView, rel: Release)
    requires
        wf(s),
        s.stage is LookingUp,
        forall|j: int|
            0 <= j < rel.assets@.len() ==> rel.assets@[j].name@ != spec_asset_file_name(
                rel.version@,
                s.os,
                s.arch,
            ),
    ensures
        ({
            let name = spec_asset_file_name(rel.version@, s.os, s.arch);
            let msg = spec_message(ErrorView::NoMatchingAsset(name));
            &&& next(s, Event::ReleaseFetched(Ok(rel))).1 == ActionView::Finish(
                Err(ErrorView::NoMatchingAsset(name)),
            )
            &&& exists|k: int|
                0 <= k && k + name.len() <= msg.len() && #[trigger] msg.subrange(k, k + name.len())
                    == name
        }),
{
    let name = spec_asset_file_name(rel.version@, s.os, s.arch);
    let msg = spec_message(ErrorView::NoMatchingAsset(name));
    let k = "no asset found matching \""@.len() as int;
    assert(msg.subrange(k, k + name.len()) =~= name);
}

/// Once the download succeeded, the resolution returns the executable's path
/// whatever the listing and the removals gave: cleanup failures never surface.
pub proof fn lemma_pruning_never_fails(s: MoxideView, listed: Result<Vec<String>, String>)
    requires
        wf(s),
        s.stage is Listing,
    ensures
        ({
            let s1 = next(s, Event::Listed(listed));
            &&& s1.1 is Finish ==> s1.1 == ActionView::Finish(Ok(current_binary_path(s)))
            &&& s1.1 is Remove ==> next(s1.0, Event::Pruned).1 == ActionView::Finish(
                Ok(current_binary_path(s)),
            )
            &&& (s1.1 is Finish || s1.1 is Remove)
        }),
{
}

} // verus!
