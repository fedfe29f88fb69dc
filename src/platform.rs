//! Operating systems, CPU architectures, and the names that releases use for them.

use vstd::prelude::*;

verus! {

/// An operating system the host can run on.
#[derive(Clone, Copy, Debug, PartialEq, Eq, Structural)]
pub enum Os {
    Mac,
    Linux,
    Windows,
}

/// A CPU architecture the host can run on.
#[derive(Clone, Copy, Debug, PartialEq, Eq, Structural)]
pub enum Arch {
    Aarch64,
    X86,
    X8664,
}

/// How a release archive is packed.
#[derive(Clone, Copy, Debug, PartialEq, Eq, Structural)]
pub enum ArchiveKind {
    GzipTar,
    Zip,
}

/// Releases are published for every architecture but 32-bit x86.
pub open spec fn is_supported(arch: Arch) -> bool {
    !(arch is X86)
}

/// The architecture part of an asset name (meaningful for supported architectures).
pub open spec fn spec_arch_token(arch: Arch) -> Seq<char> {
    match arch {
        Arch::Aarch64 => "aarch64"@,
        Arch::X8664 => "x86_64"@,
        Arch::X86 => Seq::empty(),
    }
}

/// The target-triple tail naming the operating system in an asset name.
pub open spec fn spec_os_token(os: Os) -> Seq<char> {
    match os {
        Os::Mac => "apple-darwin"@,
        Os::Linux => "unknown-linux-gnu"@,
        Os::Windows => "pc-windows-gnu"@,
    }
}

pub open spec fn spec_archive_extension(os: Os) -> Seq<char> {
    match os {
        Os::Windows => ".zip"@,
        _ => ".tar.gz"@,
    }
}

pub open spec fn spec_exe_suffix(os: Os) -> Seq<char> {
    match os {
        Os::Windows => ".exe"@,
        _ => ""@,
    }
}

pub open spec fn spec_archive_kind(os: Os) -> ArchiveKind {
    match os {
        Os::Windows => ArchiveKind::Zip,
        _ => ArchiveKind::GzipTar,
    }
}

/// `markdown-oxide-<version>-<arch>-<os>`: the asset name without its extension,
/// which is also the directory the archive unpacks into.
pub open spec fn spec_asset_base_name(version: Seq<char>, os: Os, arch: Arch) -> Seq<char> {
    "markdown-oxide-"@ + version + "-"@ + spec_arch_token(arch) + "-"@ + spec_os_token(os)
}

/// The full file name of the release asset built for `os` and `arch`.
pub open spec fn spec_asset_file_name(version: Seq<char>, os: Os, arch: Arch) -> Seq<char> {
    spec_asset_base_name(version, os, arch) + spec_archive_extension(os)
}

/// The directory that holds one installed version.
pub open spec fn spec_version_dir(version: Seq<char>) -> Seq<char> {
    "markdown-oxide-"@ + version
}

/// Where the executable lies once the asset is unpacked.
pub open spec fn spec_binary_path(version: Seq<char>, os: Os, arch: Arch) -> Seq<char> {
    spec_version_dir(version) + "/"@ + spec_asset_base_name(version, os, arch) + "/markdown-oxide"@
        + spec_exe_suffix(os)
}

/// The architecture part of an asset name; `None` for x86, which has no releases.
pub fn arch_token(arch: Arch) -> (r: Option<&'static str>)
    ensures
        r is Some <==> is_supported(arch),
        r is Some ==> r->0@ == spec_arch_token(arch),
{
    match arch {
        Arch::Aarch64 => Some("aarch64"),
        Arch::X86 => None,
        Arch::X8664 => Some("x86_64"),
    }
}

pub fn os_token(os: Os) -> (r: &'static str)
    ensures
        r@ == spec_os_token(os),
{
    match os {
        Os::Mac => "apple-darwin",
        Os::Linux => "unknown-linux-gnu",
        Os::Windows => "pc-windows-gnu",
    }
}

pub fn archive_extension(os: Os) -> (r: &'static str)
    ensures
        r@ == spec_archive_extension(os),
{
    match os {
        Os::Mac | Os::Linux => ".tar.gz",
        Os::Windows => ".zip",
    }
}

pub fn exe_suffix(os: Os) -> (r: &'static str)
    ensures
        r@ == spec_exe_suffix(os),
{
    match os {
        Os::Windows => ".exe",
        _ => "",
    }
}

pub fn archive_kind(os: Os) -> (r: ArchiveKind)
    ensures
        r == spec_archive_kind(os),
{
    match os {
        Os::Mac | Os::Linux => ArchiveKind::GzipTar,
        Os::Windows => ArchiveKind::Zip,
    }
}

/// The asset name without extension; `None` exactly when the architecture is x86.
pub fn asset_base_name(version: &str, os: Os, arch: Arch) -> (r: Option<String>)
    ensures
        r is Some <==> is_supported(arch),
        r is Some ==> r->0@ == spec_asset_base_name(version@, os, arch),
{
    match arch_token(arch) {
        None => None,
        Some(arch_part) => {
            let mut name = String::from_str("markdown-oxide-");
            name.append(version);
            name.append("-");
            name.append(arch_part);
            name.append("-");
            name.append(os_token(os));
            Some(name)
        },
    }
}

pub fn version_dir(version: &str) -> (r: String)
    ensures
        r@ == spec_version_dir(version@),
{
    let mut dir = String::from_str("markdown-oxide-");
    dir.append(version);
    dir
}

/// The path of the unpacked executable, relative to the working directory.
pub fn binary_path(version: &str, os: Os, arch: Arch) -> (r: Option<String>)
    ensures
        r is Some <==> is_supported(arch),
        r is Some ==> r->0@ == spec_binary_path(version@, os, arch),
{
    match asset_base_name(version, os, arch) {
        None => None,
        Some(base) => {
            let mut path = version_dir(version);
            path.append("/");
            path.append(base.as_str());
            path.append("/markdown-oxide");
            path.append(exe_suffix(os));
            Some(path)
        },
    }
}

} // verus!
