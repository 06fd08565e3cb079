//! Precompiled-artifact acquisition: deterministic cache file names and
//! release-asset URLs for a platform, architecture and rendering backend,
//! an idempotent download plan that skips assets already in the cache, and
//! the rule that header extraction may start only once every transfer has
//! succeeded.

use vstd::prelude::*;

use crate::backend::{backend_name, spec_backend_name, RenderingBackend};
use crate::text::{append_str, concat3};

verus! {

/// The operating-system family of the build target.
#[derive(Clone, Copy, PartialEq, Eq, Structural, Debug)]
pub enum TargetOs {
    Linux,
    MacOs,
    Other,
}

/// The processor architecture of the build target.
#[derive(Clone, Copy, PartialEq, Eq, Structural, Debug)]
pub enum TargetArch {
    Arm64,
    X64,
    Other,
}

/// The release-asset target identifier for a platform and architecture, or
/// `None` when no precompiled artifact exists for the combination.
pub open spec fn spec_target_name(os: TargetOs, arch: TargetArch) -> Option<Seq<char>> {
    match (os, arch) {
        (TargetOs::Linux, TargetArch::Arm64) => Some("linux-arm64"@),
        (TargetOs::Linux, TargetArch::X64) => Some("linux-x64"@),
        (TargetOs::MacOs, TargetArch::Arm64) => Some("macos-arm64"@),
        _ => None,
    }
}

/// Names the target a precompiled artifact can be downloaded for; any other
/// platform/architecture combination is an unsupported target.
pub fn target_name(os: TargetOs, arch: TargetArch) -> (r: Option<&'static str>)
    ensures
        r is Some <==> spec_target_name(os, arch) is Some,
        r is Some ==> r->0@ == spec_target_name(os, arch)->0,
{
    match (os, arch) {
        (TargetOs::Linux, TargetArch::Arm64) => Some("linux-arm64"),
        (TargetOs::Linux, TargetArch::X64) => Some("linux-x64"),
        (TargetOs::MacOs, TargetArch::Arm64) => Some("macos-arm64"),
        _ => None,
    }
}

/// The cache file name of the precompiled static library for a target and
/// backend.
pub open spec fn spec_library_file_name(target: Seq<char>, backend: RenderingBackend) -> Seq<
    char,
> {
    "libmaplibre-native-core-"@ + target + "-"@ + spec_backend_name(backend) + ".a"@
}

/// The cache file name of the header archive; one archive serves every
/// target and backend.
pub open spec fn spec_headers_file_name() -> Seq<char> {
    "maplibre-native-headers.tar.gz"@
}

/// `name` under the directory `dir`.
pub open spec fn spec_join_path(dir: Seq<char>, name: Seq<char>) -> Seq<char> {
    dir + "/"@ + name
}

pub fn join_path(dir: &str, name: &str) -> (r: String)
    ensures
        r@ == spec_join_path(dir@, name@),
{
    concat3(dir, "/", name)
}

pub fn library_file_name(target: &str, backend: RenderingBackend) -> (r: String)
    ensures
        r@ == spec_library_file_name(target@, backend),
{
    let mut out = String::new();
    append_str(&mut out, "libmaplibre-native-core-");
    append_str(&mut out, target);
    append_str(&mut out, "-");
    append_str(&mut out, backend_name(backend));
    append_str(&mut out, ".a");
    proof {
        assert(out@ =~= spec_library_file_name(target@, backend));
    }
    out
}

pub fn headers_file_name() -> (r: String)
    ensures
        r@ == spec_headers_file_name(),
{
    "maplibre-native-headers.tar.gz".to_owned()
}

/// The release-asset URL for one asset: the release base, the tag derived
/// from the pinned revision, and the asset file name.
pub open spec fn spec_asset_url(
    release_base: Seq<char>,
    revision: Seq<char>,
    asset: Seq<char>,
) -> Seq<char> {
    release_base + "/core-"@ + revision + "/"@ + asset
}

pub fn asset_url(release_base: &str, revision: &str, asset: &str) -> (r: String)
    ensures
        r@ == spec_asset_url(release_base@, revision@, asset@),
{
    let mut out = String::new();
    append_str(&mut out, release_base);
    append_str(&mut out, "/core-");
    append_str(&mut out, revision);
    append_str(&mut out, "/");
    append_str(&mut out, asset);
    proof {
        assert(out@ =~= spec_asset_url(release_base@, revision@, asset@));
    }
    out
}

/// One pending network transfer: the URL to fetch and the cache file it
/// lands in.
#[derive(Debug)]
pub struct DownloadRequest {
    pub url: String,
    pub cache_file: String,
}

/// The transfers one artifact resolution still needs, at most one per
/// distinct asset; they may run in parallel.
#[derive(Debug)]
pub struct DownloadPlan {
    pub requests: Vec<DownloadRequest>,
}

/// Plans the downloads for the precompiled library and the header archive.
/// An asset whose cache file is already present is skipped, so a run with a
/// warm cache issues no network request at all; a cold asset is fetched from
/// its deterministic release URL into its deterministic cache file.
pub fn plan_artifact_downloads(
    release_base: &str,
    revision: &str,
    out_dir: &str,
    target: &str,
    backend: RenderingBackend,
    library_cached: bool,
    headers_cached: bool,
) -> (r: DownloadPlan)
    ensures
        r.requests@.len() == (if library_cached {
            0int
        } else {
            1int
        }) + (if headers_cached {
            0int
        } else {
            1int
        }),
        library_cached && headers_cached ==> r.requests@.len() == 0,
        !library_cached ==> r.requests@[0].url@ == spec_asset_url(
            release_base@,
            revision@,
            spec_library_file_name(target@, backend),
        ) && r.requests@[0].cache_file@ == spec_join_path(
            out_dir@,
            spec_library_file_name(target@, backend),
        ),
        !headers_cached ==> r.requests@[r.requests@.len() - 1].url@ == spec_asset_url(
            release_base@,
            revision@,
            spec_headers_file_name(),
        ) && r.requests@[r.requests@.len() - 1].cache_file@ == spec_join_path(
            out_dir@,
            spec_headers_file_name(),
        ),
{
    let mut requests: Vec<DownloadRequest> = Vec::new();
    if !library_cached {
        let name = library_file_name(target, backend);
        let url = asset_url(release_base, revision, name.as_str());
        let cache_file = join_path(out_dir, name.as_str());
        requests.push(DownloadRequest { url, cache_file });
    }
    if !headers_cached {
        let name = headers_file_name();
        let url = asset_url(release_base, revision, name.as_str());
        let cache_file = join_path(out_dir, name.as_str());
        requests.push(DownloadRequest { url, cache_file });
    }
    DownloadPlan { requests }
}

/// Where the resolved precompiled artifact lives on disk: the static library,
/// the downloaded header archive, and the directory the archive is unpacked
/// into.
#[derive(Debug)]
pub struct ArtifactPaths {
    pub library_file: String,
    pub header_archive: String,
    pub extraction_dir: String,
}

/// The deterministic on-disk layout of the artifact cache under `out_dir`.
pub fn artifact_paths(out_dir: &str, target: &str, backend: RenderingBackend) -> (r:
    ArtifactPaths)
    ensures
        r.library_file@ == spec_join_path(out_dir@, spec_library_file_name(target@, backend)),
        r.header_archive@ == spec_join_path(out_dir@, spec_headers_file_name()),
        r.extraction_dir@ == spec_join_path(out_dir@, "headers"@),
{
    let lib_name = library_file_name(target, backend);
    let library_file = join_path(out_dir, lib_name.as_str());
    let hdr_name = headers_file_name();
    let header_archive = join_path(out_dir, hdr_name.as_str());
    let extraction_dir = join_path(out_dir, "headers");
    ArtifactPaths { library_file, header_archive, extraction_dir }
}

/// The one archive unpacking the artifact path performs: decompress and
/// unpack `archive` into `destination`, overwriting, so that repeating it
/// with identical inputs is idempotent.
#[derive(Debug)]
pub struct ExtractionOrder {
    pub archive: String,
    pub destination: String,
    pub overwrite: bool,
}

/// Ties extraction to the transfers: only when every planned download
/// succeeded does an extraction order exist; the first failed transfer is
/// reported instead, so a transport error on either asset aborts the build
/// before any extraction takes place.
pub fn after_downloads(paths: &ArtifactPaths, outcomes: &Vec<bool>) -> (r: Result<
    ExtractionOrder,
    usize,
>)
    ensures
        r is Ok <==> (forall|i: int| 0 <= i < outcomes@.len() ==> outcomes@[i]),
        r is Ok ==> r->Ok_0.archive@ == paths.header_archive@ && r->Ok_0.destination@
            == paths.extraction_dir@ && r->Ok_0.overwrite,
        r is Err ==> r->Err_0 < outcomes@.len() && !outcomes@[r->Err_0 as int] && (forall|
            j: int,
        |
            0 <= j < r->Err_0 ==> outcomes@[j]),
{
    let mut i: usize = 0;
    while i < outcomes.len()
        invariant
            i <= outcomes@.len(),
            forall|j: int| 0 <= j < i ==> outcomes@[j],
        decreases outcomes@.len() - i,
    {
        if !outcomes[i] {
            return Err(i);
        }
        i = i + 1;
    }
    Ok(
        ExtractionOrder {
            archive: paths.header_archive.clone(),
            destination: paths.extraction_dir.clone(),
            overwrite: true,
        },
    )
}

} // verus!
