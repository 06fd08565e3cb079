//! Source resolution: the single decision of where the native dependency
//! comes from this build. The precedence is fixed — an explicit override
//! wins, then a forced remote clone, then a vendored checkout validated
//! against the pinned revision, and finally the precompiled-artifact
//! download — and every failure is fatal, with a diagnostic naming the
//! offending path and the remediation.

use vstd::prelude::*;

use crate::artifact::{
    artifact_paths, plan_artifact_downloads, spec_asset_url, spec_headers_file_name,
    spec_join_path, spec_library_file_name, spec_target_name, target_name, ArtifactPaths,
    DownloadPlan, TargetArch, TargetOs,
};
use crate::backend::RenderingBackend;
use crate::fetch::{clone_plan, spec_clone_plan_args, ProcessCall};
use crate::revision::RevisionPin;
use crate::text::{append_str, spec_trim, str_eq, trim};

verus! {

/// The four acquisition strategies, exactly one of which each build takes.
#[derive(Clone, Copy, PartialEq, Eq, Structural, Debug)]
pub enum SourceStrategy {
    ExplicitOverride,
    ForceClone,
    Vendored,
    ArtifactDownload,
}

/// The fixed precedence: an explicit override beats everything, a forced
/// clone beats local state, a present vendored checkout beats the network,
/// and the artifact download is the fallback.
pub open spec fn spec_choose_strategy(
    has_override: bool,
    force_clone: bool,
    vendored_present: bool,
) -> SourceStrategy {
    if has_override {
        SourceStrategy::ExplicitOverride
    } else if force_clone {
        SourceStrategy::ForceClone
    } else if vendored_present {
        SourceStrategy::Vendored
    } else {
        SourceStrategy::ArtifactDownload
    }
}

pub fn choose_strategy(has_override: bool, force_clone: bool, vendored_present: bool) -> (r:
    SourceStrategy)
    ensures
        r == spec_choose_strategy(has_override, force_clone, vendored_present),
{
    if has_override {
        SourceStrategy::ExplicitOverride
    } else if force_clone {
        SourceStrategy::ForceClone
    } else if vendored_present {
        SourceStrategy::Vendored
    } else {
        SourceStrategy::ArtifactDownload
    }
}

/// The file that marks a directory as a usable native source tree.
pub fn marker_file_name() -> (r: &'static str)
    ensures
        r@ == "CMakeLists.txt"@,
{
    "CMakeLists.txt"
}

/// Why a resolution was refused. Every variant is fatal: a half-resolved
/// native dependency must never be linked.
#[derive(Debug)]
pub enum ResolveError {
    /// The configured override directory lacks the build-descriptor marker.
    OverrideMissingMarker { path: String },
    /// The vendored checkout exists but holds nothing.
    EmptyVendoredCheckout { path: String },
    /// The local tree's HEAD differs from the pinned commit.
    PinMismatch { expected: String, actual: String },
    /// No precompiled artifact exists for this platform and architecture.
    UnsupportedTarget,
}

/// The diagnostic text of a refusal, naming the offending value and the
/// remediation.
pub open spec fn spec_describe_error(e: ResolveError) -> Seq<char> {
    match e {
        ResolveError::OverrideMissingMarker { path } => "source override directory '"@ + path@
            + "' does not contain CMakeLists.txt"@,
        ResolveError::EmptyVendoredCheckout { path } => "vendored source directory '"@ + path@
            + "' is empty; run git submodule update --init --recursive, or set the source override"@,
        ResolveError::PinMismatch { expected, actual } => "source tree reports revision '"@
            + actual@ + "' but the build pins '"@ + expected@
            + "'; update the pinned revision if the move is intended"@,
        ResolveError::UnsupportedTarget =>
        "no precompiled artifact exists for this platform and architecture; supported targets are linux-arm64, linux-x64 and macos-arm64"@,
    }
}

impl ResolveError {
    /// The fatal diagnostic for this refusal.
    pub fn describe(&self) -> (r: String)
        ensures
            r@ == spec_describe_error(*self),
    {
        let mut out = String::new();
        match self {
            ResolveError::OverrideMissingMarker { path } => {
                append_str(&mut out, "source override directory '");
                append_str(&mut out, path.as_str());
                append_str(&mut out, "' does not contain CMakeLists.txt");
            },
            ResolveError::EmptyVendoredCheckout { path } => {
                append_str(&mut out, "vendored source directory '");
                append_str(&mut out, path.as_str());
                append_str(
                    &mut out,
                    "' is empty; run git submodule update --init --recursive, or set the source override",
                );
            },
            ResolveError::PinMismatch { expected, actual } => {
                append_str(&mut out, "source tree reports revision '");
                append_str(&mut out, actual.as_str());
                append_str(&mut out, "' but the build pins '");
                append_str(&mut out, expected.as_str());
                append_str(&mut out, "'; update the pinned revision if the move is intended");
            },
            ResolveError::UnsupportedTarget => {
                append_str(
                    &mut out,
                    "no precompiled artifact exists for this platform and architecture; supported targets are linux-arm64, linux-x64 and macos-arm64",
                );
            },
        }
        proof {
            assert(out@ =~= spec_describe_error(*self));
        }
        out
    }
}

/// Everything the unverified shell observed before resolution: the
/// configuration, the relevant filesystem facts, and what version control
/// reported for the vendored tree.
#[derive(Debug)]
pub struct ResolveInputs {
    /// The configured override directory, when one is set.
    pub override_path: Option<String>,
    /// Whether the override directory holds the build-descriptor marker;
    /// meaningful only when an override is configured.
    pub override_marker_present: bool,
    /// Whether a fresh remote clone was demanded regardless of local state.
    pub force_clone: bool,
    /// Where the vendored checkout would live.
    pub vendored_path: String,
    /// Whether that directory exists.
    pub vendored_present: bool,
    /// Whether it contains at least one entry.
    pub vendored_nonempty: bool,
    /// The HEAD its version control reports; meaningful only when the
    /// checkout is present and non-empty.
    pub vendored_head: String,
    /// The scratch directory clones and downloaded artifacts land in.
    pub scratch_dir: String,
    /// The platform family of the build target.
    pub os: TargetOs,
    /// The processor architecture of the build target.
    pub arch: TargetArch,
    /// Whether the precompiled library is already in the artifact cache.
    pub library_cached: bool,
    /// Whether the header archive is already in the artifact cache.
    pub headers_cached: bool,
}

/// The resolved origin of the native dependency, with the work the shell
/// still has to perform for it.
#[derive(Debug)]
pub enum Resolution {
    /// Use the override directory verbatim; the revision check is skipped.
    UseOverride { path: String },
    /// Run the planned version-control calls, then use `dir`.
    CloneAndUse { dir: String, calls: Vec<ProcessCall> },
    /// Use the validated vendored checkout directly, with no network access.
    UseVendored { path: String },
    /// Perform the planned downloads into the artifact cache, then extract.
    DownloadArtifact { paths: ArtifactPaths, plan: DownloadPlan },
}

/// The summary of what resolution decides on given facts: which strategy
/// arm succeeds, or which refusal stops the build.
#[derive(Clone, Copy, PartialEq, Eq, Structural, Debug)]
pub enum ResolveVerdict {
    Overridden,
    Cloned,
    VendoredUsed,
    ArtifactDownloaded,
    RefusedOverrideMarker,
    RefusedEmptyVendored,
    RefusedPinMismatch,
    RefusedUnsupportedTarget,
}

/// What resolution decides for the given facts, before any action runs.
pub open spec fn spec_resolve_verdict(
    has_override: bool,
    override_marker_present: bool,
    force_clone: bool,
    vendored_present: bool,
    vendored_nonempty: bool,
    vendored_head: Seq<char>,
    pinned: Seq<char>,
    os: TargetOs,
    arch: TargetArch,
) -> ResolveVerdict {
    match spec_choose_strategy(has_override, force_clone, vendored_present) {
        SourceStrategy::ExplicitOverride => if override_marker_present {
            ResolveVerdict::Overridden
        } else {
            ResolveVerdict::RefusedOverrideMarker
        },
        SourceStrategy::ForceClone => ResolveVerdict::Cloned,
        SourceStrategy::Vendored => if !vendored_nonempty {
            ResolveVerdict::RefusedEmptyVendored
        } else if spec_trim(vendored_head) == pinned {
            ResolveVerdict::VendoredUsed
        } else {
            ResolveVerdict::RefusedPinMismatch
        },
        SourceStrategy::ArtifactDownload => if spec_target_name(os, arch) is Some {
            ResolveVerdict::ArtifactDownloaded
        } else {
            ResolveVerdict::RefusedUnsupportedTarget
        },
    }
}

pub open spec fn spec_inputs_verdict(
    inp: ResolveInputs,
    pin: RevisionPin,
) -> ResolveVerdict {
    spec_resolve_verdict(
        inp.override_path is Some,
        inp.override_marker_present,
        inp.force_clone,
        inp.vendored_present,
        inp.vendored_nonempty,
        inp.vendored_head@,
        pin.commit_hash@,
        inp.os,
        inp.arch,
    )
}

/// Resolves where the native dependency comes from this build. Exactly one
/// strategy arm runs, by the fixed precedence; its outcome is the verdict of
/// the facts, and the returned resolution carries every action the shell
/// must still perform for that arm.
pub fn resolve_source(
    inp: &ResolveInputs,
    pin: &RevisionPin,
    release_base: &str,
    backend: RenderingBackend,
) -> (r: Result<Resolution, ResolveError>)
    ensures
        r is Ok <==> (spec_inputs_verdict(*inp, *pin) == ResolveVerdict::Overridden
            || spec_inputs_verdict(*inp, *pin) == ResolveVerdict::Cloned
            || spec_inputs_verdict(*inp, *pin) == ResolveVerdict::VendoredUsed
            || spec_inputs_verdict(*inp, *pin) == ResolveVerdict::ArtifactDownloaded),
        spec_inputs_verdict(*inp, *pin) == ResolveVerdict::Overridden ==> (r->Ok_0 matches
            Resolution::UseOverride { path } && path@ == inp.override_path->0@),
        spec_inputs_verdict(*inp, *pin) == ResolveVerdict::Cloned ==> (r->Ok_0 matches
            Resolution::CloneAndUse { dir, calls } && dir@ == inp.scratch_dir@ && calls@.len()
            == 5 && (forall|i: int|
            0 <= i < 5 ==> (#[trigger] calls@[i]).program@ == "git"@ && calls@[i].cwd@
                == inp.scratch_dir@ && calls@[i].args.deep_view() == spec_clone_plan_args(
                pin.repository_url@,
                pin.commit_hash@,
            )[i])),
        spec_inputs_verdict(*inp, *pin) == ResolveVerdict::VendoredUsed ==> (r->Ok_0 matches
            Resolution::UseVendored { path } && path@ == inp.vendored_path@),
        spec_inputs_verdict(*inp, *pin) == ResolveVerdict::ArtifactDownloaded ==> (r->Ok_0
            matches Resolution::DownloadArtifact { paths, plan } && {
            let target = spec_target_name(inp.os, inp.arch)->0;
            &&& paths.library_file@ == spec_join_path(
                inp.scratch_dir@,
                spec_library_file_name(target, backend),
            )
            &&& paths.header_archive@ == spec_join_path(
                inp.scratch_dir@,
                spec_headers_file_name(),
            )
            &&& paths.extraction_dir@ == spec_join_path(inp.scratch_dir@, "headers"@)
            &&& plan.requests@.len() == (if inp.library_cached {
                0int
            } else {
                1int
            }) + (if inp.headers_cached {
                0int
            } else {
                1int
            })
            &&& !inp.library_cached ==> plan.requests@[0].url@ == spec_asset_url(
                release_base@,
                pin.commit_hash@,
                spec_library_file_name(target, backend),
            ) && plan.requests@[0].cache_file@ == paths.library_file@
            &&& !inp.headers_cached ==> plan.requests@[plan.requests@.len() - 1].url@
                == spec_asset_url(release_base@, pin.commit_hash@, spec_headers_file_name())
                && plan.requests@[plan.requests@.len() - 1].cache_file@
                == paths.header_archive@
        }),
        spec_inputs_verdict(*inp, *pin) == ResolveVerdict::RefusedOverrideMarker ==> (r->Err_0
            matches ResolveError::OverrideMissingMarker { path } && path@
            == inp.override_path->0@),
        spec_inputs_verdict(*inp, *pin) == ResolveVerdict::RefusedEmptyVendored ==> (r->Err_0
            matches ResolveError::EmptyVendoredCheckout { path } && path@
            == inp.vendored_path@),
        spec_inputs_verdict(*inp, *pin) == ResolveVerdict::RefusedPinMismatch ==> (r->Err_0
            matches ResolveError::PinMismatch { expected, actual } && expected@
            == pin.commit_hash@ && actual@ == inp.vendored_head@),
        spec_inputs_verdict(*inp, *pin) == ResolveVerdict::RefusedUnsupportedTarget ==> r->Err_0
            matches ResolveError::UnsupportedTarget,
{
    match &inp.override_path {
        Some(path) => {
            if inp.override_marker_present {
                Ok(Resolution::UseOverride { path: path.clone() })
            } else {
                Err(ResolveError::OverrideMissingMarker { path: path.clone() })
            }
        },
        None => {
            if inp.force_clone {
                let calls = clone_plan(
                    inp.scratch_dir.as_str(),
                    pin.repository_url.as_str(),
                    pin.commit_hash.as_str(),
                );
                Ok(Resolution::CloneAndUse { dir: inp.scratch_dir.clone(), calls })
            } else if inp.vendored_present {
                if !inp.vendored_nonempty {
                    Err(ResolveError::EmptyVendoredCheckout { path: inp.vendored_path.clone() })
                } else {
                    let head = trim(inp.vendored_head.as_str());
                    if str_eq(head, pin.commit_hash.as_str()) {
                        Ok(Resolution::UseVendored { path: inp.vendored_path.clone() })
                    } else {
                        Err(
                            ResolveError::PinMismatch {
                                expected: pin.commit_hash.clone(),
                                actual: inp.vendored_head.clone(),
                            },
                        )
                    }
                }
            } else {
                match target_name(inp.os, inp.arch) {
                    Some(target) => {
                        let paths = artifact_paths(inp.scratch_dir.as_str(), target, backend);
                        let plan = plan_artifact_downloads(
                            release_base,
                            pin.commit_hash.as_str(),
                            inp.scratch_dir.as_str(),
                            target,
                            backend,
                            inp.library_cached,
                            inp.headers_cached,
                        );
                        Ok(Resolution::DownloadArtifact { paths, plan })
                    },
                    None => Err(ResolveError::UnsupportedTarget),
                }
            }
        },
    }
}

/// An empty vendored checkout, with no override configured and no forced
/// clone, is refused outright — before any clone, download or build-system
/// invocation — whatever the pinned revision, the reported HEAD or the
/// platform; the refusal's diagnostic carries the submodule-initialization
/// instruction.
pub proof fn lemma_empty_vendored_fails_fast(
    override_marker_present: bool,
    vendored_head: Seq<char>,
    pinned: Seq<char>,
    os: TargetOs,
    arch: TargetArch,
    path: String,
)
    ensures
        spec_resolve_verdict(
            false,
            override_marker_present,
            false,
            true,
            false,
            vendored_head,
            pinned,
            os,
            arch,
        ) == ResolveVerdict::RefusedEmptyVendored,
        spec_describe_error(ResolveError::EmptyVendoredCheckout { path })
            == "vendored source directory '"@ + path@
            + "' is empty; run git submodule update --init --recursive, or set the source override"@,
{
}

} // verus!
