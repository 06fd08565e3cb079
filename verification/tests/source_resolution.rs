use maplibre_native::artifact::{TargetArch, TargetOs};
use maplibre_native::backend::RenderingBackend;
use maplibre_native::resolve::{
    choose_strategy, marker_file_name, resolve_source, Resolution, ResolveError, ResolveInputs,
    SourceStrategy,
};
use maplibre_native::revision::RevisionPin;

const BASE: &str = "https://releases.example.test/download";

fn pin() -> RevisionPin {
    RevisionPin {
        repository_url: "https://example.test/native.git".to_string(),
        commit_hash: "feedc0de".to_string(),
    }
}

fn inputs() -> ResolveInputs {
    ResolveInputs {
        override_path: None,
        override_marker_present: false,
        force_clone: false,
        vendored_path: "/repo/native".to_string(),
        vendored_present: false,
        vendored_nonempty: false,
        vendored_head: String::new(),
        scratch_dir: "/scratch".to_string(),
        os: TargetOs::Linux,
        arch: TargetArch::X64,
        library_cached: false,
        headers_cached: false,
    }
}

#[test]
fn precedence_order() {
    assert!(matches!(
        choose_strategy(true, true, true),
        SourceStrategy::ExplicitOverride
    ));
    assert!(matches!(choose_strategy(false, true, true), SourceStrategy::ForceClone));
    assert!(matches!(choose_strategy(false, false, true), SourceStrategy::Vendored));
    assert!(matches!(
        choose_strategy(false, false, false),
        SourceStrategy::ArtifactDownload
    ));
}

#[test]
fn marker_name() {
    assert_eq!(marker_file_name(), "CMakeLists.txt");
}

#[test]
fn override_with_marker_is_used_verbatim() {
    let mut inp = inputs();
    inp.override_path = Some("/opt/native".to_string());
    inp.override_marker_present = true;
    match resolve_source(&inp, &pin(), BASE, RenderingBackend::Vulkan).unwrap() {
        Resolution::UseOverride { path } => assert_eq!(path, "/opt/native"),
        _ => panic!("expected the override to win"),
    }
}

#[test]
fn override_without_marker_is_fatal() {
    let mut inp = inputs();
    inp.override_path = Some("/opt/empty".to_string());
    inp.override_marker_present = false;
    let e = resolve_source(&inp, &pin(), BASE, RenderingBackend::Vulkan).unwrap_err();
    match &e {
        ResolveError::OverrideMissingMarker { path } => assert_eq!(path, "/opt/empty"),
        _ => panic!("expected a missing-marker refusal"),
    }
    assert_eq!(
        e.describe(),
        "source override directory '/opt/empty' does not contain CMakeLists.txt"
    );
}

#[test]
fn force_clone_plans_the_fetch() {
    let mut inp = inputs();
    inp.force_clone = true;
    inp.vendored_present = true;
    match resolve_source(&inp, &pin(), BASE, RenderingBackend::Vulkan).unwrap() {
        Resolution::CloneAndUse { dir, calls } => {
            assert_eq!(dir, "/scratch");
            assert_eq!(calls.len(), 5);
            assert_eq!(calls[0].args, vec!["init"]);
            assert_eq!(
                calls[1].args,
                vec!["remote", "add", "origin", "https://example.test/native.git"]
            );
            assert_eq!(calls[2].args, vec!["fetch", "origin", "feedc0de", "--depth=1"]);
        },
        _ => panic!("expected a clone"),
    }
}

#[test]
fn empty_vendored_checkout_fails_fast_with_submodule_instruction() {
    let mut inp = inputs();
    inp.vendored_present = true;
    inp.vendored_nonempty = false;
    let e = resolve_source(&inp, &pin(), BASE, RenderingBackend::Vulkan).unwrap_err();
    match &e {
        ResolveError::EmptyVendoredCheckout { path } => assert_eq!(path, "/repo/native"),
        _ => panic!("expected the empty-checkout refusal"),
    }
    let msg = e.describe();
    assert!(msg.contains("git submodule update --init --recursive"));
    assert_eq!(
        msg,
        "vendored source directory '/repo/native' is empty; run git submodule update --init --recursive, or set the source override"
    );
}

#[test]
fn vendored_checkout_at_the_pin_is_used() {
    let mut inp = inputs();
    inp.vendored_present = true;
    inp.vendored_nonempty = true;
    inp.vendored_head = "feedc0de\n".to_string();
    match resolve_source(&inp, &pin(), BASE, RenderingBackend::Vulkan).unwrap() {
        Resolution::UseVendored { path } => assert_eq!(path, "/repo/native"),
        _ => panic!("expected the vendored checkout"),
    }
}

#[test]
fn vendored_checkout_off_the_pin_is_fatal() {
    let mut inp = inputs();
    inp.vendored_present = true;
    inp.vendored_nonempty = true;
    inp.vendored_head = "0ddba11\n".to_string();
    let e = resolve_source(&inp, &pin(), BASE, RenderingBackend::Vulkan).unwrap_err();
    match &e {
        ResolveError::PinMismatch { expected, actual } => {
            assert_eq!(expected, "feedc0de");
            assert_eq!(actual, "0ddba11\n");
        },
        _ => panic!("expected a pin mismatch"),
    }
    assert_eq!(
        e.describe(),
        "source tree reports revision '0ddba11\n' but the build pins 'feedc0de'; update the pinned revision if the move is intended"
    );
}

#[test]
fn fallback_downloads_the_artifact() {
    let inp = inputs();
    match resolve_source(&inp, &pin(), BASE, RenderingBackend::Vulkan).unwrap() {
        Resolution::DownloadArtifact { paths, plan } => {
            assert_eq!(
                paths.library_file,
                "/scratch/libmaplibre-native-core-linux-x64-vulkan.a"
            );
            assert_eq!(paths.header_archive, "/scratch/maplibre-native-headers.tar.gz");
            assert_eq!(paths.extraction_dir, "/scratch/headers");
            assert_eq!(plan.requests.len(), 2);
            assert_eq!(
                plan.requests[0].url,
                "https://releases.example.test/download/core-feedc0de/libmaplibre-native-core-linux-x64-vulkan.a"
            );
        },
        _ => panic!("expected the artifact download"),
    }
}

#[test]
fn fallback_with_warm_cache_needs_no_transfer() {
    let mut inp = inputs();
    inp.library_cached = true;
    inp.headers_cached = true;
    match resolve_source(&inp, &pin(), BASE, RenderingBackend::Vulkan).unwrap() {
        Resolution::DownloadArtifact { plan, .. } => assert!(plan.requests.is_empty()),
        _ => panic!("expected the artifact download"),
    }
}

#[test]
fn fallback_on_unsupported_target_is_fatal() {
    let mut inp = inputs();
    inp.os = TargetOs::MacOs;
    inp.arch = TargetArch::X64;
    let e = resolve_source(&inp, &pin(), BASE, RenderingBackend::Metal).unwrap_err();
    assert!(matches!(e, ResolveError::UnsupportedTarget));
    assert!(e.describe().contains("linux-arm64, linux-x64 and macos-arm64"));
}
