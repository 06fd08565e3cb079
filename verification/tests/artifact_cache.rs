use maplibre_native::artifact::{
    after_downloads, artifact_paths, asset_url, library_file_name, plan_artifact_downloads,
    target_name, TargetArch, TargetOs,
};
use maplibre_native::backend::RenderingBackend;

const BASE: &str = "https://releases.example.test/download";

#[test]
fn supported_targets() {
    assert_eq!(target_name(TargetOs::Linux, TargetArch::Arm64), Some("linux-arm64"));
    assert_eq!(target_name(TargetOs::Linux, TargetArch::X64), Some("linux-x64"));
    assert_eq!(target_name(TargetOs::MacOs, TargetArch::Arm64), Some("macos-arm64"));
}

#[test]
fn unsupported_targets() {
    assert_eq!(target_name(TargetOs::MacOs, TargetArch::X64), None);
    assert_eq!(target_name(TargetOs::Other, TargetArch::Arm64), None);
    assert_eq!(target_name(TargetOs::Linux, TargetArch::Other), None);
}

#[test]
fn deterministic_file_names() {
    assert_eq!(
        library_file_name("linux-x64", RenderingBackend::Vulkan),
        "libmaplibre-native-core-linux-x64-vulkan.a"
    );
    assert_eq!(
        library_file_name("macos-arm64", RenderingBackend::Metal),
        "libmaplibre-native-core-macos-arm64-metal.a"
    );
}

#[test]
fn release_urls_are_keyed_by_revision_target_and_backend() {
    assert_eq!(
        asset_url(BASE, "feedc0de", "libmaplibre-native-core-linux-x64-vulkan.a"),
        "https://releases.example.test/download/core-feedc0de/libmaplibre-native-core-linux-x64-vulkan.a"
    );
}

#[test]
fn warm_cache_plans_zero_requests() {
    let plan = plan_artifact_downloads(
        BASE,
        "feedc0de",
        "/cache",
        "linux-x64",
        RenderingBackend::Vulkan,
        true,
        true,
    );
    assert!(plan.requests.is_empty());
}

#[test]
fn cold_cache_plans_both_requests() {
    let plan = plan_artifact_downloads(
        BASE,
        "feedc0de",
        "/cache",
        "linux-x64",
        RenderingBackend::Vulkan,
        false,
        false,
    );
    assert_eq!(plan.requests.len(), 2);
    assert_eq!(
        plan.requests[0].url,
        "https://releases.example.test/download/core-feedc0de/libmaplibre-native-core-linux-x64-vulkan.a"
    );
    assert_eq!(
        plan.requests[0].cache_file,
        "/cache/libmaplibre-native-core-linux-x64-vulkan.a"
    );
    assert_eq!(
        plan.requests[1].url,
        "https://releases.example.test/download/core-feedc0de/maplibre-native-headers.tar.gz"
    );
    assert_eq!(plan.requests[1].cache_file, "/cache/maplibre-native-headers.tar.gz");
}

#[test]
fn half_warm_cache_plans_one_request() {
    let plan = plan_artifact_downloads(
        BASE,
        "feedc0de",
        "/cache",
        "linux-arm64",
        RenderingBackend::OpenGL,
        true,
        false,
    );
    assert_eq!(plan.requests.len(), 1);
    assert_eq!(
        plan.requests[0].url,
        "https://releases.example.test/download/core-feedc0de/maplibre-native-headers.tar.gz"
    );
}

#[test]
fn artifact_layout_is_deterministic() {
    let p = artifact_paths("/cache", "linux-x64", RenderingBackend::Vulkan);
    assert_eq!(p.library_file, "/cache/libmaplibre-native-core-linux-x64-vulkan.a");
    assert_eq!(p.header_archive, "/cache/maplibre-native-headers.tar.gz");
    assert_eq!(p.extraction_dir, "/cache/headers");
}

#[test]
fn extraction_waits_for_every_transfer() {
    let p = artifact_paths("/cache", "linux-x64", RenderingBackend::Vulkan);
    let order = after_downloads(&p, &vec![true, true]).unwrap();
    assert_eq!(order.archive, "/cache/maplibre-native-headers.tar.gz");
    assert_eq!(order.destination, "/cache/headers");
    assert!(order.overwrite);

    match after_downloads(&p, &vec![true, false]) {
        Err(i) => assert_eq!(i, 1),
        Ok(_) => panic!("a failed transfer must block extraction"),
    }
    match after_downloads(&p, &vec![false, true]) {
        Err(i) => assert_eq!(i, 0),
        Ok(_) => panic!("a failed transfer must block extraction"),
    }
    assert!(after_downloads(&p, &vec![]).is_ok());
}
