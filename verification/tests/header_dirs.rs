use maplibre_native::include_dirs::{
    artifact_header_dirs, scan_header_dirs, source_header_dirs, WalkEntry,
};

fn entry(path: &str, name: &str, is_dir: bool, is_symlink: bool) -> WalkEntry {
    WalkEntry { path: path.to_string(), name: name.to_string(), is_dir, is_symlink }
}

fn sample_walk() -> Vec<WalkEntry> {
    vec![
        entry("/src/vendor", "vendor", true, false),
        entry("/src/vendor/a", "a", true, false),
        entry("/src/vendor/a/include", "include", true, false),
        entry("/src/vendor/a/include/x.hpp", "x.hpp", false, false),
        entry("/src/vendor/b", "b", true, false),
        entry("/src/vendor/b/include", "include", true, true),
        entry("/src/vendor/b/extra", "extra", true, false),
        entry("/src/vendor/c/include", "include", false, false),
        entry("/src/vendor/d/include", "include", true, false),
    ]
}

#[test]
fn scan_keeps_exactly_the_real_marker_directories_in_walk_order() {
    let dirs = scan_header_dirs(&sample_walk(), "include");
    assert_eq!(dirs, vec!["/src/vendor/a/include", "/src/vendor/d/include"]);
}

#[test]
fn scan_excludes_symlinked_marker_directories() {
    let dirs = scan_header_dirs(&sample_walk(), "include");
    assert!(!dirs.iter().any(|d| d == "/src/vendor/b/include"));
}

#[test]
fn scan_excludes_files_named_like_the_marker() {
    let dirs = scan_header_dirs(&sample_walk(), "include");
    assert!(!dirs.iter().any(|d| d == "/src/vendor/c/include"));
}

#[test]
fn scan_of_a_markerless_tree_is_empty() {
    let entries = vec![
        entry("/src/vendor/a", "a", true, false),
        entry("/src/vendor/a/src", "src", true, false),
    ];
    assert!(scan_header_dirs(&entries, "include").is_empty());
}

#[test]
fn scan_is_stable_across_repeated_runs() {
    let a = scan_header_dirs(&sample_walk(), "include");
    let b = scan_header_dirs(&sample_walk(), "include");
    assert_eq!(a, b);
}

#[test]
fn source_tree_dirs_start_with_the_fixed_prefix() {
    let dirs = source_header_dirs("/wrapper", "/src", "include", &sample_walk());
    assert_eq!(
        dirs,
        vec![
            "/wrapper/include",
            "/src/include",
            "/src/platform/default/include",
            "/src/vendor/a/include",
            "/src/vendor/d/include",
        ]
    );
}

#[test]
fn artifact_dirs_cover_wrapper_bundled_and_extracted_headers() {
    let bundled = vec![
        "geometry.hpp".to_string(),
        "mapbox-base".to_string(),
        "variant".to_string(),
    ];
    let dirs = artifact_header_dirs("/wrapper", &bundled, "/cache/headers", "include");
    assert_eq!(
        dirs,
        vec![
            "/wrapper/include",
            "/wrapper/geometry.hpp/include",
            "/wrapper/mapbox-base/include",
            "/wrapper/variant/include",
            "/cache/headers/include",
        ]
    );
}
