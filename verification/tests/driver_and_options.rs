use maplibre_native::backend::RenderingBackend;
use maplibre_native::build_driver::{
    build_configuration, build_output_dir, library_link_name, library_target, link_plan,
    manifest_file_path, manifest_target, missing_output_error, required_system_libs,
};
use maplibre_native::manifest::{directive_eq, LinkDirective, LinkKind};
use maplibre_native::options::ImageRendererOptions;
use maplibre_native::text::{concat2, remove_all, remove_first, str_eq, trim};

#[test]
fn configuration_toggles_exactly_the_chosen_backend() {
    let cfg = build_configuration(RenderingBackend::Vulkan, None);
    assert_eq!(cfg.generator, "Ninja");
    assert_eq!(cfg.profile, "Release");
    let kv: Vec<(&str, &str)> = cfg
        .settings
        .iter()
        .map(|s| (s.key.as_str(), s.value.as_str()))
        .collect();
    assert_eq!(
        kv,
        vec![
            ("CMAKE_C_COMPILER_LAUNCHER", "ccache"),
            ("CMAKE_CXX_COMPILER_LAUNCHER", "ccache"),
            ("MLN_DRAWABLE_RENDERER", "ON"),
            ("MLN_WITH_OPENGL", "OFF"),
            ("MLN_WITH_METAL", "OFF"),
            ("MLN_WITH_VULKAN", "ON"),
            ("MLN_WITH_WERROR", "OFF"),
        ]
    );
}

#[test]
fn profile_override_wins() {
    let cfg = build_configuration(RenderingBackend::Metal, Some("RelWithDebInfo"));
    assert_eq!(cfg.profile, "RelWithDebInfo");
    assert_eq!(cfg.settings[4].value, "ON");
    assert_eq!(cfg.settings[5].value, "OFF");
}

#[test]
fn target_names_and_paths() {
    assert_eq!(manifest_target(), "mbgl-core-deps");
    assert_eq!(library_target(), "mbgl-core");
    assert_eq!(build_output_dir("/out/deps"), "/out/deps/build");
    assert_eq!(manifest_file_path("/out/deps"), "/out/deps/build/mbgl-core-deps.txt");
}

#[test]
fn missing_output_diagnostic_names_the_path() {
    assert_eq!(
        missing_output_error("/out/deps/build/mbgl-core-deps.txt"),
        "build reported success but the expected output '/out/deps/build/mbgl-core-deps.txt' is missing or unreadable"
    );
}

#[test]
fn system_libraries_follow_the_manifest() {
    let libs = required_system_libs();
    let names: Vec<&str> = libs
        .iter()
        .map(|d| match d {
            LinkDirective::LinkLibrary { name, kind } => {
                assert!(matches!(kind, LinkKind::Dynamic));
                name.as_str()
            },
            LinkDirective::SearchPath { .. } => panic!("expected a library"),
        })
        .collect();
    assert_eq!(names, vec!["icuuc", "icui18n", "jpeg", "png", "z", "curl"]);
}

#[test]
fn link_plan_parses_then_appends_system_libraries() {
    let plan = link_plan("-lfoo\nrel/libbar.a\n", "/out/deps", true).unwrap();
    let want = vec![
        LinkDirective::LinkLibrary { name: "foo".to_string(), kind: LinkKind::Dynamic },
        LinkDirective::SearchPath { path: "/out/deps/build/rel".to_string() },
        LinkDirective::LinkLibrary { name: "bar".to_string(), kind: LinkKind::Static },
        LinkDirective::LinkLibrary { name: "icuuc".to_string(), kind: LinkKind::Dynamic },
        LinkDirective::LinkLibrary { name: "icui18n".to_string(), kind: LinkKind::Dynamic },
        LinkDirective::LinkLibrary { name: "jpeg".to_string(), kind: LinkKind::Dynamic },
        LinkDirective::LinkLibrary { name: "png".to_string(), kind: LinkKind::Dynamic },
        LinkDirective::LinkLibrary { name: "z".to_string(), kind: LinkKind::Dynamic },
        LinkDirective::LinkLibrary { name: "curl".to_string(), kind: LinkKind::Dynamic },
    ];
    assert_eq!(plan.len(), want.len());
    for (g, w) in plan.iter().zip(want.iter()) {
        assert!(directive_eq(g, w));
    }
}

#[test]
fn artifact_link_name_drops_only_the_first_lib() {
    assert_eq!(
        library_link_name("libmaplibre-native-core-linux-x64-vulkan.a"),
        "maplibre-native-core-linux-x64-vulkan"
    );
    assert_eq!(library_link_name("libz.a"), "z");
    assert_eq!(library_link_name("plain.a"), "plain");
}

#[test]
fn text_helpers_behave() {
    assert_eq!(concat2("ab", "cd"), "abcd");
    assert_eq!(trim("  x y\t\n"), "x y");
    assert_eq!(trim(""), "");
    assert_eq!(trim(" \t "), "");
    assert!(str_eq("same", "same"));
    assert!(!str_eq("same", "sane"));
    assert_eq!(remove_first("liblib.a", "lib"), "lib.a");
    assert_eq!(remove_all("a.a.ax", ".a"), "ax");
}

#[test]
fn options_defaults_match_the_documentation() {
    let o = ImageRendererOptions::new();
    assert_eq!(o.width, 512);
    assert_eq!(o.height, 512);
    assert_eq!(o.cache_path, "cache.sqlite");
    assert_eq!(o.asset_root, ".");
    assert_eq!(o.api_key, "");
    assert_eq!(o.base_url, "https://demotiles.maplibre.org");
    assert_eq!(o.uri_scheme_alias, "maplibre");
    assert_eq!(o.api_key_parameter_name, "");
    assert_eq!(o.source_template, "/tiles/{domain}.json");
    assert_eq!(o.style_template, "{path}.json");
    assert_eq!(o.sprites_template, "/{path}/sprite{scale}.{format}");
    assert_eq!(o.glyphs_template, "/font/{fontstack}/{start}-{end}.pbf");
    assert_eq!(o.tile_template, "/{path}");
    assert_eq!(o.default_style_url, "https://demotiles.maplibre.org/style.json");
    assert!(!o.requires_api_key);
}

#[test]
fn options_setters_change_one_field() {
    let mut o = ImageRendererOptions::new();
    o.with_size(64, 32);
    o.with_cache_path("c.sqlite".to_string());
    o.with_api_key("test-key".to_string());
    o.set_requires_api_key(true);
    assert_eq!(o.width, 64);
    assert_eq!(o.height, 32);
    assert_eq!(o.cache_path, "c.sqlite");
    assert_eq!(o.api_key, "test-key");
    assert!(o.requires_api_key);
    assert_eq!(o.base_url, "https://demotiles.maplibre.org");
}
