//! Build-system driving: the exact configuration handed to the external
//! build system for both of its targets — the dependency-manifest target and
//! the library target — plus the paths of their expected outputs, the system
//! libraries the bridge always links, and the link name of a precompiled
//! artifact file.

use vstd::prelude::*;

use crate::backend::RenderingBackend;
use crate::manifest::{LinkDirective, LinkKind};
use crate::text::{concat3, remove_all, remove_first, spec_remove_all, spec_remove_first};

verus! {

/// One cache definition handed to the external build system.
#[derive(Debug)]
pub struct BuildSetting {
    pub key: String,
    pub value: String,
}

/// Everything both build-system invocations share: the generator, the
/// ordered cache definitions, and the build profile.
#[derive(Debug)]
pub struct BuildConfiguration {
    pub generator: String,
    pub settings: Vec<BuildSetting>,
    pub profile: String,
}

/// The build system's spelling of a feature toggle.
pub open spec fn spec_on_off(b: bool) -> Seq<char> {
    if b {
        "ON"@
    } else {
        "OFF"@
    }
}

fn on_off(b: bool) -> (r: &'static str)
    ensures
        r@ == spec_on_off(b),
{
    if b {
        "ON"
    } else {
        "OFF"
    }
}

fn push_setting(settings: &mut Vec<BuildSetting>, key: &str, value: &str)
    ensures
        final(settings)@.len() == old(settings)@.len() + 1,
        forall|i: int|
            0 <= i < old(settings)@.len() ==> final(settings)@[i] == old(settings)@[i],
        final(settings)@.last().key@ == key@,
        final(settings)@.last().value@ == value@,
{
    settings.push(BuildSetting { key: key.to_owned(), value: value.to_owned() });
}

/// The configuration every build-system invocation uses: the fixed
/// generator, compiler-launcher wrappers for caching, the drawable-renderer
/// capability on, exactly the selected backend's toggle on and the other
/// two off, warnings-as-errors off, and the optimized default profile unless
/// an override names another.
pub fn build_configuration(backend: RenderingBackend, profile_override: Option<&str>) -> (r:
    BuildConfiguration)
    ensures
        r.generator@ == "Ninja"@,
        r.profile@ == (match profile_override {
            Some(p) => p@,
            None => "Release"@,
        }),
        r.settings@.len() == 7,
        r.settings@[0].key@ == "CMAKE_C_COMPILER_LAUNCHER"@ && r.settings@[0].value@
            == "ccache"@,
        r.settings@[1].key@ == "CMAKE_CXX_COMPILER_LAUNCHER"@ && r.settings@[1].value@
            == "ccache"@,
        r.settings@[2].key@ == "MLN_DRAWABLE_RENDERER"@ && r.settings@[2].value@ == "ON"@,
        r.settings@[3].key@ == "MLN_WITH_OPENGL"@ && r.settings@[3].value@ == spec_on_off(
            backend == RenderingBackend::OpenGL,
        ),
        r.settings@[4].key@ == "MLN_WITH_METAL"@ && r.settings@[4].value@ == spec_on_off(
            backend == RenderingBackend::Metal,
        ),
        r.settings@[5].key@ == "MLN_WITH_VULKAN"@ && r.settings@[5].value@ == spec_on_off(
            backend == RenderingBackend::Vulkan,
        ),
        r.settings@[6].key@ == "MLN_WITH_WERROR"@ && r.settings@[6].value@ == "OFF"@,
{
    let mut settings: Vec<BuildSetting> = Vec::new();
    push_setting(&mut settings, "CMAKE_C_COMPILER_LAUNCHER", "ccache");
    push_setting(&mut settings, "CMAKE_CXX_COMPILER_LAUNCHER", "ccache");
    push_setting(&mut settings, "MLN_DRAWABLE_RENDERER", "ON");
    push_setting(
        &mut settings,
        "MLN_WITH_OPENGL",
        on_off(matches!(backend, RenderingBackend::OpenGL)),
    );
    push_setting(
        &mut settings,
        "MLN_WITH_METAL",
        on_off(matches!(backend, RenderingBackend::Metal)),
    );
    push_setting(
        &mut settings,
        "MLN_WITH_VULKAN",
        on_off(matches!(backend, RenderingBackend::Vulkan)),
    );
    push_setting(&mut settings, "MLN_WITH_WERROR", "OFF");
    let profile = match profile_override {
        Some(p) => p.to_owned(),
        None => "Release".to_owned(),
    };
    BuildConfiguration { generator: "Ninja".to_owned(), settings, profile }
}

/// The target whose build generates the dependency manifest.
pub fn manifest_target() -> (r: &'static str)
    ensures
        r@ == "mbgl-core-deps"@,
{
    "mbgl-core-deps"
}

/// The target whose build produces the static library.
pub fn library_target() -> (r: &'static str)
    ensures
        r@ == "mbgl-core"@,
{
    "mbgl-core"
}

/// Where the build system writes its outputs under a retained build root.
pub fn build_output_dir(build_root: &str) -> (r: String)
    ensures
        r@ == build_root@ + "/build"@,
{
    let r = crate::text::concat2(build_root, "/build");
    proof {
        assert(r@ =~= build_root@ + "/build"@);
    }
    r
}

/// The manifest file the dependency-manifest target generates under its
/// retained build root.
pub fn manifest_file_path(build_root: &str) -> (r: String)
    ensures
        r@ == build_root@ + "/build/mbgl-core-deps.txt"@,
{
    let r = crate::text::concat2(build_root, "/build/mbgl-core-deps.txt");
    proof {
        assert(r@ =~= build_root@ + "/build/mbgl-core-deps.txt"@);
    }
    r
}

/// The fatal diagnostic for an expected output file a nominally successful
/// build did not produce, naming the expected path.
pub fn missing_output_error(path: &str) -> (r: String)
    ensures
        r@ == "build reported success but the expected output '"@ + path@
            + "' is missing or unreadable"@,
{
    let r = concat3(
        "build reported success but the expected output '",
        path,
        "' is missing or unreadable",
    );
    proof {
        assert(r@ =~= "build reported success but the expected output '"@ + path@
            + "' is missing or unreadable"@);
    }
    r
}

/// The names of the system libraries the bridge links beyond what the
/// manifest lists.
pub open spec fn spec_system_lib_names() -> Seq<Seq<char>> {
    seq!["icuuc"@, "icui18n"@, "jpeg"@, "png"@, "z"@, "curl"@]
}

/// The system libraries every link of the bridge needs in addition to the
/// manifest's directives, in order, each linked dynamically.
pub fn required_system_libs() -> (r: Vec<LinkDirective>)
    ensures
        r@.len() == 6,
        forall|i: int|
            0 <= i < 6 ==> ((#[trigger] r@[i])@ matches
                crate::manifest::DirectiveView::LinkLibrary { name, kind } && name
                == spec_system_lib_names()[i] && kind == LinkKind::Dynamic),
{
    let mut r: Vec<LinkDirective> = Vec::new();
    r.push(LinkDirective::LinkLibrary { name: "icuuc".to_owned(), kind: LinkKind::Dynamic });
    r.push(LinkDirective::LinkLibrary { name: "icui18n".to_owned(), kind: LinkKind::Dynamic });
    r.push(LinkDirective::LinkLibrary { name: "jpeg".to_owned(), kind: LinkKind::Dynamic });
    r.push(LinkDirective::LinkLibrary { name: "png".to_owned(), kind: LinkKind::Dynamic });
    r.push(LinkDirective::LinkLibrary { name: "z".to_owned(), kind: LinkKind::Dynamic });
    r.push(LinkDirective::LinkLibrary { name: "curl".to_owned(), kind: LinkKind::Dynamic });
    r
}

/// The complete link plan of a built source tree: the manifest parsed
/// against the build-output directory — ordered and deduplicated — followed
/// by the required system libraries. In strict mode an unparseable manifest
/// line is fatal.
pub fn link_plan(manifest_text: &str, build_root: &str, strict: bool) -> (r: Result<
    Vec<LinkDirective>,
    crate::manifest::ParseError,
>)
    ensures
        r is Ok ==> (crate::manifest::spec_parse_deps(
            manifest_text@,
            build_root@ + "/build"@,
            strict,
        ) matches Ok(ds) && r->Ok_0.deep_view() =~= ds + Seq::new(
            6,
            |i: int|
                crate::manifest::DirectiveView::LinkLibrary {
                    name: spec_system_lib_names()[i],
                    kind: LinkKind::Dynamic,
                },
        )),
        r is Err ==> crate::manifest::spec_parse_deps(
            manifest_text@,
            build_root@ + "/build"@,
            strict,
        ) == Err::<Seq<crate::manifest::DirectiveView>, int>(r->Err_0.line_index as int),
{
    let build_dir = build_output_dir(build_root);
    match crate::manifest::parse_deps(manifest_text, build_dir.as_str(), strict) {
        Ok(mut v) => {
            let ghost parsed = v.deep_view();
            let mut extra = required_system_libs();
            let ghost extra_v = extra@;
            let ghost extra_dv = extra.deep_view();
            proof {
                assert forall|i: int| 0 <= i < 6 implies extra_dv[i]
                    == crate::manifest::DirectiveView::LinkLibrary {
                    name: spec_system_lib_names()[i],
                    kind: LinkKind::Dynamic,
                } by {
                    assert(extra_dv[i] == extra_v[i]@);
                }
            }
            let ghost v_pre = v@;
            v.append(&mut extra);
            proof {
                assert forall|j: int| 0 <= j < v@.len() implies v.deep_view()[j] == (parsed
                    + extra_dv)[j] by {
                    assert(v.deep_view()[j] == v@[j]@);
                    if j < parsed.len() {
                        assert(v@[j] == v_pre[j]);
                    } else {
                        assert(v@[j] == extra_v[j - parsed.len()]);
                    }
                }
                assert(v.deep_view() =~= parsed + extra_dv);
                assert(extra_dv =~= Seq::new(
                    6,
                    |i: int|
                        crate::manifest::DirectiveView::LinkLibrary {
                            name: spec_system_lib_names()[i],
                            kind: LinkKind::Dynamic,
                        },
                ));
            }
            Ok(v)
        },
        Err(e) => Err(e),
    }
}

/// The link name of a precompiled artifact file: its file name with the
/// first `lib` removed and every `.a` removed.
pub fn library_link_name(file_name: &str) -> (r: String)
    ensures
        r@ == spec_remove_all(spec_remove_first(file_name@, "lib"@), ".a"@),
{
    let without_prefix = remove_first(file_name, "lib");
    remove_all(without_prefix.as_str(), ".a")
}

/// The name of the compiled bridge artifact.
pub fn bridge_artifact_name() -> (r: &'static str)
    ensures
        r@ == "maplibre_rust_map_renderer_bindings"@,
{
    "maplibre_rust_map_renderer_bindings"
}

} // verus!
