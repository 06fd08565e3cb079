use maplibre_native::manifest::{directive_eq, parse_deps, LinkDirective, LinkKind};

fn search(path: &str) -> LinkDirective {
    LinkDirective::SearchPath { path: path.to_string() }
}

fn lib(name: &str, kind: LinkKind) -> LinkDirective {
    LinkDirective::LinkLibrary { name: name.to_string(), kind }
}

fn assert_directives(got: &[LinkDirective], want: &[LinkDirective]) {
    assert_eq!(got.len(), want.len());
    for (g, w) in got.iter().zip(want.iter()) {
        assert!(directive_eq(g, w));
    }
}

#[test]
fn recognizes_each_instruction() {
    let text = "-lfoo\n-L/opt/lib\nvendor/libbar.a\n";
    let got = parse_deps(text, "/build", true).unwrap();
    assert_directives(
        &got,
        &[
            lib("foo", LinkKind::Dynamic),
            search("/opt/lib"),
            search("/build/vendor"),
            lib("bar", LinkKind::Static),
        ],
    );
}

#[test]
fn relative_search_paths_resolve_against_the_build_directory() {
    let got = parse_deps("-Lsub/dir\n", "/out/b", true).unwrap();
    assert_directives(&got, &[search("/out/b/sub/dir")]);
}

#[test]
fn absolute_paths_stay_absolute() {
    let got = parse_deps("-L/usr/lib\n/x/liby.a\n", "/b", true).unwrap();
    assert_directives(
        &got,
        &[search("/usr/lib"), search("/x"), lib("y", LinkKind::Static)],
    );
}

#[test]
fn archive_without_lib_prefix_keeps_its_stem() {
    let got = parse_deps("/x/y.a\n", "/b", true).unwrap();
    assert_directives(&got, &[search("/x"), lib("y", LinkKind::Static)]);
}

#[test]
fn duplicate_lines_collapse_to_one_directive() {
    let got = parse_deps("-lz\n-lz\n-lz\n", "/b", true).unwrap();
    assert_directives(&got, &[lib("z", LinkKind::Dynamic)]);
}

#[test]
fn duplicates_keep_the_first_position() {
    let got = parse_deps("-lz\n-lm\n-lz\n", "/b", true).unwrap();
    assert_directives(&got, &[lib("z", LinkKind::Dynamic), lib("m", LinkKind::Dynamic)]);
}

#[test]
fn identical_text_parses_identically() {
    let text = "-lz\nvendor/liba.a\n-Lrel\n";
    let a = parse_deps(text, "/b", false).unwrap();
    let b = parse_deps(text, "/b", false).unwrap();
    assert_eq!(a.len(), b.len());
    for (x, y) in a.iter().zip(b.iter()) {
        assert!(directive_eq(x, y));
    }
}

#[test]
fn blank_lines_and_surrounding_whitespace_are_ignored() {
    let got = parse_deps("\n  -lfoo  \n\n\t\n", "/b", true).unwrap();
    assert_directives(&got, &[lib("foo", LinkKind::Dynamic)]);
}

#[test]
fn empty_manifest_yields_nothing() {
    assert!(parse_deps("", "/b", true).unwrap().is_empty());
}

#[test]
fn lenient_mode_skips_unparseable_lines() {
    let got = parse_deps("-framework Cocoa\n-lfoo\n", "/b", false).unwrap();
    assert_directives(&got, &[lib("foo", LinkKind::Dynamic)]);
}

#[test]
fn strict_mode_names_the_offending_line() {
    let e = parse_deps("-lfoo\n-framework Cocoa\n-lbar\n", "/b", true).unwrap_err();
    assert_eq!(e.line_index, 1);
    assert_eq!(e.line, "-framework Cocoa");
}

#[test]
fn bare_dash_l_is_unparseable() {
    assert!(parse_deps("-l\n", "/b", true).is_err());
    assert!(parse_deps("-L\n", "/b", true).is_err());
    assert!(parse_deps("-l\n", "/b", false).unwrap().is_empty());
}
