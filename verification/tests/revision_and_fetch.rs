use maplibre_native::fetch::clone_plan;
use maplibre_native::revision::validate_revision;

#[test]
fn exact_head_matches() {
    assert!(validate_revision("2544cce", "2544cce").is_ok());
}

#[test]
fn trailing_newline_is_trimmed() {
    assert!(validate_revision("2544cce\n", "2544cce").is_ok());
    assert!(validate_revision("  2544cce\t\r\n", "2544cce").is_ok());
}

#[test]
fn empty_head_fails_naming_both() {
    let e = validate_revision("", "2544cce").unwrap_err();
    assert_eq!(e.expected, "2544cce");
    assert_eq!(e.actual, "");
}

#[test]
fn different_head_fails_naming_both() {
    let e = validate_revision("deadbeef\n", "2544cce").unwrap_err();
    assert_eq!(e.expected, "2544cce");
    assert_eq!(e.actual, "deadbeef\n");
}

#[test]
fn whitespace_in_pin_is_not_trimmed() {
    assert!(validate_revision("abc", "abc ").is_err());
}

#[test]
fn clone_plan_is_the_documented_sequence() {
    let plan = clone_plan("/scratch/native", "https://example.test/repo.git", "feedc0de");
    assert_eq!(plan.len(), 5);
    for call in &plan {
        assert_eq!(call.program, "git");
        assert_eq!(call.cwd, "/scratch/native");
    }
    assert_eq!(plan[0].args, vec!["init"]);
    assert_eq!(
        plan[1].args,
        vec!["remote", "add", "origin", "https://example.test/repo.git"]
    );
    assert_eq!(plan[2].args, vec!["fetch", "origin", "feedc0de", "--depth=1"]);
    assert_eq!(plan[3].args, vec!["reset", "--hard", "FETCH_HEAD"]);
    assert_eq!(
        plan[4].args,
        vec!["submodule", "update", "--init", "--recursive", "--depth=1", "--jobs=8"]
    );
}
