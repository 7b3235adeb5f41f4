use rust_hw::myfind::{compile_pattern, matching_files, merge_matches, parse_args, ArgsError};

fn strings(v: &[&str]) -> Vec<String> {
    v.iter().map(|s| s.to_string()).collect()
}

#[test]
fn parse_paths_and_names() {
    let f = parse_args(&strings(&["myfind", "-v", "-path", "a", "b", "-name", "x", "y"])).unwrap();
    assert!(f.verbose);
    assert_eq!(f.paths, strings(&["a", "b"]));
    assert_eq!(f.names, strings(&["x", "y"]));
}

#[test]
fn parse_without_verbose() {
    let f = parse_args(&strings(&["myfind", "-path", "dir", "-name", "pat"])).unwrap();
    assert!(!f.verbose);
    assert_eq!(f.paths, strings(&["dir"]));
    assert_eq!(f.names, strings(&["pat"]));
}

#[test]
fn parse_names_take_the_rest() {
    let f = parse_args(&strings(&["myfind", "-path", "d", "-name", "p", "-v"])).unwrap();
    assert!(!f.verbose);
    assert_eq!(f.names, strings(&["p", "-v"]));
}

#[test]
fn parse_too_few_arguments() {
    assert_eq!(parse_args(&strings(&["myfind", "-path", "d", "-name"])).unwrap_err(), ArgsError::Usage);
}

#[test]
fn parse_missing_names() {
    assert_eq!(parse_args(&strings(&["myfind", "-v", "-path", "d", "-name"])).unwrap_err(), ArgsError::Usage);
}

#[test]
fn parse_unterminated_path() {
    assert_eq!(
        parse_args(&strings(&["myfind", "-path", "a", "b", "c"])).unwrap_err(),
        ArgsError::UnterminatedPath
    );
}

#[test]
fn merge_takes_first_result_then_intersects() {
    let m = merge_matches(None, strings(&["a", "b", "c"]));
    assert_eq!(m, strings(&["a", "b", "c"]));
    let m = merge_matches(Some(m), strings(&["c", "a"]));
    assert_eq!(m, strings(&["a", "c"]));
    let m = merge_matches(Some(m), strings(&["z"]));
    assert!(m.is_empty());
}

#[test]
fn merge_stays_empty_once_nothing_is_common() {
    let m = merge_matches(None, strings(&["a"]));
    let m = merge_matches(Some(m), strings(&["b"]));
    assert!(m.is_empty());
    let m = merge_matches(Some(m), strings(&["a"]));
    assert!(m.is_empty());
}

#[test]
fn compile_good_and_bad_patterns() {
    assert!(compile_pattern(&"^a.*\\.rs$".to_string()).is_ok());
    let e = compile_pattern(&"foo(bar".to_string()).unwrap_err();
    assert_eq!(e.pattern, "foo(bar");
    assert!(!e.message.is_empty());
}

#[test]
fn matching_files_keeps_paths_whose_name_matches() {
    let p = compile_pattern(&"^a.*\\.rs$".to_string()).unwrap();
    let files = vec![
        ("d/abc.rs".to_string(), "abc.rs".to_string()),
        ("d/b.rs".to_string(), "b.rs".to_string()),
        ("e/a.rs/x.txt".to_string(), "x.txt".to_string()),
        ("e/a.rs".to_string(), "a.rs".to_string()),
    ];
    assert_eq!(matching_files(&p, &files), strings(&["d/abc.rs", "e/a.rs"]));
    let q = compile_pattern(&"x".to_string()).unwrap();
    assert_eq!(matching_files(&q, &files), strings(&["e/a.rs/x.txt"]));
}
