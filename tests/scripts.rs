use wsg::scripts::{script_command, split_on_dashes, trim_blanks};

#[test]
fn script_splits_on_double_dash() {
    let (program, args) = script_command("sass -- input.scss -- output.css");
    assert_eq!(program, "sass");
    assert_eq!(args, vec!["input.scss".to_string(), "output.css".to_string()]);
}

#[test]
fn script_without_arguments() {
    let (program, args) = script_command("  make\t");
    assert_eq!(program, "make");
    assert!(args.is_empty());
}

#[test]
fn split_keeps_empty_pieces() {
    assert_eq!(split_on_dashes("a----b"), vec!["a".to_string(), String::new(), "b".to_string()]);
    assert_eq!(split_on_dashes("---x"), vec![String::new(), "-x".to_string()]);
    assert_eq!(split_on_dashes(""), vec![String::new()]);
}

#[test]
fn trim_removes_outer_blanks_only() {
    assert_eq!(trim_blanks(" \ta b\t "), "a b");
    assert_eq!(trim_blanks("   "), "");
    assert_eq!(trim_blanks("x"), "x");
}
