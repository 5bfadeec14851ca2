use png_inspect::{ArgNote, Cli};

fn args(a: &[&str]) -> Vec<String> {
    a.iter().map(|s| s.to_string()).collect()
}

#[test]
fn defaults_without_arguments() {
    let cli = Cli::from_args(&args(&[]));
    assert_eq!(cli.file_path, None);
    assert!(!cli.display_options.descriptive);
    assert!(cli.notes.is_empty());
}

#[test]
fn first_path_counts() {
    let cli = Cli::from_args(&args(&["a.png", "b.png"]));
    assert_eq!(cli.file_path, Some("a.png".to_string()));
    assert_eq!(cli.notes, vec![ArgNote::ExtraPath("b.png".to_string())]);
}

#[test]
fn short_and_long_description_flags() {
    for flag in ["-d", "--description", "--descriptive", "---descriptive"] {
        let cli = Cli::from_args(&args(&[flag, "x.png"]));
        assert!(cli.display_options.descriptive, "{}", flag);
        assert!(cli.notes.is_empty(), "{}", flag);
        assert_eq!(cli.file_path, Some("x.png".to_string()));
    }
}

#[test]
fn repeated_and_unknown_flags_are_noted() {
    let cli = Cli::from_args(&args(&["-dxd", "--verbose", "--description", "-"]));
    assert!(cli.display_options.descriptive);
    assert_eq!(
        cli.notes,
        vec![
            ArgNote::UnknownShortFlag('x'),
            ArgNote::RepeatedDescriptive("d".to_string()),
            ArgNote::UnknownLongFlag("verbose".to_string()),
            ArgNote::RepeatedDescriptive("description".to_string()),
        ]
    );
    assert_eq!(cli.file_path, None);
}

#[test]
fn bare_double_dash_is_an_unknown_long_flag() {
    let cli = Cli::from_args(&args(&["--"]));
    assert_eq!(cli.notes, vec![ArgNote::UnknownLongFlag(String::new())]);
}

#[test]
fn count_dashes_counts_only_leading_ones() {
    assert_eq!(png_inspect::cli::count_dashes(""), 0);
    assert_eq!(png_inspect::cli::count_dashes("a-b"), 0);
    assert_eq!(png_inspect::cli::count_dashes("--x-"), 2);
    assert_eq!(png_inspect::cli::count_dashes("---"), 3);
}
