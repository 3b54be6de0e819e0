use tea::args::{classify_arg, help_text, version_text, ArgKind, Args, ArgsError, Command};

fn argv(args: &[&str]) -> Vec<String> {
    args.iter().map(|a| a.to_string()).collect()
}

#[test]
fn no_arguments_run_the_exercise() {
    let args = Args::parse(Vec::new()).unwrap();
    assert_eq!(args, Args { display_help: false, display_version: false, files: Vec::new() });
    assert_eq!(args.command(), Command::Run);
}

#[test]
fn help_flags_are_recognised() {
    for flag in ["-h", "--help"] {
        let args = Args::parse(argv(&[flag])).unwrap();
        assert!(args.display_help);
        assert!(!args.display_version);
        assert!(args.files.is_empty());
        assert_eq!(args.command(), Command::Help);
    }
}

#[test]
fn version_flags_are_recognised() {
    for flag in ["-v", "-V", "--version"] {
        let args = Args::parse(argv(&[flag])).unwrap();
        assert!(!args.display_help);
        assert!(args.display_version);
        assert!(args.files.is_empty());
        assert_eq!(args.command(), Command::Version);
    }
}

#[test]
fn help_goes_before_version() {
    let args = Args::parse(argv(&["--version", "-h"])).unwrap();
    assert!(args.display_help && args.display_version);
    assert_eq!(args.command(), Command::Help);
}

#[test]
fn other_arguments_are_files_in_order() {
    let args = Args::parse(argv(&["b.txt", "-h", "a.txt", "-x", "-", "", "-hh", "b.txt"])).unwrap();
    assert!(args.display_help);
    assert!(!args.display_version);
    assert_eq!(args.files, argv(&["b.txt", "a.txt", "-x", "-", "", "-hh", "b.txt"]));
}

#[test]
fn unknown_long_flag_is_refused() {
    let error = Args::parse(argv(&["a.txt", "--frobnicate", "--other"])).unwrap_err();
    assert_eq!(error, ArgsError::Unexpected("--frobnicate".to_string()));
    assert_eq!(error.message(), "unexpected argument: --frobnicate");
    assert!(Args::parse(argv(&["--"])).is_err());
    assert!(Args::parse(argv(&["-h", "--helpme"])).is_err());
    assert!(Args::parse(argv(&["--Help"])).is_err());
}

#[test]
fn arguments_are_classified() {
    assert_eq!(classify_arg("-h"), ArgKind::Help);
    assert_eq!(classify_arg("--help"), ArgKind::Help);
    assert_eq!(classify_arg("-v"), ArgKind::Version);
    assert_eq!(classify_arg("-V"), ArgKind::Version);
    assert_eq!(classify_arg("--version"), ArgKind::Version);
    assert_eq!(classify_arg("--"), ArgKind::Unexpected);
    assert_eq!(classify_arg("--x"), ArgKind::Unexpected);
    assert_eq!(classify_arg("-H"), ArgKind::File);
    assert_eq!(classify_arg("-"), ArgKind::File);
    assert_eq!(classify_arg(""), ArgKind::File);
    assert_eq!(classify_arg("file"), ArgKind::File);
}

#[test]
fn help_text_is_laid_out() {
    let expected = "\
tea 0.1.0
A typing exercise

USAGE:
    tea-bin [OPTIONS] [files]...

ARGS:
    <files>...    The input files

OPTIONS:
    -h, --help                   Prints help information
    -v, -V, --version            Prints version information";
    assert_eq!(help_text("tea", "0.1.0", "A typing exercise", "tea-bin"), expected);
}

#[test]
fn version_text_is_name_and_version() {
    assert_eq!(version_text("tea", "0.1.0"), "tea 0.1.0");
}

#[test]
fn default_args_ask_for_nothing() {
    let args = Args::default();
    assert_eq!(args, Args { display_help: false, display_version: false, files: Vec::new() });
    assert_eq!(args, Args::parse(Vec::new()).unwrap());
}
