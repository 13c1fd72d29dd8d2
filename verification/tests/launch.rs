use nyra::launch::{parse_launch_args, wants_help};

fn args(list: &[&str]) -> Vec<String> {
    list.iter().map(|s| s.to_string()).collect()
}

#[test]
fn reads_config_path_and_script() {
    let parsed = parse_launch_args(&args(&[])).unwrap();
    assert_eq!(parsed.config_path, "config.json");
    assert_eq!(parsed.script, None);

    let parsed = parse_launch_args(&args(&["my.json"])).unwrap();
    assert_eq!(parsed.config_path, "my.json");

    let parsed = parse_launch_args(&args(&["--run-script", "a.ts", "my.json"])).unwrap();
    assert_eq!(parsed.config_path, "my.json");
    assert_eq!(parsed.script, Some("a.ts".to_string()));

    let parsed = parse_launch_args(&args(&["my.json", "--run-script", "-x.ts"])).unwrap();
    assert_eq!(parsed.script, Some("-x.ts".to_string()));
}

#[test]
fn refuses_unknown_arguments() {
    assert_eq!(
        parse_launch_args(&args(&["--run-script"])).err(),
        Some("--run-script missing script path".to_string())
    );
    assert_eq!(
        parse_launch_args(&args(&["--verbose"])).err(),
        Some("Unknown argument: --verbose；use --help to see usage".to_string())
    );
    assert_eq!(
        parse_launch_args(&args(&["a.json", "b.json"])).err(),
        Some("Unknown argument: b.json；use --help to see usage".to_string())
    );
    assert_eq!(
        parse_launch_args(&args(&["--run-script", "a.ts", "--run-script", "b.ts"])).err(),
        Some("Unknown argument: --run-script；use --help to see usage".to_string())
    );
}

#[test]
fn recognizes_help_requests() {
    assert!(wants_help(&args(&["config.json", "-h"])));
    assert!(wants_help(&args(&["--help"])));
    assert!(!wants_help(&args(&["config.json", "--run-script", "a.ts"])));
}
