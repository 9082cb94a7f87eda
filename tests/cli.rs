use rust_reddit::cli::Args;

#[test]
fn default_args_are_empty() {
    let args = Args::default();
    assert_eq!(args.key, "");
    assert_eq!(args.headers, "");
    assert!(!args.nocapture);
}

#[test]
fn set_option_sets_key_and_headers() {
    let mut args = Args::default();
    args.set_option("key", "abc");
    assert_eq!(args.key, "abc");
    assert_eq!(args.headers, "");
    args.set_option("headers", "User-Agent: rust-reddit-test");
    assert_eq!(args.key, "abc");
    assert_eq!(args.headers, "User-Agent: rust-reddit-test");
}

#[test]
fn set_option_ignores_other_names() {
    let mut args = Args::default();
    args.set_option("user-agent", "x");
    args.set_option("Key", "x");
    args.set_option("", "x");
    assert_eq!(args.key, "");
    assert_eq!(args.headers, "");
    assert!(!args.nocapture);
}
