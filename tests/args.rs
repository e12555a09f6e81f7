use gh_guard::api::{is_mutating_method, parse_api_args};
use gh_guard::cli::{branch_info, plan_pr_create, resolve_body, route, BodySource, PrPlan, Route};
use gh_guard::pr::parse_pr_args;
use gh_guard::setup::{
    mask_pat, mask_token, reply_error, run, scan_chat_batch, ChatUpdate, SetupCommand,
};

fn strings(v: &[&str]) -> Vec<String> {
    v.iter().map(|s| s.to_string()).collect()
}

#[test]
fn pr_args_long_short_and_equals_forms() {
    let p = parse_pr_args(&strings(&[
        "--title", "Fix", "-b", "Body", "--base=main", "-d", "--body-file=f.md", "--fill-verbose",
    ]));
    assert_eq!(p.title.as_deref(), Some("Fix"));
    assert!(p.has_title);
    assert_eq!(p.body.as_deref(), Some("Body"));
    assert_eq!(p.base.as_deref(), Some("main"));
    assert_eq!(p.body_file.as_deref(), Some("f.md"));
    assert!(p.draft && p.fill && !p.web);
}

#[test]
fn pr_args_flag_without_value_is_ignored() {
    let p = parse_pr_args(&strings(&["-w", "--title"]));
    assert!(p.web);
    assert_eq!(p.title, None);
    assert!(!p.has_title);
    let q = parse_pr_args(&strings(&["--title=A=B", "--unknown", "x", "-F", "body.md"]));
    assert_eq!(q.title.as_deref(), Some("A=B"));
    assert_eq!(q.body_file.as_deref(), Some("body.md"));
    let empty = parse_pr_args(&[]);
    assert!(empty.title.is_none() && !empty.draft && !empty.fill && !empty.web);
}

#[test]
fn api_args_method_is_uppercased() {
    let a = parse_api_args(&strings(&["/repos/o/r", "-X", "patch", "-f", "title=x"]));
    assert_eq!(a.method, "PATCH");
    assert_eq!(a.endpoint.as_deref(), Some("/repos/o/r"));
    assert_eq!(a.fields, strings(&["title=x"]));
    assert!(a.is_mutating);
    let b = parse_api_args(&strings(&["--method=delete", "/x"]));
    assert_eq!(b.method, "DELETE");
    assert!(b.is_mutating);
}

#[test]
fn api_args_default_method() {
    let get = parse_api_args(&strings(&["/user", "--jq", ".login"]));
    assert_eq!(get.method, "GET");
    assert!(!get.is_mutating);
    assert_eq!(get.endpoint.as_deref(), Some("/user"));
    let post = parse_api_args(&strings(&["--raw-field=body=hi", "-H", "Accept: x", "/issues"]));
    assert_eq!(post.method, "POST");
    assert_eq!(post.fields, strings(&["body=hi"]));
    assert_eq!(post.endpoint.as_deref(), Some("/issues"));
    let head = parse_api_args(&strings(&["-X", "HEAD", "/a", "/b"]));
    assert_eq!(head.endpoint.as_deref(), Some("/a"));
    assert!(!head.is_mutating);
    assert!(is_mutating_method("PUT") && !is_mutating_method("put"));
}

#[test]
fn routes_of_command_lines() {
    assert!(matches!(route(&[]), Route::Passthrough));
    assert!(matches!(route(&strings(&["setup", "show"])), Route::Setup { sub: Some(s) } if s == "show"));
    assert!(matches!(route(&strings(&["setup"])), Route::Setup { sub: None }));
    match route(&strings(&["pr", "create", "--title", "x"])) {
        Route::PrCreate { flags } => assert_eq!(flags, strings(&["--title", "x"])),
        _ => panic!("expected pr create"),
    }
    assert!(matches!(route(&strings(&["pr", "list"])), Route::Passthrough));
    match route(&strings(&["api", "-X", "POST"])) {
        Route::Api { flags } => assert_eq!(flags, strings(&["-X", "POST"])),
        _ => panic!("expected api"),
    }
    assert!(matches!(route(&strings(&["issue", "list"])), Route::Passthrough));
}

#[test]
fn pr_plans() {
    assert!(matches!(plan_pr_create(&parse_pr_args(&strings(&["--web", "--title", "x"]))), PrPlan::Bypass));
    assert!(matches!(plan_pr_create(&parse_pr_args(&strings(&["--body", "x"]))), PrPlan::Interactive));
    match plan_pr_create(&parse_pr_args(&strings(&["--fill"]))) {
        PrPlan::Request { title } => assert_eq!(title, "(auto-fill from commits)"),
        _ => panic!("expected a request"),
    }
    match plan_pr_create(&parse_pr_args(&strings(&["-t", "Fix"]))) {
        PrPlan::Request { title } => assert_eq!(title, "Fix"),
        _ => panic!("expected a request"),
    }
}

#[test]
fn body_sources() {
    let inline = parse_pr_args(&strings(&["-b", "x", "-F", "f"]));
    assert!(matches!(resolve_body(&inline), BodySource::Inline { text } if text == "x"));
    let file = parse_pr_args(&strings(&["-F", "f"]));
    assert!(matches!(resolve_body(&file), BodySource::File { path } if path == "f"));
    assert!(matches!(resolve_body(&parse_pr_args(&[])), BodySource::Empty));
}

#[test]
fn branch_lines() {
    assert_eq!(branch_info(Some("feature/login\n"), Some("main")), "feature/login → main");
    assert_eq!(branch_info(Some("dev\n"), None), "dev → (default branch)");
    assert_eq!(branch_info(Some("HEAD\n"), Some("main")), "(current) → main");
    assert_eq!(branch_info(None, None), "(current) → (default branch)");
    assert_eq!(branch_info(Some("  \n"), None), "(current) → (default branch)");
}

#[test]
fn setup_subcommands() {
    assert_eq!(run(None).unwrap(), SetupCommand::Full);
    assert_eq!(run(Some("test")).unwrap(), SetupCommand::Test);
    assert_eq!(run(Some("show")).unwrap(), SetupCommand::Show);
    assert_eq!(run(Some("pat")).unwrap(), SetupCommand::Pat);
    assert_eq!(run(Some("telegram")).unwrap(), SetupCommand::Telegram);
    match run(Some("bogus")) {
        Err(e) => assert_eq!(e.message(), "Unknown setup subcommand: bogus"),
        Ok(_) => panic!("expected an error"),
    }
}

#[test]
fn masked_credentials() {
    assert_eq!(mask_pat("ghp_abcdefghijklmnop"), "ghp_abc…mnop");
    assert_eq!(mask_pat("ghp_abcd123"), "ghp_abc…");
    assert_eq!(mask_pat("abc"), "abc…");
    assert_eq!(mask_token("123456789:ABCdef"), "123456789:…");
    assert_eq!(mask_token("short"), "short…");
}

#[test]
fn chat_scan_finds_first_message_and_advances_offset() {
    let updates = vec![
        ChatUpdate { update_id: 5, chat_id: None },
        ChatUpdate { update_id: 9, chat_id: Some(1234) },
        ChatUpdate { update_id: 7, chat_id: Some(99) },
    ];
    assert_eq!(scan_chat_batch(None, &updates), (Some(10), Some(1)));
    assert_eq!(scan_chat_batch(Some(20), &updates), (Some(20), Some(1)));
    assert_eq!(scan_chat_batch(Some(3), &[]), (Some(3), None));
    let none = vec![ChatUpdate { update_id: 1, chat_id: None }];
    assert_eq!(scan_chat_batch(None, &none), (Some(2), None));
}

#[test]
fn reply_errors() {
    assert_eq!(reply_error(true, Some("x"), "?"), None);
    assert_eq!(reply_error(false, Some("Unauthorized"), "?").as_deref(), Some("Telegram error: Unauthorized"));
    assert_eq!(reply_error(false, None, "invalid token").as_deref(), Some("Telegram error: invalid token"));
}
