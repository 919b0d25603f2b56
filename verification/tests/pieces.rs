//! The pieces that the endpoints are made of.
use ikigai_repo::argv::{
    log_args, pr_args, pr_files_args, pr_list_args, PR_FILES_TEMPLATE, PR_LIST_FIELDS,
};
use ikigai_repo::call::{Call, Error};
use ikigai_repo::facade::{exec_args, log, pr_files, pr_list, system_exec};
use ikigai_repo::json::json_str;
use ikigai_repo::list::{
    find_repos, finish_scan, list_repos, plan_scan, repo_root, sort_repos, unreadable, Entry, Env, Root,
};
use ikigai_repo::log::{commits_json, log_json, parse_commit, parse_commits, Commit};
use ikigai_repo::repr::{json, text};
use ikigai_repo::run::{conclude, exited, gate, Command, Ended};

#[test]
fn pr_list_builds_the_gh_invocation() {
    // Default shape (text face): state open, sorted by recency of update, and the template
    // renders the five-column line.
    let args = pr_list_args("open", 30, false, None);
    assert_eq!(args[..4], ["pr", "list", "--state", "open"]);
    let flag = |name: &str| {
        let at = args.iter().position(|a| a == name).unwrap();
        args[at + 1].clone()
    };
    assert_eq!(flag("--limit"), "30");
    assert_eq!(flag("--search"), "sort:updated-desc");
    assert_eq!(flag("--json"), PR_LIST_FIELDS);
    assert!(PR_LIST_FIELDS.contains("state"), "{PR_LIST_FIELDS}");
    let template = flag("--template");
    assert_eq!(
        template.matches('\t').count(),
        4,
        "five columns: {template:?}"
    );
    assert!(template.contains("{{.state}}"), "{template:?}");

    // JSON face: no template. repo= appends.
    let args = pr_list_args("all", 10, true, Some("owner/name"));
    assert!(args.iter().all(|a| a != "--template"), "{args:?}");
    assert_eq!(args[3], "all");
    assert_eq!(args[args.len() - 2..], ["--repo", "owner/name"]);
}

#[test]
fn pr_files_builds_the_gh_invocation() {
    // Text face: the export plus the per-path template.
    let args = pr_files_args(7, false, None);
    assert_eq!(args[..5], ["pr", "view", "7", "--json", "files"]);
    let at = args.iter().position(|a| a == "--template").unwrap();
    assert_eq!(args[at + 1], PR_FILES_TEMPLATE);
    assert!(
        PR_FILES_TEMPLATE.contains("{{.path}}"),
        "{PR_FILES_TEMPLATE}"
    );
    assert!(PR_FILES_TEMPLATE.contains('\n'), "one path per line");

    // JSON face: no template. repo= appends.
    let args = pr_files_args(7, true, Some("owner/name"));
    assert!(args.iter().all(|a| a != "--template"), "{args:?}");
    assert_eq!(args[args.len() - 2..], ["--repo", "owner/name"]);
}

#[test]
fn json_str_escapes() {
    assert_eq!(json_str("plain"), "\"plain\"");
    assert_eq!(json_str("a \"q\" \\ b"), "\"a \\\"q\\\" \\\\ b\"");
    assert_eq!(json_str("nl\ntab\t"), "\"nl\\ntab\\t\"");
    assert_eq!(json_str("bell\u{7}"), "\"bell\\u0007\"");
}

#[test]
fn json_str_escapes_at_the_edges() {
    assert_eq!(json_str(""), "\"\"");
    assert_eq!(json_str("\r"), "\"\\r\"");
    assert_eq!(json_str("\u{0}\u{1f}\u{20}"), "\"\\u0000\\u001f \"");
    assert_eq!(json_str("\u{1b}é→"), "\"\\u001bé→\"");
}

#[test]
fn pr_args_put_the_number_behind_the_subcommand() {
    let sub = || vec!["pr".to_string(), "view".to_string()];
    assert_eq!(
        pr_args(sub(), 42, Some("title"), Some("o/n")),
        ["pr", "view", "42", "--json", "title", "--repo", "o/n"]
    );
    assert_eq!(
        pr_args(sub(), u64::MAX, None, None),
        ["pr", "view", "18446744073709551615"]
    );
}

#[test]
fn log_args_put_the_path_last() {
    assert_eq!(log_args(None, 20, false, None), ["log", "--oneline", "-20"]);
    assert_eq!(
        log_args(Some("d"), 0, true, Some("p")),
        [
            "-C",
            "d",
            "log",
            "--pretty=format:%H%x1f%an%x1f%aI%x1f%s",
            "-0",
            "--",
            "p"
        ]
    );
}

#[test]
fn exec_args_are_lines() {
    assert_eq!(exec_args("rev-parse\nHEAD"), ["rev-parse", "HEAD"]);
    assert_eq!(exec_args("\n\na b\n\nc\n"), ["a b", "c"]);
    assert!(exec_args("").is_empty());
    assert_eq!(exec_args("a\r\nb"), ["a\r", "b"]);
}

fn granted(scope: &str) -> Call {
    Call::new().with_grant(scope)
}

#[test]
fn limits_are_counts() {
    let args = |limit: &str| {
        log()
            .plan(&granted("urn:cap:exec:git").with_arg("limit", limit))
            .map(|command| command.args[2].clone())
    };
    let refused = |limit: &str| {
        Err(Error::Endpoint(format!(
            "limit must be a number, got `{limit}`"
        )))
    };
    assert_eq!(args("0"), Ok("-0".to_string()));
    assert_eq!(args("007"), Ok("-7".to_string()));
    assert_eq!(args("+5"), Ok("-5".to_string()));
    assert_eq!(args("4294967295"), Ok("-4294967295".to_string()));
    for limit in ["4294967296", "99999999999999999999", "-1", "", "+", "1 ", "٣"] {
        assert_eq!(args(limit), refused(limit));
    }
}

#[test]
fn pull_requests_are_numbers() {
    let number = |pr: &str| {
        pr_files()
            .plan(&granted("urn:cap:exec:gh").with_arg("pr", pr))
            .map(|command| command.args[2].clone())
    };
    assert_eq!(number("7"), Ok("7".to_string()));
    assert_eq!(number("007"), Ok("7".to_string()));
    assert_eq!(
        number("18446744073709551615"),
        Ok("18446744073709551615".to_string())
    );
    for pr in ["18446744073709551616", "", "+7", "-7", "7a", "#7"] {
        assert_eq!(
            number(pr),
            Err(Error::Endpoint(format!("pr must be a number, got `{pr}`")))
        );
    }
    assert_eq!(
        pr_files().plan(&granted("urn:cap:exec:gh")),
        Err(Error::MissingArgument(
            "pr (the pull-request number)".to_string()
        ))
    );
}

#[test]
fn a_later_argument_counts() {
    let call = Call::new().with_arg("dir", "a").with_arg("dir", "b");
    assert_eq!(call.inline_str("dir"), Some("b"));
    assert_eq!(call.inline_str("di"), None);
}

#[test]
fn the_gates_say_why() {
    let run = |tool: &str| Command {
        tool: tool.to_string(),
        args: vec!["x".to_string()],
        dir: Some("d".to_string()),
    };
    assert_eq!(
        gate(&granted("urn:cap:exec:just"), run("just")),
        Ok(run("just"))
    );
    assert_eq!(
        gate(&granted("urn:cap:exec:*"), run("cargo")),
        Err(Error::Denied(
            "exec: capability does not grant `urn:cap:exec:cargo`".to_string()
        ))
    );
    assert_eq!(
        gate(&granted("urn:cap:exec:rm"), run("rm")),
        Err(Error::Endpoint(
            "exec: `rm` is not an allowlisted tool (git, gh, cargo, just)".to_string()
        ))
    );
}

#[test]
fn failed_runs_say_why() {
    assert_eq!(
        conclude("git", Ended::NotStarted("no such file".to_string())),
        Err(Error::Endpoint(
            "exec: could not run `git`: no such file".to_string()
        ))
    );
    let failed = |code: Option<i32>, stderr: &[u8]| {
        conclude(
            "git",
            Ended::Exited {
                success: false,
                code,
                stdout: b"partial".to_vec(),
                stderr: stderr.to_vec(),
            },
        )
    };
    assert_eq!(
        failed(Some(128), b" \x0bfatal: not a repo\n\n"),
        Err(Error::Endpoint(
            "exec: `git` exited 128: fatal: not a repo".to_string()
        ))
    );
    assert_eq!(
        failed(None, b""),
        Err(Error::Endpoint("exec: `git` exited -1: ".to_string()))
    );
    assert_eq!(
        failed(Some(i32::MIN), "\u{2003}x\u{a0}".as_bytes()),
        Err(Error::Endpoint(
            "exec: `git` exited -2147483648: x".to_string()
        ))
    );
    assert_eq!(
        exited("gh", false, Some(1), String::new(), "  a b  "),
        Err(Error::Endpoint("exec: `gh` exited 1: a b".to_string()))
    );
}

#[test]
fn white_space_is_trimmed() {
    let white = [
        '\u{9}', '\u{a}', '\u{b}', '\u{c}', '\u{d}', '\u{20}', '\u{85}', '\u{a0}', '\u{1680}',
        '\u{2000}', '\u{2001}', '\u{2002}', '\u{2003}', '\u{2004}', '\u{2005}', '\u{2006}',
        '\u{2007}', '\u{2008}', '\u{2009}', '\u{200a}', '\u{2028}', '\u{2029}', '\u{202f}',
        '\u{205f}', '\u{3000}',
    ];
    for c in '\u{0}'..=char::MAX {
        let said = format!("{c}");
        let kept = if white.contains(&c) { "" } else { said.as_str() };
        assert_eq!(
            exited("git", false, Some(1), String::new(), &said),
            Err(Error::Endpoint(format!("exec: `git` exited 1: {kept}"))),
            "{c:?}"
        );
    }
}

#[test]
fn output_is_text() {
    let wrote = |stdout: &[u8]| {
        conclude(
            "git",
            Ended::Exited {
                success: true,
                code: Some(0),
                stdout: stdout.to_vec(),
                stderr: b"warning".to_vec(),
            },
        )
    };
    assert_eq!(wrote("é\n".as_bytes()), Ok("é\n".to_string()));
    assert_eq!(wrote(b"a\xffb"), Ok("a\u{fffd}b".to_string()));
}

#[test]
fn representations_are_typed() {
    let plain = text("é".to_string());
    assert_eq!(plain.repr_type.media_type, "text/plain");
    assert_eq!(
        plain.repr_type.params,
        [("charset".to_string(), "utf-8".to_string())]
    );
    assert_eq!(plain.repr_type.canonical(), "text/plain;charset=utf-8");
    assert_eq!(plain.bytes, [0xc3, 0xa9]);
    let structured = json("[]".to_string());
    assert_eq!(structured.repr_type.canonical(), "application/json");
    assert_eq!(structured.bytes, b"[]");
}

#[test]
fn states_default_to_open() {
    let gh = || granted("urn:cap:exec:gh");
    let plain = pr_list().plan(&gh()).unwrap();
    assert_eq!(
        plain.args[..8],
        [
            "pr",
            "list",
            "--state",
            "open",
            "--limit",
            "30",
            "--search",
            "sort:updated-desc"
        ]
    );
    assert_eq!(pr_list().plan(&gh().with_arg("state", "open")), Ok(plain));
    assert_eq!(
        pr_list()
            .plan(&gh().with_arg("state", "").with_arg("limit", "x"))
            .unwrap_err(),
        Error::Endpoint("state must be one of open, closed, merged, all, got ``".to_string())
    );
}

#[test]
fn exec_wants_a_tool() {
    assert_eq!(
        system_exec().plan(&granted("urn:cap:exec:git")),
        Err(Error::MissingArgument(
            "tool (git, gh, cargo, just)".to_string()
        ))
    );
    let call = granted("urn:cap:exec:cargo")
        .with_arg("tool", "cargo")
        .with_arg("dir", "/w");
    assert_eq!(
        system_exec().plan(&call),
        Ok(Command {
            tool: "cargo".to_string(),
            args: Vec::new(),
            dir: Some("/w".to_string())
        })
    );
}

#[test]
fn commits_are_read_line_by_line() {
    let commit = |hash: &str, subject: &str| Commit {
        hash: hash.to_string(),
        author: "a".to_string(),
        date: "d".to_string(),
        subject: subject.to_string(),
    };
    assert_eq!(
        parse_commit("h\u{1f}a\u{1f}d\u{1f}s"),
        Some(commit("h", "s"))
    );
    assert_eq!(
        parse_commit("h\u{1f}a\u{1f}d\u{1f}"),
        Some(commit("h", ""))
    );
    assert_eq!(parse_commit("h\u{1f}a\u{1f}d"), None);
    assert_eq!(parse_commit(""), None);
    // A unit separator inside the subject cuts the subject there.
    assert_eq!(
        parse_commit("h\u{1f}a\u{1f}d\u{1f}s\u{1f}more"),
        Some(commit("h", "s"))
    );
    assert_eq!(
        parse_commits("h\u{1f}a\u{1f}d\u{1f}s\r\nnoise\n\nk\u{1f}a\u{1f}d\u{1f}t\r"),
        [commit("h", "s"), commit("k", "t\r")]
    );
}

#[test]
fn the_history_is_one_document() {
    assert_eq!(log_json(""), "[]");
    assert_eq!(commits_json(&Vec::new()), "[]");
    assert_eq!(
        log_json("h\u{1f}a \"b\"\u{1f}d\u{1f}s\nk\u{1f}a\u{1f}d\u{1f}t\\"),
        "[{\"hash\":\"h\",\"author\":\"a \\\"b\\\"\",\"date\":\"d\",\"subject\":\"s\"},\
         {\"hash\":\"k\",\"author\":\"a\",\"date\":\"d\",\"subject\":\"t\\\\\"}]"
    );
}

fn env(repo_root: Option<&str>, home: Option<&str>) -> Env {
    Env {
        repo_root: repo_root.map(str::to_string),
        home: home.map(str::to_string),
    }
}

#[test]
fn roots_have_a_priority() {
    let bare = Call::new();
    let named = Call::new().with_arg("root", "/r");
    assert_eq!(
        repo_root(&named, env(Some("/e"), Some("/h"))),
        Ok(Root::Dir("/r".to_string()))
    );
    assert_eq!(
        repo_root(&bare, env(Some("/e"), Some("/h"))),
        Ok(Root::Dir("/e".to_string()))
    );
    assert_eq!(
        repo_root(&bare, env(None, Some("/h"))),
        Ok(Root::UnderHome("/h".to_string()))
    );
    assert_eq!(
        repo_root(&bare, env(None, None)),
        Err(Error::Endpoint(
            "repo-list: no root=, no IKIGAI_REPO_ROOT, and $HOME is unset".to_string()
        ))
    );
    assert_eq!(
        plan_scan(&bare, env(None, None)),
        Err(Error::Denied(
            "repo-list: capability does not grant `urn:cap:fs:read:*`".to_string()
        ))
    );
    assert_eq!(
        plan_scan(&named.with_grant("urn:cap:fs:read:*"), env(None, None)),
        Ok(Root::Dir("/r".to_string()))
    );
    assert_eq!(
        unreadable("/r", "denied"),
        Error::Endpoint("repo-list: cannot read root `/r`: denied".to_string())
    );
}

fn entry(name: Option<&str>, path: &str, is_dir: bool, has_git: bool) -> Entry {
    Entry {
        name: name.map(str::to_string),
        path: path.to_string(),
        absolute: None,
        is_dir,
        has_git,
    }
}

#[test]
fn only_repositories_are_listed() {
    let entries = vec![
        entry(Some("b"), "/b", true, true),
        entry(Some("file"), "/file", false, true),
        entry(None, "/mangled", true, true),
        entry(Some("plain"), "/plain", true, false),
        entry(Some("a"), "/a", true, true),
    ];
    assert_eq!(
        find_repos(entries),
        [
            ("b".to_string(), "/b".to_string()),
            ("a".to_string(), "/a".to_string())
        ]
    );
    assert_eq!(list_repos(Vec::new()).bytes, b"");
}

#[test]
fn an_unreadable_root_is_no_empty_listing() {
    let listed = finish_scan("/r", Ok(vec![entry(Some("a"), "/r/a", true, true)]));
    assert_eq!(listed.unwrap().bytes, b"a\t/r/a");
    assert_eq!(finish_scan("/r", Ok(Vec::new())).unwrap().bytes, b"");
    assert_eq!(
        finish_scan("/r", Err("denied".to_string())),
        Err(Error::Endpoint(
            "repo-list: cannot read root `/r`: denied".to_string()
        ))
    );
}

#[test]
fn absolute_paths_are_preferred() {
    let mut repo = entry(Some("a"), "./a", true, true);
    repo.absolute = Some("/w/a".to_string());
    assert_eq!(list_repos(vec![repo]).bytes, b"a\t/w/a");
    assert_eq!(
        list_repos(vec![entry(Some("a"), "./a", true, true)]).bytes,
        b"a\t./a"
    );
}

#[test]
fn listings_are_sorted() {
    let repo = |name: &str, path: &str| (name.to_string(), path.to_string());
    let mut repos = vec![
        repo("b", "2"),
        repo("é", "0"),
        repo("ab", "1"),
        repo("b", "1"),
        repo("a", "9"),
        repo("\u{10000}", "x"),
        repo("\u{e000}", "x"),
        repo("B", "1"),
        repo("", "1"),
        repo("b", "1"),
    ];
    let sorted = sort_repos(repos.clone());
    repos.sort();
    assert_eq!(sorted, repos);
}

#[test]
fn listings_ignore_reading_order() {
    let one = vec![
        entry(Some("b"), "/b", true, true),
        entry(Some("a"), "/a", true, true),
    ];
    let other = vec![
        entry(Some("a"), "/a", true, true),
        entry(Some("b"), "/b", true, true),
    ];
    let body = list_repos(one);
    assert_eq!(body.bytes, b"a\t/a\nb\t/b");
    assert_eq!(body, list_repos(other));
}
