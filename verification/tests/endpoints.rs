//! The endpoints as the kernel meets them: invocations with arguments and a capability go
//! in, a run of a tool or a typed refusal comes out.
use ikigai_core::{ArgRef, Bindings, Capability, Invocation, Iri, Request, Verb};
use ikigai_repo::argv::{PR_LIST_STATES, PR_VIEW_JSON_FIELDS};
use ikigai_repo::call::Error;
use ikigai_repo::describe::{ArgSpec, Description};
use ikigai_repo::facade::{gh_pr_facade, log, pr_files, pr_list, Facade};
use ikigai_repo::host::plan_scan_for;
use ikigai_repo::list::{list_repos, Entry, Env, Root};
use ikigai_repo::repr::Representation;
use ikigai_repo::run::{Command, Ended};
use ikigai_repo::space::{space, Endpoint};

fn request(iri: &str, args: &[(&str, &str)]) -> Request {
    let mut request = Request::new(Verb::Source, Iri::parse(iri).unwrap());
    for (name, value) in args {
        request = request.with_arg(*name, ArgRef::Inline(value.as_bytes().to_vec()));
    }
    request
}

/// The endpoint bound under an identifier.
fn bound(iri: &str) -> Endpoint {
    space()
        .into_iter()
        .find(|binding| binding.iri == iri)
        .unwrap_or_else(|| panic!("{iri} is not bound"))
        .endpoint
}

/// The tool-running endpoint bound under an identifier.
fn facade(iri: &str) -> Facade {
    match bound(iri) {
        Endpoint::Tool(facade) => facade,
        Endpoint::List => panic!("{iri} runs no tool"),
    }
}

/// The error as the kernel knows it.
fn kernel_error(error: Error) -> ikigai_core::Error {
    match error {
        Error::MissingArgument(what) => ikigai_core::Error::MissingArgument(what),
        Error::Endpoint(what) => ikigai_core::Error::Endpoint(what),
        Error::Denied(what) => ikigai_core::Error::Denied(what),
    }
}

/// The run that an invocation makes, or the refusal before any process.
fn plan(
    iri: &str,
    args: &[(&str, &str)],
    capability: &Capability,
) -> Result<Command, ikigai_core::Error> {
    let request = request(iri, args);
    let bindings = Bindings::new();
    let inv = Invocation::detached(&request, &bindings, capability);
    facade(iri).plan_for(&inv).map_err(kernel_error)
}

/// What an invocation serves of what its tool wrote.
fn serve(
    iri: &str,
    args: &[(&str, &str)],
    capability: &Capability,
    stdout: &str,
) -> Result<Representation, ikigai_core::Error> {
    let request = request(iri, args);
    let bindings = Bindings::new();
    let inv = Invocation::detached(&request, &bindings, capability);
    let facade = facade(iri);
    let command = facade.plan_for(&inv).map_err(kernel_error)?;
    let ended = Ended::Exited {
        success: true,
        code: Some(0),
        stdout: stdout.as_bytes().to_vec(),
        stderr: Vec::new(),
    };
    facade
        .finish_for(&inv, &command.tool, ended)
        .map_err(kernel_error)
}

/// Where an invocation of the listing scans.
fn scan(args: &[(&str, &str)], capability: &Capability) -> Result<Root, ikigai_core::Error> {
    let request = request("urn:repo:list", args);
    let bindings = Bindings::new();
    let inv = Invocation::detached(&request, &bindings, capability);
    let env = Env {
        repo_root: None,
        home: None,
    };
    plan_scan_for(&inv, env).map_err(kernel_error)
}

fn body(repr: &Representation) -> String {
    String::from_utf8_lossy(&repr.bytes).into_owned()
}

fn input<'a>(description: &'a Description, name: &str) -> &'a ArgSpec {
    description.inputs.iter().find(|a| a.name == name).unwrap()
}

#[test]
fn exec_is_capability_gated_and_allowlisted() {
    let git = Capability::scoped(["urn:cap:exec:git"]);

    // No exec grant at all: the typed, permanent denial.
    let none = Capability::scoped(["urn:cap:unrelated"]);
    let err = plan(
        "urn:system:exec",
        &[("tool", "git"), ("args", "--version")],
        &none,
    )
    .unwrap_err();
    assert!(
        matches!(err, ikigai_core::Error::Denied(_)),
        "{err:?}"
    );
    assert!(!err.is_transient(), "{err:?}");

    // A tool off the allowlist is refused before any process, even under a matching grant.
    let evil = Capability::scoped(["urn:cap:exec:rm"]);
    let err = plan("urn:system:exec", &[("tool", "rm"), ("args", "-rf")], &evil).unwrap_err();
    assert!(
        format!("{err:?}").contains("not an allowlisted tool"),
        "{err:?}"
    );

    // git --version under the git grant runs, and its output is served.
    let args = [("tool", "git"), ("args", "--version")];
    let command = plan("urn:system:exec", &args, &git).unwrap();
    assert_eq!(command.tool, "git");
    assert_eq!(command.args, ["--version"]);
    assert_eq!(command.dir, None);
    let out = serve("urn:system:exec", &args, &git, "git version 2.43.0\n").unwrap();
    assert!(body(&out).contains("git version"), "{:?}", body(&out));
}

#[test]
fn gh_facade_is_gated_and_requires_pr() {
    // No exec:gh grant: denied (typed, permanent) before any gh runs.
    let bare = Capability::scoped(["urn:cap:exec:git"]);
    let err = plan("urn:repo:pr:checks", &[("pr", "1")], &bare).unwrap_err();
    assert!(
        matches!(err, ikigai_core::Error::Denied(_)),
        "{err:?}"
    );
    assert!(!err.is_transient(), "{err:?}");

    // With the grant but no pr=: a clean missing-argument error.
    let gh = Capability::scoped(["urn:cap:exec:gh"]);
    let err = plan("urn:repo:pr:checks", &[], &gh).unwrap_err();
    assert!(format!("{err:?}").contains("MissingArgument"), "{err:?}");
}

#[test]
fn a_facade_declares_its_capability_and_reads_this_repo() {
    let bare = Capability::scoped(["urn:cap:unrelated"]);
    assert!(plan("urn:repo:branch", &[], &bare).is_err());

    let git = Capability::scoped(["urn:cap:exec:git"]);
    let command = plan("urn:repo:branch", &[], &git).unwrap();
    assert_eq!(command.args, ["branch", "--show-current"]);
    let out = serve("urn:repo:branch", &[], &git, "main\n");
    assert!(out.is_ok(), "{out:?}");
    assert_eq!(body(&out.unwrap()), "main\n");
}

#[test]
fn list_enumerates_repos_under_root() {
    let fs = Capability::scoped(["urn:cap:fs:read:*"]);
    let root = scan(&[("root", "/scratch")], &fs).unwrap();
    assert_eq!(root, Root::Dir("/scratch".to_string()));

    // Two repositories and a directory that is none, in the order of no sort.
    let entry = |name: &str, has_git: bool| Entry {
        name: Some(name.to_string()),
        path: format!("/scratch/{name}"),
        absolute: Some(format!("/scratch/{name}")),
        is_dir: true,
        has_git,
    };
    let out = list_repos(vec![
        entry("beta", true),
        entry("not-a-repo", false),
        entry("alpha", true),
    ]);
    let body = body(&out);
    let lines: Vec<&str> = body.lines().collect();

    assert_eq!(lines.len(), 2, "{body:?}");
    assert!(lines[0].starts_with("alpha\t"), "{body:?}");
    assert!(lines[1].starts_with("beta\t"), "{body:?}");
    let alpha_path = lines[0].split('\t').nth(1).unwrap();
    assert!(alpha_path.ends_with("alpha"), "{body:?}");
    assert!(std::path::Path::new(alpha_path).is_absolute(), "{body:?}");
}

#[test]
fn pr_list_and_diff_are_gated() {
    // No exec:gh grant: the typed, permanent denial before any gh runs.
    let bare = Capability::scoped(["urn:cap:exec:git"]);
    let err = plan("urn:repo:pr:list", &[], &bare).unwrap_err();
    assert!(
        matches!(err, ikigai_core::Error::Denied(_)),
        "{err:?}"
    );
    let err = plan("urn:repo:pr:diff", &[("pr", "1")], &bare).unwrap_err();
    assert!(
        matches!(err, ikigai_core::Error::Denied(_)),
        "{err:?}"
    );

    // pr:diff without pr=: a clean missing-argument error.
    let gh = Capability::scoped(["urn:cap:exec:gh"]);
    let err = plan("urn:repo:pr:diff", &[], &gh).unwrap_err();
    assert!(format!("{err:?}").contains("MissingArgument"), "{err:?}");

    // A limit= that is no number is refused before gh is spawned.
    let err = plan("urn:repo:pr:list", &[("limit", "nope")], &gh).unwrap_err();
    assert!(
        format!("{err:?}").contains("limit must be a number"),
        "{err:?}"
    );

    // A state outside the vocabulary is refused, and the error names the valid values.
    let err = plan("urn:repo:pr:list", &[("state", "draft")], &gh).unwrap_err();
    assert!(
        format!("{err:?}").contains("state must be one of open, closed, merged, all"),
        "{err:?}"
    );
}

#[test]
fn descriptions_declare_faces_args_and_caps() {
    // pr:list: exec:gh, limit default 30 (xsd:integer), a json face, both outputs.
    let d = pr_list().describe();
    assert!(d.requires.contains(&"urn:cap:exec:gh".to_string()), "{d:?}");
    let limit = input(&d, "limit");
    assert_eq!(limit.default.as_deref(), Some("30"));
    assert!(!limit.required);
    assert_eq!(
        limit.class.as_deref(),
        Some("http://www.w3.org/2001/XMLSchema#integer")
    );
    let face = input(&d, "as");
    assert_eq!(face.one_of, vec!["application/json".to_string()]);
    assert!(d.outputs.iter().any(|o| o == "application/json"), "{d:?}");
    assert!(
        d.outputs.iter().any(|o| o.starts_with("text/plain")),
        "{d:?}"
    );
    let state = input(&d, "state");
    assert_eq!(state.one_of, PR_LIST_STATES.to_vec());
    assert_eq!(state.default.as_deref(), Some("open"));
    assert!(!state.required);

    // pr:view: a json face that carries headRefOid, the head sha.
    let d = gh_pr_facade(
        "repo-pr-view",
        "t",
        "s",
        &["pr", "view"],
        Some(PR_VIEW_JSON_FIELDS),
    )
    .describe();
    let face = input(&d, "as");
    assert!(face.summary.contains("headRefOid"), "{face:?}");
    assert!(d.outputs.iter().any(|o| o == "application/json"), "{d:?}");

    // pr:diff: text only (no as= argument, one output), pr= required.
    let d = gh_pr_facade("repo-pr-diff", "t", "s", &["pr", "diff"], None).describe();
    assert!(d.inputs.iter().all(|a| a.name != "as"), "{d:?}");
    assert_eq!(d.outputs, vec!["text/plain;charset=utf-8".to_string()]);
    assert!(input(&d, "pr").required);

    // log: exec:git, limit default 20, both faces, path= optional.
    let d = log().describe();
    assert!(
        d.requires.contains(&"urn:cap:exec:git".to_string()),
        "{d:?}"
    );
    let limit = input(&d, "limit");
    assert_eq!(limit.default.as_deref(), Some("20"));
    assert!(d.outputs.iter().any(|o| o == "application/json"), "{d:?}");
    let path = input(&d, "path");
    assert!(!path.required, "{path:?}");

    // pr:files: exec:gh, pr= required (xsd:integer), a json face, both outputs.
    let d = pr_files().describe();
    assert!(d.requires.contains(&"urn:cap:exec:gh".to_string()), "{d:?}");
    let pr = input(&d, "pr");
    assert!(pr.required, "{pr:?}");
    assert_eq!(
        pr.class.as_deref(),
        Some("http://www.w3.org/2001/XMLSchema#integer")
    );
    let face = input(&d, "as");
    assert_eq!(face.one_of, vec!["application/json".to_string()]);
    assert!(d.outputs.iter().any(|o| o == "application/json"), "{d:?}");
    assert!(
        d.outputs.iter().any(|o| o.starts_with("text/plain")),
        "{d:?}"
    );
}

#[test]
fn log_faces_read_a_scratch_repo() {
    let dir = "/scratch";
    let git = Capability::scoped(["urn:cap:exec:git"]);

    // Default face: oneline, limit and directory handed on, the output served as it is.
    let args = [("limit", "2"), ("dir", dir)];
    let command = plan("urn:repo:log", &args, &git).unwrap();
    assert_eq!(command.args, ["-C", dir, "log", "--oneline", "-2"]);
    let out = serve(
        "urn:repo:log",
        &args,
        &git,
        "1111111 third\n2222222 second \"quoted\"\n",
    )
    .unwrap();
    assert!(out.repr_type.media_type.starts_with("text/plain"));
    let text = body(&out);
    assert_eq!(text.lines().count(), 2, "{text:?}");
    assert!(text.lines().next().unwrap().contains("third"), "{text:?}");

    // JSON face: [{hash, author, date, subject}], full sha, RFC 3339 date.
    let args = [("limit", "2"), ("dir", dir), ("as", "application/json")];
    let command = plan("urn:repo:log", &args, &git).unwrap();
    assert_eq!(
        command.args,
        [
            "-C",
            dir,
            "log",
            "--pretty=format:%H%x1f%an%x1f%aI%x1f%s",
            "-2"
        ]
    );
    let printed = "0123456789abcdef0123456789abcdef01234567\u{1f}Test\u{1f}2024-05-01T10:00:00+02:00\u{1f}third\n\
                   89abcdef0123456789abcdef0123456789abcdef\u{1f}Test\u{1f}2024-05-01T09:00:00+02:00\u{1f}second \"quoted\"";
    let out = serve("urn:repo:log", &args, &git, printed).unwrap();
    assert_eq!(out.repr_type.media_type, "application/json");
    let text = body(&out);
    assert!(text.starts_with('[') && text.ends_with(']'), "{text:?}");
    assert_eq!(text.matches("\"hash\":").count(), 2, "{text:?}");
    for key in ["\"author\":", "\"date\":", "\"subject\":"] {
        assert_eq!(text.matches(key).count(), 2, "{text:?}");
    }
    let hash = text.split("\"hash\":\"").nth(1).unwrap();
    let hash = &hash[..hash.find('"').unwrap()];
    assert_eq!(hash.len(), 40, "{hash:?}");
    assert!(hash.chars().all(|c| c.is_ascii_hexdigit()), "{hash:?}");
    let date = text.split("\"date\":\"").nth(1).unwrap();
    assert!(date[..date.find('"').unwrap()].contains('T'), "{text:?}");
    // A quote in a commit subject is escaped, not a broken document.
    assert!(text.contains("second \\\"quoted\\\""), "{text:?}");

    // A limit that is no number is refused before git runs.
    let err = plan("urn:repo:log", &[("limit", "1; rm")], &git).unwrap_err();
    assert!(
        format!("{err:?}").contains("limit must be a number"),
        "{err:?}"
    );
}

#[test]
fn log_path_scopes_a_scratch_repo() {
    let dir = "/scratch";
    let git = Capability::scoped(["urn:cap:exec:git"]);

    // path= rides behind the delimiter in the text face.
    let command = plan("urn:repo:log", &[("dir", dir), ("path", "sub")], &git).unwrap();
    assert_eq!(
        command.args,
        ["-C", dir, "log", "--oneline", "-20", "--", "sub"]
    );

    // It composes with limit=.
    let command = plan(
        "urn:repo:log",
        &[("dir", dir), ("path", "a.txt"), ("limit", "1")],
        &git,
    )
    .unwrap();
    assert_eq!(
        command.args,
        ["-C", dir, "log", "--oneline", "-1", "--", "a.txt"]
    );

    // The JSON face takes the same pathspec.
    let args = [("dir", dir), ("path", "a.txt"), ("as", "application/json")];
    let command = plan("urn:repo:log", &args, &git).unwrap();
    assert_eq!(command.args[5..], ["--", "a.txt"]);
    let out = serve(
        "urn:repo:log",
        &args,
        &git,
        "a\u{1f}Test\u{1f}d\u{1f}touch a again (#3)\nb\u{1f}Test\u{1f}d\u{1f}touch a (#1)",
    )
    .unwrap();
    assert_eq!(out.repr_type.media_type, "application/json");
    let text = body(&out);
    assert_eq!(text.matches("\"subject\":").count(), 2, "{text:?}");
    assert!(text.contains("touch a again (#3)"), "{text:?}");
    assert!(!text.contains("touch sub"), "{text:?}");

    // A path that looks like a flag is refused before git runs.
    let err = plan("urn:repo:log", &[("dir", dir), ("path", "--all")], &git).unwrap_err();
    assert!(
        format!("{err:?}").contains("path must be a pathspec"),
        "{err:?}"
    );
    // So is the empty pathspec.
    let err = plan("urn:repo:log", &[("dir", dir), ("path", "")], &git).unwrap_err();
    assert!(
        format!("{err:?}").contains("path must not be empty"),
        "{err:?}"
    );
}

#[test]
fn pr_files_is_gated_and_guards_pr() {
    // No exec:gh grant: the typed, permanent denial before any gh runs.
    let bare = Capability::scoped(["urn:cap:exec:git"]);
    let err = plan("urn:repo:pr:files", &[("pr", "1")], &bare).unwrap_err();
    assert!(
        matches!(err, ikigai_core::Error::Denied(_)),
        "{err:?}"
    );
    assert!(!err.is_transient(), "{err:?}");

    // With the grant but no pr=: a clean missing-argument error.
    let gh = Capability::scoped(["urn:cap:exec:gh"]);
    let err = plan("urn:repo:pr:files", &[], &gh).unwrap_err();
    assert!(format!("{err:?}").contains("MissingArgument"), "{err:?}");

    // A pr= that is no number is refused over the whole pr:* family.
    for iri in [
        "urn:repo:pr:files",
        "urn:repo:pr:view",
        "urn:repo:pr:diff",
        "urn:repo:pr:checks",
    ] {
        let err = plan(iri, &[("pr", "--web")], &gh).unwrap_err();
        assert!(
            format!("{err:?}").contains("pr must be a number"),
            "{iri}: {err:?}"
        );
    }
}

#[test]
fn list_is_capability_gated() {
    // No fs:read grant: denied before any directory is read.
    let none = Capability::scoped(["urn:cap:unrelated"]);
    let err = scan(&[("root", "/tmp")], &none).unwrap_err();
    assert!(
        matches!(err, ikigai_core::Error::Denied(_)),
        "{err:?}"
    );
    assert!(!err.is_transient(), "{err:?}");
}

#[test]
fn github_facades_are_denied_under_no_grants() {
    let none = Capability::scoped(Vec::<String>::new());
    for (id, iri) in [
        ("repo-pr-list", "urn:repo:pr:list"),
        ("repo-pr-view", "urn:repo:pr:view"),
        ("repo-pr-files", "urn:repo:pr:files"),
        ("repo-pr-diff", "urn:repo:pr:diff"),
        ("repo-pr-checks", "urn:repo:pr:checks"),
    ] {
        assert_eq!(facade(iri).describe().id, id);
        let err = plan(iri, &[("pr", "1")], &none)
            .err()
            .unwrap_or_else(|| panic!("{id} resolved under no grants"));
        assert!(
            matches!(err, ikigai_core::Error::Denied(_)),
            "{id}: {err:?}"
        );
        assert!(!err.is_transient(), "{id}: {err:?}");
    }
}

#[test]
fn declared_outputs_are_the_media_types_served() {
    let root = Capability::root();
    let dir = "/scratch";
    let calls: [(&str, Vec<(&str, &str)>); 5] = [
        (
            "urn:system:exec",
            vec![("tool", "git"), ("args", "rev-parse\nHEAD"), ("dir", dir)],
        ),
        ("urn:repo:status", vec![("dir", dir)]),
        ("urn:repo:branch", vec![("dir", dir)]),
        ("urn:repo:log", vec![("dir", dir)]),
        (
            "urn:repo:log",
            vec![("dir", dir), ("as", "application/json")],
        ),
    ];
    let mut served: Vec<(&str, String)> = Vec::new();
    for (iri, args) in &calls {
        let repr = serve(iri, args, &root, "out\n").unwrap_or_else(|e| panic!("{iri} {args:?}: {e}"));
        served.push((iri, repr.repr_type.canonical()));
    }
    let listing = list_repos(Vec::new());
    served.push(("urn:repo:list", listing.repr_type.canonical()));
    for (iri, got) in &served {
        let declared = bound(iri).describe().outputs;
        assert!(
            declared.contains(got),
            "{iri} served `{got}`, declared only {declared:?}"
        );
        for face in &declared {
            assert!(
                served.iter().any(|(i, g)| i == iri && g == face),
                "{iri} declares `{face}` but no call above served it"
            );
        }
    }
}
