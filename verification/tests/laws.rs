//! The laws of the space on concrete values.
use ikigai_core::{ArgRef, Bindings, Capability, Invocation, Iri, Request, Verb};
use ikigai_repo::argv::{log_args, pr_files_args, pr_list_args};
use ikigai_repo::call::{Call, Error};
use ikigai_repo::describe;
use ikigai_repo::facade::{log, pr_list, system_exec, Facade};
use ikigai_repo::host::plan_scan_for;
use ikigai_repo::list::{plan_scan, Env, Root};
use ikigai_repo::run::Ended;
use ikigai_repo::space::{space, Endpoint, Step};

/// The tool-running endpoints of the space, but for the low-level seam.
fn facades() -> Vec<Facade> {
    space()
        .into_iter()
        .filter_map(|binding| match binding.endpoint {
            Endpoint::Tool(Facade::Exec) | Endpoint::List => None,
            Endpoint::Tool(facade) => Some(facade),
        })
        .collect()
}

/// A call that every endpoint finds well formed.
fn well_formed() -> Call {
    Call::new().with_arg("pr", "1").with_arg("tool", "git")
}

#[test]
fn the_wildcard_runs_nothing() {
    let call = well_formed().with_grant("urn:cap:exec:*");
    for facade in facades() {
        assert!(
            matches!(facade.plan(&call), Err(Error::Denied(_))),
            "{facade:?}"
        );
    }
    assert!(matches!(system_exec().plan(&call), Err(Error::Denied(_))));
}

#[test]
fn facades_enforce_what_they_declare() {
    for facade in facades() {
        let scope = facade.describe().requires[0].clone();
        let command = facade.plan(&well_formed().with_grant(&scope)).unwrap();
        assert_eq!(scope, format!("urn:cap:exec:{}", command.tool));
        assert_eq!(
            facade.plan(&well_formed()),
            Err(Error::Denied(format!(
                "exec: capability does not grant `{scope}`"
            )))
        );
    }
}

#[test]
fn listing_asks_for_no_tool() {
    let env = || Env {
        repo_root: None,
        home: Some("/h".to_string()),
    };
    let tools = Call::new()
        .with_grant("urn:cap:exec:git")
        .with_grant("urn:cap:exec:gh");
    assert!(matches!(plan_scan(&tools, env()), Err(Error::Denied(_))));
    let fs = Call::new().with_grant("urn:cap:fs:read:*");
    assert_eq!(
        plan_scan(&fs, env()),
        Ok(Root::UnderHome("/h".to_string()))
    );
}

#[test]
fn only_declared_inputs_count() {
    let names = [
        "tool", "args", "dir", "as", "limit", "pr", "path", "repo", "state", "root", "other",
    ];
    for facade in facades() {
        let description = facade.describe();
        let scope = description.requires[0].clone();
        let plain = || well_formed().with_grant(&scope);
        let planned = facade.plan(&plain());
        for name in names {
            if description.inputs.iter().all(|input| input.name != name) {
                let noisy = plain().with_arg(name, "--noise");
                assert_eq!(facade.plan(&noisy), planned, "{name}");
            }
        }
    }
}

#[test]
fn missing_inputs_are_named() {
    for binding in space() {
        if let Endpoint::Tool(facade) = binding.endpoint {
            let lacks = facade.describe().inputs.iter().any(|input| input.required);
            let missing = matches!(facade.plan(&Call::new()), Err(Error::MissingArgument(_)));
            assert_eq!(lacks, missing, "{}", binding.iri);
        }
    }
}

#[test]
fn declared_defaults_count() {
    for (facade, scope) in [(log(), "urn:cap:exec:git"), (pr_list(), "urn:cap:exec:gh")] {
        let plain = facade.plan(&Call::new().with_grant(scope)).unwrap();
        for input in facade.describe().inputs {
            if let Some(value) = input.default {
                let spelled = Call::new()
                    .with_grant(scope)
                    .with_arg(&input.name, &value);
                assert_eq!(facade.plan(&spelled).as_ref(), Ok(&plain));
            }
        }
    }
}

#[test]
fn json_selects_json() {
    for (value, media_type) in [
        ("application/json", "application/json"),
        ("json", "application/json"),
        ("text/x-json;v=1", "application/json"),
        ("application/JSON", "text/plain"),
        ("jso", "text/plain"),
        ("", "text/plain"),
    ] {
        let call = Call::new().with_arg("as", value);
        let served = pr_list().render(&call, "[]".to_string());
        assert_eq!(served.repr_type.media_type, media_type, "{value}");
        assert_eq!(served.bytes, b"[]");
    }
}

#[test]
fn faces_share_one_export() {
    let plain = pr_list_args("all", 5, false, Some("o/n"));
    let structured = pr_list_args("all", 5, true, Some("o/n"));
    assert_eq!(structured[..10], plain[..10]);
    assert_eq!(structured[10..], plain[12..]);

    let plain = pr_files_args(5, false, Some("o/n"));
    let structured = pr_files_args(5, true, Some("o/n"));
    assert_eq!(structured[..5], plain[..5]);
    assert_eq!(structured[5..], plain[7..]);

    let plain = log_args(Some("d"), 5, false, Some("p"));
    let structured = log_args(Some("d"), 5, true, Some("p"));
    assert_eq!(structured[..3], plain[..3]);
    assert_eq!(structured[4..], plain[4..]);
}

#[test]
fn directories_and_repositories_are_handed_on() {
    for facade in facades() {
        let scope = facade.describe().requires[0].clone();
        let call = well_formed()
            .with_grant(&scope)
            .with_arg("dir", "/w")
            .with_arg("repo", "o/n");
        let command = facade.plan(&call).unwrap();
        if command.tool == "git" {
            assert_eq!(command.dir, None);
            assert_eq!(command.args[..2], ["-C", "/w"]);
        } else {
            assert_eq!(command.dir.as_deref(), Some("/w"));
            assert_eq!(command.args[command.args.len() - 2..], ["--repo", "o/n"]);
        }
    }
}

#[test]
fn output_passes_through() {
    let exited = |success: bool| Ended::Exited {
        success,
        code: Some(if success { 0 } else { 1 }),
        stdout: "número\r\n".as_bytes().to_vec(),
        stderr: b"no\n".to_vec(),
    };
    for facade in facades() {
        let served = facade.finish(&Call::new(), "gh", exited(true)).unwrap();
        assert_eq!(served.bytes, "número\r\n".as_bytes());
        assert_eq!(served.repr_type.canonical(), "text/plain;charset=utf-8");
        assert_eq!(
            facade.finish(&Call::new(), "gh", exited(false)),
            Err(Error::Endpoint("exec: `gh` exited 1: no".to_string()))
        );
    }
}

#[test]
fn every_endpoint_is_a_read_of_its_own_name() {
    let bindings = space();
    assert_eq!(bindings.len(), 10);
    let mut iris: Vec<&str> = bindings.iter().map(|b| b.iri.as_str()).collect();
    iris.sort();
    iris.dedup();
    assert_eq!(iris.len(), 10);
    let mut ids: Vec<String> = Vec::new();
    for binding in &bindings {
        let description = binding.endpoint.describe();
        assert_eq!(
            description.verbs,
            [describe::Verb::Source, describe::Verb::Meta]
        );
        assert_eq!(description.requires.len(), 1);
        assert!(description.inputs.iter().all(|input| input.class.is_some()));
        assert!(description
            .id
            .split('-')
            .all(|word| !word.is_empty() && word.chars().all(|c| c.is_ascii_lowercase())));
        ids.push(description.id);
    }
    ids.sort();
    ids.dedup();
    assert_eq!(ids.len(), 10);
}

#[test]
fn space_is_at_the_root() {
    assert_eq!(ikigai_repo::space(), space());
}

#[test]
fn invocations_are_read_off_the_kernel() {
    let iri = Iri::parse("urn:repo:list").unwrap();
    let request = Request::new(Verb::Source, iri.clone())
        .with_arg("dir", ArgRef::Inline(b"/w".to_vec()))
        .with_arg("limit", ArgRef::Inline(vec![0xff]))
        .with_arg("path", ArgRef::Reference(iri))
        .with_arg("root", ArgRef::Inline("é".as_bytes().to_vec()));
    let bindings = Bindings::new();
    let capability = Capability::scoped(["urn:cap:exec:git", "urn:cap:fs:read:*"]);
    let inv = Invocation::detached(&request, &bindings, &capability);

    // Only what is inline and valid text counts.
    let call = Call::of(&inv);
    assert_eq!(call.inline_str("dir"), Some("/w"));
    assert_eq!(call.inline_str("limit"), None);
    assert_eq!(call.inline_str("path"), None);
    assert!(call.allows("urn:cap:exec:git"));
    assert!(!call.allows("urn:cap:exec:gh"));

    let command = log().plan_for(&inv).unwrap();
    assert_eq!(command.args, ["-C", "/w", "log", "--oneline", "-20"]);
    let none = Env {
        repo_root: None,
        home: None,
    };
    assert_eq!(
        plan_scan_for(&inv, none),
        Ok(Root::Dir("é".to_string()))
    );

    // Root grants every scope.
    let root = Capability::root();
    let inv = Invocation::detached(&request, &bindings, &root);
    assert!(Call::of(&inv).allows("urn:cap:exec:just"));
}

#[test]
fn every_step_is_granted() {
    let env = || Env {
        repo_root: Some("/e".to_string()),
        home: None,
    };
    let bindings = Bindings::new();
    for binding in space() {
        let request = Request::new(Verb::Source, Iri::parse(&*binding.iri).unwrap())
            .with_arg("tool", ArgRef::Inline(b"git".to_vec()))
            .with_arg("pr", ArgRef::Inline(b"1".to_vec()));
        let none = Capability::scoped(["urn:cap:unrelated"]);
        let inv = Invocation::detached(&request, &bindings, &none);
        let refused = binding.endpoint.plan_for(&inv, env());
        assert!(matches!(refused, Err(Error::Denied(_))), "{refused:?}");

        let root = Capability::root();
        let inv = Invocation::detached(&request, &bindings, &root);
        match (&binding.endpoint, binding.endpoint.plan_for(&inv, env())) {
            (Endpoint::Tool(facade), Ok(Step::Run(command))) => {
                assert_eq!(Ok(command), facade.plan_for(&inv));
            }
            (Endpoint::List, Ok(Step::Scan(scanned))) => {
                assert_eq!(scanned, Root::Dir("/e".to_string()));
            }
            (_, other) => panic!("{}: {other:?}", binding.iri),
        }
    }
}
