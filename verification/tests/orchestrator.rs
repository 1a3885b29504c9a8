use toast::error::{CommandFailure, DirectoryStep, Malformed, ToastError};
use toast::orchestrator::{
    default_output, get_npm_bin_dir, import_map_file, Action, CompileConfig, Directive, Event,
    Stage,
};
use toast::version::Version;

type Imports = Vec<(String, String)>;

fn imports() -> Imports {
    vec![("react".to_string(), "/web_modules/react.js".to_string())]
}

fn directive(output_dir: Option<&str>) -> Directive {
    Directive::Incremental {
        debug: true,
        input_dir: "/proj".to_string(),
        output_dir: output_dir.map(str::to_string),
    }
}

fn node(program: &str, argument: &str) -> Option<Action<Imports>> {
    Some(Action::RunCommand { program: program.to_string(), argument: argument.to_string() })
}

/// Takes the run as far as the stage that awaits the directive.
fn until_directive() -> Stage<Imports> {
    let (stage, action) = Stage::<Imports>::start();
    assert_eq!(action, Action::InstallReporter);
    assert_eq!(stage, Stage::InstallingReporter);
    let (stage, action) = stage.step(Event::ReporterInstalled);
    assert_eq!(action, node("node", "-v"));
    assert_eq!(stage, Stage::CheckingRuntime);
    let (stage, action) = stage.step(Event::CommandFinished(Ok(b"v14.15.1\n".to_vec())));
    assert_eq!(action, node("npm", "bin"));
    assert_eq!(stage, Stage::FindingPackageManager);
    let (stage, action) =
        stage.step(Event::CommandFinished(Ok(b"/proj/node_modules/.bin\n".to_vec())));
    assert_eq!(action, Some(Action::ReadDirective));
    assert_eq!(
        stage,
        Stage::AwaitingDirective { npm_bin_dir: "/proj/node_modules/.bin\n".to_string() }
    );
    stage
}

/// Takes the run as far as the stage that awaits the parsed import map.
fn until_parsing(output_dir: Option<&str>) -> Stage<Imports> {
    let stage = until_directive();
    let (stage, action) = stage.step(Event::DirectiveGiven(directive(output_dir)));
    assert_eq!(
        action,
        Some(Action::ReadFile { path: "/proj/public/web_modules/import-map.json".to_string() })
    );
    let (stage, action) = stage.step(Event::FileRead(Ok("{\"imports\":{}}".to_string())));
    assert_eq!(action, Some(Action::ParseImportMap { content: "{\"imports\":{}}".to_string() }));
    assert_eq!(
        stage,
        Stage::ParsingImportMap {
            npm_bin_dir: "/proj/node_modules/.bin\n".to_string(),
            directive: directive(output_dir),
            content: "{\"imports\":{}}".to_string(),
        }
    );
    stage
}

#[test]
fn paths_of_a_project() {
    assert_eq!(import_map_file("/proj"), "/proj/public/web_modules/import-map.json");
    assert_eq!(import_map_file("/proj/"), "/proj/public/web_modules/import-map.json");
    assert_eq!(import_map_file(""), "public/web_modules/import-map.json");
    assert_eq!(default_output("/proj"), "/proj/public");
    assert_eq!(default_output("site/"), "site/public");
}

#[test]
fn bin_dir_is_what_the_package_manager_wrote() {
    assert_eq!(
        get_npm_bin_dir(Ok(b"/proj/node_modules/.bin\n".to_vec())),
        Ok("/proj/node_modules/.bin\n".to_string())
    );
    assert_eq!(get_npm_bin_dir(Ok(vec![])), Ok(String::new()));
    assert_eq!(get_npm_bin_dir(Ok("caf\u{e9}".as_bytes().to_vec())), Ok("caf\u{e9}".to_string()));
}

#[test]
fn bin_dir_that_is_not_text_is_unrecoverable() {
    let e = get_npm_bin_dir(Ok(vec![0x2f, 0xc3, 0x28])).unwrap_err();
    let said = "invalid utf-8 sequence of 1 bytes from index 1".to_string();
    assert_eq!(e, ToastError::Unrecoverable(CommandFailure::Decoding { cause: said.clone() }));
    assert_eq!(e.message(), "npm bin location could not be found, exiting");
    assert_eq!(
        e.causal_chain(),
        vec!["npm bin location could not be found, exiting".to_string(), said]
    );
    assert!(e.is_fault());
    let e = get_npm_bin_dir(Ok(vec![0xff])).unwrap_err();
    assert!(e.is_fault());
    assert_eq!(e.cause(), Some(String::from_utf8(vec![0xff]).unwrap_err().to_string()));
    let e = get_npm_bin_dir(Ok(vec![b'a', 0xe2, 0x82])).unwrap_err();
    assert_eq!(e.cause(), Some("incomplete utf-8 byte sequence from index 1".to_string()));
}

#[test]
fn only_the_failed_discovery_is_a_fault() {
    let others = vec![
        ToastError::ExecutionFailure(CommandFailure::Execution { cause: "x".to_string() }),
        ToastError::ExecutionFailure(CommandFailure::Decoding { cause: "x".to_string() }),
        ToastError::ReadFailure { path: "p".to_string(), cause: "x".to_string() },
        ToastError::ParseFailure(Malformed::Version {
            trimmed: "a".to_string(),
            raw: "va".to_string(),
        }),
        ToastError::ParseFailure(Malformed::ImportMap {
            content: "c".to_string(),
            path: "p".to_string(),
            cause: "x".to_string(),
        }),
        ToastError::IncompatibleVersion {
            found: Version::new(1, 0, 0),
            required: Version::new(14, 0, 0),
        },
        ToastError::DirectoryFailure {
            step: DirectoryStep::Creation,
            path: "p".to_string(),
            cause: "x".to_string(),
        },
        ToastError::DirectoryFailure {
            step: DirectoryStep::Canonicalization,
            path: "p".to_string(),
            cause: "x".to_string(),
        },
    ];
    for e in others {
        assert!(!e.is_fault(), "{:?}", e);
    }
    let faults = vec![
        ToastError::Unrecoverable(CommandFailure::Execution { cause: "x".to_string() }),
        ToastError::Unrecoverable(CommandFailure::Decoding { cause: "x".to_string() }),
    ];
    for e in faults {
        assert!(e.is_fault(), "{:?}", e);
    }
}

#[test]
fn package_manager_that_did_not_run_is_unrecoverable() {
    let e = get_npm_bin_dir(Err("not found".to_string())).unwrap_err();
    assert_eq!(
        e,
        ToastError::Unrecoverable(CommandFailure::Execution { cause: "not found".to_string() })
    );
    assert_eq!(e.message(), "failed to execute process");
    assert_eq!(e.cause(), Some("not found".to_string()));
    assert!(e.is_fault());
}

#[test]
fn run_with_an_output_directory_uses_it_as_given() {
    let stage = until_parsing(Some("out/../dist"));
    let (stage, action) = stage.step(Event::ImportMapParsed(Ok(imports())));
    assert_eq!(
        action,
        Some(Action::Compile(CompileConfig {
            debug: true,
            project_root_dir: "/proj".to_string(),
            output_dir: "out/../dist".to_string(),
            npm_bin_dir: "/proj/node_modules/.bin\n".to_string(),
            import_map: imports(),
        }))
    );
    assert_eq!(stage, Stage::Compiling);
}

#[test]
fn run_without_an_output_directory_creates_and_resolves_the_default() {
    let stage = until_parsing(None);
    let (stage, action) = stage.step(Event::ImportMapParsed(Ok(imports())));
    assert_eq!(action, Some(Action::CreateDirectories { path: "/proj/public".to_string() }));
    let (stage, action) = stage.step(Event::DirectoriesCreated(Ok(())));
    assert_eq!(action, Some(Action::Canonicalize { path: "/proj/public".to_string() }));
    let (stage, action) =
        stage.step(Event::PathCanonicalized(Ok("/mnt/disk/proj/public".to_string())));
    assert_eq!(
        action,
        Some(Action::Compile(CompileConfig {
            debug: true,
            project_root_dir: "/proj".to_string(),
            output_dir: "/mnt/disk/proj/public".to_string(),
            npm_bin_dir: "/proj/node_modules/.bin\n".to_string(),
            import_map: imports(),
        }))
    );
    assert_eq!(stage, Stage::Compiling);
}

#[test]
fn old_runtime_ends_the_run_before_any_work() {
    let (stage, _) = Stage::<Imports>::start();
    let (stage, _) = stage.step(Event::ReporterInstalled);
    let (stage, action) = stage.step(Event::CommandFinished(Ok(b"v13.9.9\n".to_vec())));
    assert_eq!(
        action,
        Some(Action::Fail(ToastError::IncompatibleVersion {
            found: Version::new(13, 9, 9),
            required: Version::new(14, 0, 0),
        }))
    );
    assert_eq!(stage, Stage::Failed);
}

#[test]
fn runtime_that_cannot_be_asked_ends_the_run() {
    let (stage, _) = Stage::<Imports>::start();
    let (stage, _) = stage.step(Event::ReporterInstalled);
    let (stage, action) = stage.step(Event::CommandFinished(Err("no node".to_string())));
    assert_eq!(
        action,
        Some(Action::Fail(ToastError::ExecutionFailure(CommandFailure::Execution {
            cause: "no node".to_string()
        })))
    );
    assert_eq!(stage, Stage::Failed);
}

#[test]
fn missing_package_manager_ends_the_run() {
    let (stage, _) = Stage::<Imports>::start();
    let (stage, _) = stage.step(Event::ReporterInstalled);
    let (stage, _) = stage.step(Event::CommandFinished(Ok(b"v16.0.0".to_vec())));
    let (stage, action) = stage.step(Event::CommandFinished(Err("no npm".to_string())));
    assert_eq!(
        action,
        Some(Action::Fail(ToastError::Unrecoverable(CommandFailure::Execution {
            cause: "no npm".to_string()
        })))
    );
    assert_eq!(stage, Stage::Failed);
}

#[test]
fn unreadable_import_map_is_a_read_failure() {
    let stage = until_directive();
    let (stage, _) = stage.step(Event::DirectiveGiven(directive(None)));
    let (stage, action) = stage.step(Event::FileRead(Err("No such file".to_string())));
    let expected = ToastError::ReadFailure {
        path: "/proj/public/web_modules/import-map.json".to_string(),
        cause: "No such file".to_string(),
    };
    assert_eq!(action, Some(Action::Fail(expected.clone())));
    assert_eq!(stage, Stage::Failed);
    assert_eq!(
        expected.message(),
        "Failed to read `import-map.json` from `/proj/public/web_modules/import-map.json`"
    );
    assert_eq!(expected.causal_chain(), vec![expected.message(), "No such file".to_string()]);
}

#[test]
fn invalid_import_map_is_a_parse_failure_with_content_and_path() {
    let stage = until_directive();
    let (stage, _) = stage.step(Event::DirectiveGiven(directive(None)));
    let (stage, _) = stage.step(Event::FileRead(Ok("{ not json".to_string())));
    let (stage, action) =
        stage.step(Event::ImportMapParsed(Err("key must be a string at line 1".to_string())));
    let expected = ToastError::ParseFailure(Malformed::ImportMap {
        content: "{ not json".to_string(),
        path: "/proj/public/web_modules/import-map.json".to_string(),
        cause: "key must be a string at line 1".to_string(),
    });
    assert_eq!(action, Some(Action::Fail(expected.clone())));
    assert_eq!(stage, Stage::Failed);
    let message = expected.message();
    assert_eq!(
        message,
        "Failed to parse import map from content `{ not json` at \
         `/proj/public/web_modules/import-map.json`"
    );
    assert!(message.contains("{ not json"));
    assert!(message.contains("/proj/public/web_modules/import-map.json"));
    assert_eq!(
        expected.causal_chain(),
        vec![message, "key must be a string at line 1".to_string()]
    );
}

#[test]
fn directory_that_cannot_be_created_ends_the_run() {
    let stage = until_parsing(None);
    let (stage, _) = stage.step(Event::ImportMapParsed(Ok(imports())));
    let (stage, action) = stage.step(Event::DirectoriesCreated(Err("read-only".to_string())));
    let expected = ToastError::DirectoryFailure {
        step: DirectoryStep::Creation,
        path: "/proj/public".to_string(),
        cause: "read-only".to_string(),
    };
    assert_eq!(action, Some(Action::Fail(expected.clone())));
    assert_eq!(stage, Stage::Failed);
    assert_eq!(expected.message(), "Failed create directories for path `/proj/public`");
    assert_eq!(expected.cause(), Some("read-only".to_string()));
}

#[test]
fn directory_that_cannot_be_resolved_ends_the_run() {
    let stage = until_parsing(None);
    let (stage, _) = stage.step(Event::ImportMapParsed(Ok(imports())));
    let (stage, _) = stage.step(Event::DirectoriesCreated(Ok(())));
    let (stage, action) = stage.step(Event::PathCanonicalized(Err("loop".to_string())));
    let expected = ToastError::DirectoryFailure {
        step: DirectoryStep::Canonicalization,
        path: "/proj/public".to_string(),
        cause: "loop".to_string(),
    };
    assert_eq!(action, Some(Action::Fail(expected.clone())));
    assert_eq!(stage, Stage::Failed);
    assert_eq!(expected.message(), "Failed canonicalize the output directory path");
}

#[test]
fn event_that_is_not_awaited_changes_nothing() {
    let (stage, _) = Stage::<Imports>::start();
    let (stage, action) = stage.step(Event::FileRead(Ok("{}".to_string())));
    assert_eq!(action, None);
    assert_eq!(stage, Stage::InstallingReporter);
    let stage = until_directive();
    let before = stage.clone();
    let (stage, action) = stage.step(Event::ReporterInstalled);
    assert_eq!(action, None);
    assert_eq!(stage, before);
    let (stage, action) = stage.step(Event::CommandFinished(Ok(b"v14.0.0".to_vec())));
    assert_eq!(action, None);
    assert_eq!(stage, before);
}

#[test]
fn ended_run_stays_ended() {
    let stage = until_parsing(Some("/out"));
    let (stage, _) = stage.step(Event::ImportMapParsed(Ok(imports())));
    assert_eq!(stage, Stage::Compiling);
    let (stage, action) = stage.step(Event::ImportMapParsed(Ok(imports())));
    assert_eq!(action, None);
    assert_eq!(stage, Stage::Compiling);
    let (stage, _) = Stage::<Imports>::start();
    let (stage, _) = stage.step(Event::ReporterInstalled);
    let (stage, _) = stage.step(Event::CommandFinished(Ok(b"v1.0.0".to_vec())));
    assert_eq!(stage, Stage::Failed);
    let (stage, action) = stage.step(Event::CommandFinished(Ok(b"v14.0.0".to_vec())));
    assert_eq!(action, None);
    assert_eq!(stage, Stage::Failed);
    let (stage, action) = stage.step(Event::ReporterInstalled);
    assert_eq!(action, None);
    assert_eq!(stage, Stage::Failed);
}

#[test]
fn reporter_is_asked_for_once() {
    let mut stage = until_parsing(None);
    let events: Vec<Event<Imports>> = vec![
        Event::ReporterInstalled,
        Event::ImportMapParsed(Ok(imports())),
        Event::ReporterInstalled,
        Event::DirectoriesCreated(Ok(())),
        Event::PathCanonicalized(Ok("/p".to_string())),
        Event::ReporterInstalled,
    ];
    for event in events {
        let (next, action) = stage.step(event);
        assert_ne!(action, Some(Action::InstallReporter));
        stage = next;
    }
    assert_eq!(stage, Stage::Compiling);
}
