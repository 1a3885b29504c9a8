use toast::error::{CommandFailure, Malformed, ToastError};
use toast::gate::{check_node_version, check_version_text, judge_version, minimum_version};
use toast::version::{Identifier, Version};

fn rc1_of_minimum() -> Version {
    Version {
        major: 14,
        minor: 0,
        patch: 0,
        pre: vec![Identifier::AlphaNumeric("rc".to_string()), Identifier::Numeric(1)],
        build: vec![],
    }
}

#[test]
fn minimum_is_fourteen() {
    assert_eq!(minimum_version(), Version::new(14, 0, 0));
    assert_eq!(minimum_version().to_text(), "14.0.0");
}

#[test]
fn minimum_itself_passes() {
    assert_eq!(check_version_text("v14.0.0"), Ok(()));
}

#[test]
fn later_versions_pass() {
    assert_eq!(check_version_text("v14.0.1"), Ok(()));
    assert_eq!(check_version_text("v14.1.0"), Ok(()));
    assert_eq!(check_version_text("v15.0.0"), Ok(()));
    assert_eq!(check_version_text("v22.11.0"), Ok(()));
    assert_eq!(check_version_text("v14.0.1-beta"), Ok(()));
    assert_eq!(check_version_text("v15.0.0-nightly.20200101"), Ok(()));
}

#[test]
fn build_metadata_plays_no_part() {
    assert_eq!(check_version_text("v14.0.0+build.5"), Ok(()));
    assert!(check_version_text("v13.9.9+build.5").is_err());
}

#[test]
fn older_release_is_incompatible() {
    assert_eq!(
        check_version_text("v13.9.9"),
        Err(ToastError::IncompatibleVersion {
            found: Version::new(13, 9, 9),
            required: Version::new(14, 0, 0)
        })
    );
}

#[test]
fn pre_release_of_minimum_is_incompatible() {
    assert_eq!(
        check_version_text("v14.0.0-rc.1"),
        Err(ToastError::IncompatibleVersion { found: rc1_of_minimum(), required: minimum_version() })
    );
}

#[test]
fn incompatible_message_names_both_versions() {
    let e = check_version_text("v14.0.0-rc.1").unwrap_err();
    assert_eq!(
        e.message(),
        "node version 14.0.0-rc.1 doesn't meet the minimum required version 14.0.0"
    );
    assert_eq!(e.cause(), None);
    let e = check_version_text("v8.17.0").unwrap_err();
    assert_eq!(
        e.message(),
        "node version 8.17.0 doesn't meet the minimum required version 14.0.0"
    );
}

#[test]
fn unparseable_text_carries_both_forms() {
    let expected = ToastError::ParseFailure(Malformed::Version {
        trimmed: "abc".to_string(),
        raw: "vabc".to_string(),
    });
    assert_eq!(check_version_text("vabc"), Err(expected.clone()));
    assert_eq!(
        expected.message(),
        "Couldn't parse node version from trimmed version `abc`, original string is `vabc`"
    );
    assert_eq!(expected.causal_chain(), vec![expected.message()]);
}

#[test]
fn one_leading_v_is_taken_and_no_more() {
    assert_eq!(
        check_version_text("vv14.0.0"),
        Err(ToastError::ParseFailure(Malformed::Version {
            trimmed: "v14.0.0".to_string(),
            raw: "vv14.0.0".to_string(),
        }))
    );
}

#[test]
fn text_without_a_v_is_parsed_as_it_is() {
    assert_eq!(check_version_text("14.2.0"), Ok(()));
    assert_eq!(
        check_version_text("12.0.0"),
        Err(ToastError::IncompatibleVersion {
            found: Version::new(12, 0, 0),
            required: Version::new(14, 0, 0)
        })
    );
}

#[test]
fn empty_and_partial_text_do_not_parse() {
    for raw in ["", "v", "v14", "v14.0", "v14.0.0.0", "v14.0.x", "version 14"] {
        let trimmed = raw.strip_prefix('v').unwrap_or(raw);
        assert_eq!(
            check_version_text(raw),
            Err(ToastError::ParseFailure(Malformed::Version {
                trimmed: trimmed.to_string(),
                raw: raw.to_string(),
            })),
            "{:?}",
            raw
        );
    }
}

#[test]
fn output_of_the_runtime_passes_with_its_line_end() {
    assert_eq!(check_node_version(Ok(b"v14.15.1\n".to_vec())), Ok(()));
    assert_eq!(check_node_version(Ok(b"v14.0.0".to_vec())), Ok(()));
}

#[test]
fn output_of_an_old_runtime_fails() {
    assert_eq!(
        check_node_version(Ok(b"v12.18.3\n".to_vec())),
        Err(ToastError::IncompatibleVersion {
            found: Version::new(12, 18, 3),
            required: Version::new(14, 0, 0)
        })
    );
}

#[test]
fn command_that_did_not_run_is_an_execution_failure() {
    let r = check_node_version(Err("No such file or directory".to_string()));
    let expected = ToastError::ExecutionFailure(CommandFailure::Execution {
        cause: "No such file or directory".to_string(),
    });
    assert_eq!(r, Err(expected.clone()));
    assert_eq!(expected.message(), "Failed to execute `node -v` Command and collect output");
    assert_eq!(expected.cause(), Some("No such file or directory".to_string()));
    assert_eq!(
        expected.causal_chain(),
        vec![
            "Failed to execute `node -v` Command and collect output".to_string(),
            "No such file or directory".to_string()
        ]
    );
}

#[test]
fn output_that_is_not_text_is_an_execution_failure() {
    let bytes = vec![b'v', b'1', 0xff, 0xfe];
    let said = String::from_utf8(bytes.clone()).unwrap_err().to_string();
    assert_eq!(said, "invalid utf-8 sequence of 1 bytes from index 2");
    let r = check_node_version(Ok(bytes));
    let expected = ToastError::ExecutionFailure(CommandFailure::Decoding { cause: said.clone() });
    assert_eq!(r, Err(expected.clone()));
    assert_eq!(expected.message(), "Failed to create utf8 string from node -v Command output");
    assert_eq!(expected.cause(), Some(said.clone()));
    assert_eq!(expected.causal_chain(), vec![expected.message(), said]);
    assert!(!expected.is_fault());
}

#[test]
fn no_failure_of_the_version_gate_is_a_fault() {
    assert!(!check_node_version(Err("gone".to_string())).unwrap_err().is_fault());
    assert!(!check_node_version(Ok(vec![0xff])).unwrap_err().is_fault());
    assert!(!check_version_text("vabc").unwrap_err().is_fault());
    assert!(!check_version_text("v13.9.9").unwrap_err().is_fault());
}

#[test]
fn judge_takes_the_parsers_answer() {
    assert_eq!(judge_version("v15.1.0", Some(Version::new(15, 1, 0))), Ok(()));
    assert_eq!(judge_version("v14.0.0", Some(Version::new(14, 0, 0))), Ok(()));
    assert_eq!(
        judge_version("v14.0.0-rc.1", Some(rc1_of_minimum())),
        Err(ToastError::IncompatibleVersion { found: rc1_of_minimum(), required: minimum_version() })
    );
    assert_eq!(
        judge_version("vnope", None),
        Err(ToastError::ParseFailure(Malformed::Version {
            trimmed: "nope".to_string(),
            raw: "vnope".to_string(),
        }))
    );
}

#[test]
fn parsed_version_holds_every_field() {
    let e = check_version_text("v1.2.3-alpha.7.x-y+exp.sha.5114f85").unwrap_err();
    let found = Version {
        major: 1,
        minor: 2,
        patch: 3,
        pre: vec![
            Identifier::AlphaNumeric("alpha".to_string()),
            Identifier::Numeric(7),
            Identifier::AlphaNumeric("x-y".to_string()),
        ],
        build: vec![
            Identifier::AlphaNumeric("exp".to_string()),
            Identifier::AlphaNumeric("sha".to_string()),
            Identifier::AlphaNumeric("5114f85".to_string()),
        ],
    };
    assert_eq!(e, ToastError::IncompatibleVersion { found, required: minimum_version() });
}
