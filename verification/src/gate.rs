//! The version gate: a runtime older than the minimum is turned away before
//! any work starts.

use crate::error::{
    is_fault, CommandFailure, CommandFailureModel, ErrorModel, Malformed, MalformedModel,
    ToastError,
};
use crate::text::{decode_text, strip_leading_v, utf8_error_text, without_leading_v};
use crate::version::{precedes, release, same_precedence, Identifier, Version, VersionModel};
use crate::version_order::{lemma_precedence_is_strict, lemma_precedence_is_total};
use vstd::prelude::*;
use vstd::utf8::{decode_utf8, valid_utf8};

verus! {

/// The version that `semver::Version::parse` reads from `text`, or nothing
/// where it refuses the text.
pub uninterp spec fn semver_parse(text: Seq<char>) -> Option<VersionModel>;

/// What an optional version stands for.
pub open spec fn parsed_model(parsed: Option<Version>) -> Option<VersionModel> {
    match parsed {
        Some(v) => Some(v@),
        None => None,
    }
}

/// What the outcome of the version gate stands for.
pub open spec fn outcome_model(outcome: Result<(), ToastError>) -> Result<(), ErrorModel> {
    match outcome {
        Ok(()) => Ok(()),
        Err(e) => Err(e@),
    }
}

/// `semver::Version::parse`: reads `text` as a semantic version. The result
/// is the version that the parser finds, field for field, or nothing where
/// the parser returns an error.
#[verifier::external_body]
fn parse_semver(text: &str) -> (r: Option<Version>)
    ensures
        parsed_model(r) == semver_parse(text@),
{
    let part = |id: semver::Identifier| match id {
        semver::Identifier::Numeric(n) => Identifier::Numeric(n),
        semver::Identifier::AlphaNumeric(s) => Identifier::AlphaNumeric(s),
    };
    let v = semver::Version::parse(text).ok()?;
    let pre = v.pre.into_iter().map(part).collect();
    let build = v.build.into_iter().map(part).collect();
    Some(Version { major: v.major, minor: v.minor, patch: v.patch, pre, build })
}

/// The oldest runtime that is accepted: 14.0.0.
pub open spec fn minimum() -> VersionModel {
    release(14, 0, 0)
}

/// The oldest runtime that is accepted.
pub fn minimum_version() -> (v: Version)
    ensures
        v@ == minimum(),
{
    Version::new(14, 0, 0)
}

/// What the version gate decides on the text `raw` once the parser has answered:
/// text that did not parse is reported with both of its forms, a version
/// that precedes the minimum is reported with the minimum, and any other
/// version passes.
pub open spec fn verdict(raw: Seq<char>, parsed: Option<VersionModel>) -> Result<(), ErrorModel> {
    match parsed {
        None => Err(
            ErrorModel::ParseFailure(
                MalformedModel::Version { trimmed: without_leading_v(raw), raw },
            ),
        ),
        Some(found) => if precedes(found, minimum()) {
            Err(ErrorModel::IncompatibleVersion { found, required: minimum() })
        } else {
            Ok(())
        },
    }
}

/// What the version gate decides on the text `raw`: one leading `v` is taken off,
/// the rest goes to the parser, and [`verdict`] says what follows.
pub open spec fn text_verdict(raw: Seq<char>) -> Result<(), ErrorModel> {
    verdict(raw, semver_parse(without_leading_v(raw)))
}

/// What the version gate decides on the outcome of the runtime's version command:
/// its standard output, or the reason why it could not be run.
pub open spec fn command_verdict(output: Result<Seq<u8>, Seq<char>>) -> Result<(), ErrorModel> {
    match output {
        Err(cause) => Err(ErrorModel::ExecutionFailure(CommandFailureModel::Execution { cause })),
        Ok(bytes) => if valid_utf8(bytes) {
            text_verdict(decode_utf8(bytes))
        } else {
            Err(
                ErrorModel::ExecutionFailure(
                    CommandFailureModel::Decoding { cause: utf8_error_text(bytes) },
                ),
            )
        },
    }
}

/// What the outcome of a command stands for.
pub open spec fn output_model(output: Result<Vec<u8>, String>) -> Result<Seq<u8>, Seq<char>> {
    match output {
        Ok(bytes) => Ok(bytes@),
        Err(cause) => Err(cause@),
    }
}

/// Decides on the runtime's version text `raw`, given what the parser made
/// of it.
pub fn judge_version(raw: &str, parsed: Option<Version>) -> (r: Result<(), ToastError>)
    ensures
        outcome_model(r) == verdict(raw@, parsed_model(parsed)),
{
    match parsed {
        None => {
            let trimmed = String::from_str(strip_leading_v(raw));
            let raw = String::from_str(raw);
            Err(ToastError::ParseFailure(Malformed::Version { trimmed, raw }))
        },
        Some(found) => {
            let required = minimum_version();
            if found.precedes(&required) {
                Err(ToastError::IncompatibleVersion { found, required })
            } else {
                Ok(())
            }
        },
    }
}

/// Decides on the runtime's version text, as the runtime wrote it.
pub fn check_version_text(raw: &str) -> (r: Result<(), ToastError>)
    ensures
        outcome_model(r) == text_verdict(raw@),
        semver_parse(without_leading_v(raw@)) matches Some(found) ==> (r is Ok <==> !precedes(
            found,
            minimum(),
        )),
{
    let parsed = parse_semver(strip_leading_v(raw));
    judge_version(raw, parsed)
}

/// Decides whether the run may go on, from the outcome of the runtime's
/// version command: its standard output, or the reason why it could not be
/// run.
pub fn check_node_version(output: Result<Vec<u8>, String>) -> (r: Result<(), ToastError>)
    ensures
        outcome_model(r) == command_verdict(output_model(output)),
        output matches Ok(bytes) ==> (valid_utf8(bytes@) ==> (semver_parse(
            without_leading_v(decode_utf8(bytes@)),
        ) matches Some(found) ==> (r is Ok <==> !precedes(found, minimum())))),
        r matches Err(e) ==> !is_fault(e@),
{
    match output {
        Err(cause) => Err(ToastError::ExecutionFailure(CommandFailure::Execution { cause })),
        Ok(bytes) => match decode_text(bytes) {
            Err(cause) => Err(ToastError::ExecutionFailure(CommandFailure::Decoding { cause })),
            Ok(raw) => check_version_text(raw.as_str()),
        },
    }
}

/// A version precedes the minimum exactly if its major number is below 14,
/// or it is a pre-release of 14.0.0 itself.
pub proof fn lemma_below_minimum(v: VersionModel)
    ensures
        precedes(v, minimum()) <==> v.major < 14 || (v.major == 14 && v.minor == 0 && v.patch == 0
            && v.pre.len() > 0),
{
}

/// On every version text that parses, the version gate passes exactly if
/// the version is at least the minimum: it does not precede the minimum,
/// which is to say that it has the minimum's precedence or the minimum
/// precedes it.
pub proof fn lemma_gate_passes_from_minimum_on(raw: Seq<char>)
    ensures
        semver_parse(without_leading_v(raw)) matches Some(found) ==> {
            &&& text_verdict(raw) is Ok <==> !precedes(found, minimum())
            &&& text_verdict(raw) is Ok <==> same_precedence(found, minimum()) || precedes(
                minimum(),
                found,
            )
        },
{
    match semver_parse(without_leading_v(raw)) {
        Some(found) => {
            lemma_precedence_is_strict(found, minimum());
            lemma_precedence_is_total(found, minimum());
        },
        None => {},
    }
}

} // verus!
