//! The orchestrator: what the process does next, decided from what has
//! happened so far. The program around it carries each action out and
//! reports back with an event.

use crate::error::{
    is_fault, CommandFailure, CommandFailureModel, DirectoryStep, ErrorModel, Malformed,
    MalformedModel, ToastError,
};
use crate::gate::{check_node_version, command_verdict, output_model};
use crate::report::text_model;
use crate::text::{decode_text, join_path, joined, utf8_error_text};
use vstd::prelude::*;
use vstd::utf8::{decode_utf8, valid_utf8};

verus! {

/// The directory of the package manager's executables, from the outcome of
/// asking the package manager: what it wrote, as it wrote it. Where it could
/// not be asked, or wrote no text, the failure is a fault.
pub open spec fn bin_dir(output: Result<Seq<u8>, Seq<char>>) -> Result<Seq<char>, ErrorModel> {
    match output {
        Err(cause) => Err(ErrorModel::Unrecoverable(CommandFailureModel::Execution { cause })),
        Ok(bytes) => if valid_utf8(bytes) {
            Ok(decode_utf8(bytes))
        } else {
            Err(
                ErrorModel::Unrecoverable(
                    CommandFailureModel::Decoding { cause: utf8_error_text(bytes) },
                ),
            )
        },
    }
}

/// What the outcome of the discovery stands for.
pub open spec fn discovery_model(outcome: Result<String, ToastError>) -> Result<
    Seq<char>,
    ErrorModel,
> {
    match outcome {
        Ok(dir) => Ok(dir@),
        Err(e) => Err(e@),
    }
}

/// Reads the directory of the package manager's executables off the outcome
/// of asking the package manager: its standard output, or the reason why it
/// could not be run. Every failure here is a fault: it is to end the
/// process at once, and nothing is tried again or put in its place.
pub fn get_npm_bin_dir(output: Result<Vec<u8>, String>) -> (r: Result<String, ToastError>)
    ensures
        discovery_model(r) == bin_dir(output_model(output)),
        r matches Err(e) ==> is_fault(e@),
{
    match output {
        Err(cause) => Err(ToastError::Unrecoverable(CommandFailure::Execution { cause })),
        Ok(bytes) => match decode_text(bytes) {
            Ok(dir) => Ok(dir),
            Err(cause) => Err(ToastError::Unrecoverable(CommandFailure::Decoding { cause })),
        },
    }
}

/// What the tool was told to do. There is one thing it can be told:
/// to compile incrementally.
#[derive(Debug, Clone, PartialEq, Eq)]
pub enum Directive {
    Incremental {
        debug: bool,
        input_dir: String,
        /// Where to write, if the default is not wanted.
        output_dir: Option<String>,
    },
}

/// What a [`Directive`] stands for.
pub enum DirectiveModel {
    Incremental { debug: bool, input_dir: Seq<char>, output_dir: Option<Seq<char>> },
}

impl View for Directive {
    type V = DirectiveModel;

    open spec fn view(&self) -> DirectiveModel {
        match self {
            Directive::Incremental { debug, input_dir, output_dir } => DirectiveModel::Incremental {
                debug: *debug,
                input_dir: input_dir@,
                output_dir: text_model(*output_dir),
            },
        }
    }
}

/// What the compilation engine is handed. `M` is the import map, which
/// only the engine looks into.
#[derive(Debug, Clone, PartialEq, Eq)]
pub struct CompileConfig<M> {
    pub debug: bool,
    pub project_root_dir: String,
    pub output_dir: String,
    pub npm_bin_dir: String,
    pub import_map: M,
}

/// What a [`CompileConfig`] stands for.
pub struct ConfigModel<M> {
    pub debug: bool,
    pub project_root_dir: Seq<char>,
    pub output_dir: Seq<char>,
    pub npm_bin_dir: Seq<char>,
    pub import_map: M,
}

impl<M> View for CompileConfig<M> {
    type V = ConfigModel<M>;

    open spec fn view(&self) -> ConfigModel<M> {
        ConfigModel {
            debug: self.debug,
            project_root_dir: self.project_root_dir@,
            output_dir: self.output_dir@,
            npm_bin_dir: self.npm_bin_dir@,
            import_map: self.import_map,
        }
    }
}

/// Where the import map of a project lies.
pub open spec fn import_map_path(input_dir: Seq<char>) -> Seq<char> {
    joined(input_dir, "public/web_modules/import-map.json"@)
}

/// Where a project's output goes if nothing else is asked for.
pub open spec fn default_output_dir(input_dir: Seq<char>) -> Seq<char> {
    joined(input_dir, "public"@)
}

/// How far the run has come, with what it has gathered on the way.
#[derive(Debug, Clone, PartialEq, Eq)]
pub enum Stage<M> {
    /// The crash reporter is being installed.
    InstallingReporter,
    /// The runtime is being asked for its version.
    CheckingRuntime,
    /// The package manager is being asked for its directory of executables.
    FindingPackageManager,
    /// The command line is being read.
    AwaitingDirective { npm_bin_dir: String },
    /// The import map's file is being read.
    ReadingImportMap { npm_bin_dir: String, directive: Directive },
    /// The import map is being parsed.
    ParsingImportMap { npm_bin_dir: String, directive: Directive, content: String },
    /// The default output directory is being created.
    CreatingOutputDir { npm_bin_dir: String, debug: bool, input_dir: String, import_map: M },
    /// The default output directory is being made canonical.
    ResolvingOutputDir { npm_bin_dir: String, debug: bool, input_dir: String, import_map: M },
    /// The engine has been handed its configuration. Nothing is left to
    /// decide.
    Compiling,
    /// The run has failed. Nothing is left to decide.
    Failed,
}

/// What a [`Stage`] stands for.
pub enum StageModel<M> {
    InstallingReporter,
    CheckingRuntime,
    FindingPackageManager,
    AwaitingDirective { npm_bin_dir: Seq<char> },
    ReadingImportMap { npm_bin_dir: Seq<char>, directive: DirectiveModel },
    ParsingImportMap { npm_bin_dir: Seq<char>, directive: DirectiveModel, content: Seq<char> },
    CreatingOutputDir { npm_bin_dir: Seq<char>, debug: bool, input_dir: Seq<char>, import_map: M },
    ResolvingOutputDir { npm_bin_dir: Seq<char>, debug: bool, input_dir: Seq<char>, import_map: M },
    Compiling,
    Failed,
}

impl<M> View for Stage<M> {
    type V = StageModel<M>;

    open spec fn view(&self) -> StageModel<M> {
        match self {
            Stage::InstallingReporter => StageModel::InstallingReporter,
            Stage::CheckingRuntime => StageModel::CheckingRuntime,
            Stage::FindingPackageManager => StageModel::FindingPackageManager,
            Stage::AwaitingDirective { npm_bin_dir } => StageModel::AwaitingDirective {
                npm_bin_dir: npm_bin_dir@,
            },
            Stage::ReadingImportMap { npm_bin_dir, directive } => StageModel::ReadingImportMap {
                npm_bin_dir: npm_bin_dir@,
                directive: directive@,
            },
            Stage::ParsingImportMap { npm_bin_dir, directive, content } =>
                StageModel::ParsingImportMap {
                npm_bin_dir: npm_bin_dir@,
                directive: directive@,
                content: content@,
            },
            Stage::CreatingOutputDir { npm_bin_dir, debug, input_dir, import_map } =>
                StageModel::CreatingOutputDir {
                npm_bin_dir: npm_bin_dir@,
                debug: *debug,
                input_dir: input_dir@,
                import_map: *import_map,
            },
            Stage::ResolvingOutputDir { npm_bin_dir, debug, input_dir, import_map } =>
                StageModel::ResolvingOutputDir {
                npm_bin_dir: npm_bin_dir@,
                debug: *debug,
                input_dir: input_dir@,
                import_map: *import_map,
            },
            Stage::Compiling => StageModel::Compiling,
            Stage::Failed => StageModel::Failed,
        }
    }
}

/// What has happened: the outcome of the action that was asked for last.
#[derive(Debug, PartialEq, Eq)]
pub enum Event<M> {
    /// The crash reporter is in place.
    ReporterInstalled,
    /// A command has written this to its standard output, or could not be
    /// run, for the reason given.
    CommandFinished(Result<Vec<u8>, String>),
    /// The command line asks for this.
    DirectiveGiven(Directive),
    /// A file held this text, or could not be read, for the reason given.
    FileRead(Result<String, String>),
    /// The import map's text parsed to this, or did not parse, for the
    /// reason given.
    ImportMapParsed(Result<M, String>),
    /// The directories are there, or could not be created, for the reason
    /// given.
    DirectoriesCreated(Result<(), String>),
    /// The path is this in canonical form, or has none, for the reason given.
    PathCanonicalized(Result<String, String>),
}

/// What an [`Event`] stands for.
pub enum EventModel<M> {
    ReporterInstalled,
    CommandFinished(Result<Seq<u8>, Seq<char>>),
    DirectiveGiven(DirectiveModel),
    FileRead(Result<Seq<char>, Seq<char>>),
    ImportMapParsed(Result<M, Seq<char>>),
    DirectoriesCreated(Result<(), Seq<char>>),
    PathCanonicalized(Result<Seq<char>, Seq<char>>),
}

impl<M> View for Event<M> {
    type V = EventModel<M>;

    open spec fn view(&self) -> EventModel<M> {
        match self {
            Event::ReporterInstalled => EventModel::ReporterInstalled,
            Event::CommandFinished(output) => EventModel::CommandFinished(output_model(*output)),
            Event::DirectiveGiven(directive) => EventModel::DirectiveGiven(directive@),
            Event::FileRead(Ok(content)) => EventModel::FileRead(Ok(content@)),
            Event::FileRead(Err(cause)) => EventModel::FileRead(Err(cause@)),
            Event::ImportMapParsed(Ok(import_map)) => EventModel::ImportMapParsed(Ok(*import_map)),
            Event::ImportMapParsed(Err(cause)) => EventModel::ImportMapParsed(Err(cause@)),
            Event::DirectoriesCreated(Ok(())) => EventModel::DirectoriesCreated(Ok(())),
            Event::DirectoriesCreated(Err(cause)) => EventModel::DirectoriesCreated(Err(cause@)),
            Event::PathCanonicalized(Ok(path)) => EventModel::PathCanonicalized(Ok(path@)),
            Event::PathCanonicalized(Err(cause)) => EventModel::PathCanonicalized(Err(cause@)),
        }
    }
}

/// What the program is to do next.
#[derive(Debug, Clone, PartialEq, Eq)]
pub enum Action<M> {
    /// Install the crash reporter.
    InstallReporter,
    /// Run `program` with the one argument and collect what it writes.
    RunCommand { program: String, argument: String },
    /// Read the command line.
    ReadDirective,
    /// Read the file at `path` as text.
    ReadFile { path: String },
    /// Parse `content` as an import map.
    ParseImportMap { content: String },
    /// Create the directory at `path` and every ancestor that is missing.
    CreateDirectories { path: String },
    /// Make `path` canonical.
    Canonicalize { path: String },
    /// Hand the configuration to the engine, and end with what it returns.
    Compile(CompileConfig<M>),
    /// End with this failure.
    Fail(ToastError),
}

/// What an [`Action`] stands for.
pub enum ActionModel<M> {
    InstallReporter,
    RunCommand { program: Seq<char>, argument: Seq<char> },
    ReadDirective,
    ReadFile { path: Seq<char> },
    ParseImportMap { content: Seq<char> },
    CreateDirectories { path: Seq<char> },
    Canonicalize { path: Seq<char> },
    Compile(ConfigModel<M>),
    Fail(ErrorModel),
}

impl<M> View for Action<M> {
    type V = ActionModel<M>;

    open spec fn view(&self) -> ActionModel<M> {
        match self {
            Action::InstallReporter => ActionModel::InstallReporter,
            Action::RunCommand { program, argument } => ActionModel::RunCommand {
                program: program@,
                argument: argument@,
            },
            Action::ReadDirective => ActionModel::ReadDirective,
            Action::ReadFile { path } => ActionModel::ReadFile { path: path@ },
            Action::ParseImportMap { content } => ActionModel::ParseImportMap { content: content@ },
            Action::CreateDirectories { path } => ActionModel::CreateDirectories { path: path@ },
            Action::Canonicalize { path } => ActionModel::Canonicalize { path: path@ },
            Action::Compile(config) => ActionModel::Compile(config@),
            Action::Fail(e) => ActionModel::Fail(e@),
        }
    }
}

/// What an optional action stands for.
pub open spec fn action_model<M>(action: Option<Action<M>>) -> Option<ActionModel<M>> {
    match action {
        Some(a) => Some(a@),
        None => None,
    }
}

/// The action that asks the runtime for its version.
pub open spec fn ask_runtime<M>() -> ActionModel<M> {
    ActionModel::RunCommand { program: "node"@, argument: "-v"@ }
}

/// The action that asks the package manager for its directory of
/// executables.
pub open spec fn ask_package_manager<M>() -> ActionModel<M> {
    ActionModel::RunCommand { program: "npm"@, argument: "bin"@ }
}

/// The run ends with the failure `e`.
pub open spec fn fails<M>(e: ErrorModel) -> (StageModel<M>, Option<ActionModel<M>>) {
    (StageModel::Failed, Some(ActionModel::Fail(e)))
}

/// The run ends with the engine, which is handed this configuration.
pub open spec fn compiles<M>(config: ConfigModel<M>) -> (StageModel<M>, Option<ActionModel<M>>) {
    (StageModel::Compiling, Some(ActionModel::Compile(config)))
}

/// What follows an event: the stage that the run is in after it, and what
/// the program is to do next.
///
/// The stages follow one another in a fixed order: the crash reporter, the
/// runtime's version, the package manager's directory, the command line,
/// the import map's file, its parsing, and the output directory, which is
/// the one asked for, as it was given, or else the canonical form of the
/// default one, created first. Each stage awaits the one event that answers
/// its action. A failure ends the run with its context. Any other event
/// changes nothing and asks for nothing.
pub open spec fn next<M>(stage: StageModel<M>, event: EventModel<M>) -> (
    StageModel<M>,
    Option<ActionModel<M>>,
) {
    match (stage, event) {
        (StageModel::InstallingReporter, EventModel::ReporterInstalled) => (
            StageModel::CheckingRuntime,
            Some(ask_runtime()),
        ),
        (StageModel::CheckingRuntime, EventModel::CommandFinished(output)) => match command_verdict(
            output,
        ) {
            Ok(()) => (StageModel::FindingPackageManager, Some(ask_package_manager())),
            Err(e) => fails(e),
        },
        (StageModel::FindingPackageManager, EventModel::CommandFinished(output)) => match bin_dir(
            output,
        ) {
            Ok(npm_bin_dir) => (
                StageModel::AwaitingDirective { npm_bin_dir },
                Some(ActionModel::ReadDirective),
            ),
            Err(e) => fails(e),
        },
        (StageModel::AwaitingDirective { npm_bin_dir }, EventModel::DirectiveGiven(directive)) => (
            StageModel::ReadingImportMap { npm_bin_dir, directive },
            Some(ActionModel::ReadFile { path: import_map_path(directive->input_dir) }),
        ),
        (StageModel::ReadingImportMap { npm_bin_dir, directive }, EventModel::FileRead(read)) =>
            match read {
            Ok(content) => (
                StageModel::ParsingImportMap { npm_bin_dir, directive, content },
                Some(ActionModel::ParseImportMap { content }),
            ),
            Err(cause) => fails(
                ErrorModel::ReadFailure { path: import_map_path(directive->input_dir), cause },
            ),
        },
        (
            StageModel::ParsingImportMap { npm_bin_dir, directive, content },
            EventModel::ImportMapParsed(parsed),
        ) => match parsed {
            Ok(import_map) => match directive->output_dir {
                Some(output_dir) => compiles(
                    ConfigModel {
                        debug: directive->debug,
                        project_root_dir: directive->input_dir,
                        output_dir,
                        npm_bin_dir,
                        import_map,
                    },
                ),
                None => (
                    StageModel::CreatingOutputDir {
                        npm_bin_dir,
                        debug: directive->debug,
                        input_dir: directive->input_dir,
                        import_map,
                    },
                    Some(
                        ActionModel::CreateDirectories {
                            path: default_output_dir(directive->input_dir),
                        },
                    ),
                ),
            },
            Err(cause) => fails(
                ErrorModel::ParseFailure(
                    MalformedModel::ImportMap {
                        content,
                        path: import_map_path(directive->input_dir),
                        cause,
                    },
                ),
            ),
        },
        (
            StageModel::CreatingOutputDir { npm_bin_dir, debug, input_dir, import_map },
            EventModel::DirectoriesCreated(created),
        ) => match created {
            Ok(()) => (
                StageModel::ResolvingOutputDir { npm_bin_dir, debug, input_dir, import_map },
                Some(ActionModel::Canonicalize { path: default_output_dir(input_dir) }),
            ),
            Err(cause) => fails(
                ErrorModel::DirectoryFailure {
                    step: DirectoryStep::Creation,
                    path: default_output_dir(input_dir),
                    cause,
                },
            ),
        },
        (
            StageModel::ResolvingOutputDir { npm_bin_dir, debug, input_dir, import_map },
            EventModel::PathCanonicalized(resolved),
        ) => match resolved {
            Ok(output_dir) => compiles(
                ConfigModel {
                    debug,
                    project_root_dir: input_dir,
                    output_dir,
                    npm_bin_dir,
                    import_map,
                },
            ),
            Err(cause) => fails(
                ErrorModel::DirectoryFailure {
                    step: DirectoryStep::Canonicalization,
                    path: default_output_dir(input_dir),
                    cause,
                },
            ),
        },
        _ => (stage, None),
    }
}

/// The run ends with the failure `e`.
fn fail<M>(e: ToastError) -> (r: (Stage<M>, Option<Action<M>>))
    ensures
        (r.0@, action_model(r.1)) == fails::<M>(e@),
{
    (Stage::Failed, Some(Action::Fail(e)))
}

/// Where the import map of a project lies.
pub fn import_map_file(input_dir: &str) -> (r: String)
    ensures
        r@ == import_map_path(input_dir@),
{
    join_path(input_dir, "public/web_modules/import-map.json")
}

/// Where a project's output goes if nothing else is asked for.
pub fn default_output(input_dir: &str) -> (r: String)
    ensures
        r@ == default_output_dir(input_dir@),
{
    join_path(input_dir, "public")
}

impl<M> Stage<M> {
    /// Where every run starts, and the first thing to do: install the crash
    /// reporter.
    pub fn start() -> (r: (Stage<M>, Action<M>))
        ensures
            r.0@ == StageModel::<M>::InstallingReporter,
            r.1@ == ActionModel::<M>::InstallReporter,
    {
        (Stage::InstallingReporter, Action::InstallReporter)
    }

    /// Takes an event in: the stage that follows, and what to do next.
    pub fn step(self, event: Event<M>) -> (r: (Stage<M>, Option<Action<M>>))
        ensures
            (r.0@, action_model(r.1)) == next(self@, event@),
    {
        match (self, event) {
            (Stage::InstallingReporter, Event::ReporterInstalled) => {
                let action = Action::RunCommand {
                    program: String::from_str("node"),
                    argument: String::from_str("-v"),
                };
                (Stage::CheckingRuntime, Some(action))
            },
            (Stage::CheckingRuntime, Event::CommandFinished(output)) => {
                match check_node_version(output) {
                    Ok(()) => {
                        let action = Action::RunCommand {
                            program: String::from_str("npm"),
                            argument: String::from_str("bin"),
                        };
                        (Stage::FindingPackageManager, Some(action))
                    },
                    Err(e) => fail(e),
                }
            },
            (Stage::FindingPackageManager, Event::CommandFinished(output)) => {
                match get_npm_bin_dir(output) {
                    Ok(npm_bin_dir) => (
                        Stage::AwaitingDirective { npm_bin_dir },
                        Some(Action::ReadDirective),
                    ),
                    Err(e) => fail(e),
                }
            },
            (Stage::AwaitingDirective { npm_bin_dir }, Event::DirectiveGiven(directive)) => {
                let path = match &directive {
                    Directive::Incremental { input_dir, .. } => import_map_file(input_dir.as_str()),
                };
                let action = Action::ReadFile { path };
                (Stage::ReadingImportMap { npm_bin_dir, directive }, Some(action))
            },
            (Stage::ReadingImportMap { npm_bin_dir, directive }, Event::FileRead(read)) => {
                match read {
                    Ok(content) => {
                        let action = Action::ParseImportMap { content: content.clone() };
                        (Stage::ParsingImportMap { npm_bin_dir, directive, content }, Some(action))
                    },
                    Err(cause) => {
                        let Directive::Incremental { input_dir, .. } = directive;
                        let path = import_map_file(input_dir.as_str());
                        fail(ToastError::ReadFailure { path, cause })
                    },
                }
            },
            (
                Stage::ParsingImportMap { npm_bin_dir, directive, content },
                Event::ImportMapParsed(parsed),
            ) => {
                let Directive::Incremental { debug, input_dir, output_dir } = directive;
                match parsed {
                    Ok(import_map) => match output_dir {
                        Some(output_dir) => {
                            let config = CompileConfig {
                                debug,
                                project_root_dir: input_dir,
                                output_dir,
                                npm_bin_dir,
                                import_map,
                            };
                            (Stage::Compiling, Some(Action::Compile(config)))
                        },
                        None => {
                            let path = default_output(input_dir.as_str());
                            let action = Action::CreateDirectories { path };
                            let stage = Stage::CreatingOutputDir {
                                npm_bin_dir,
                                debug,
                                input_dir,
                                import_map,
                            };
                            (stage, Some(action))
                        },
                    },
                    Err(cause) => {
                        let path = import_map_file(input_dir.as_str());
                        fail(
                            ToastError::ParseFailure(Malformed::ImportMap { content, path, cause }),
                        )
                    },
                }
            },
            (
                Stage::CreatingOutputDir { npm_bin_dir, debug, input_dir, import_map },
                Event::DirectoriesCreated(created),
            ) => {
                let path = default_output(input_dir.as_str());
                match created {
                    Ok(()) => (
                        Stage::ResolvingOutputDir { npm_bin_dir, debug, input_dir, import_map },
                        Some(Action::Canonicalize { path }),
                    ),
                    Err(cause) => fail(
                        ToastError::DirectoryFailure { step: DirectoryStep::Creation, path, cause },
                    ),
                }
            },
            (
                Stage::ResolvingOutputDir { npm_bin_dir, debug, input_dir, import_map },
                Event::PathCanonicalized(resolved),
            ) => {
                match resolved {
                    Ok(output_dir) => {
                        let config = CompileConfig {
                            debug,
                            project_root_dir: input_dir,
                            output_dir,
                            npm_bin_dir,
                            import_map,
                        };
                        (Stage::Compiling, Some(Action::Compile(config)))
                    },
                    Err(cause) => {
                        let path = default_output(input_dir.as_str());
                        fail(
                            ToastError::DirectoryFailure {
                                step: DirectoryStep::Canonicalization,
                                path,
                                cause,
                            },
                        )
                    },
                }
            },
            (stage, _) => (stage, None),
        }
    }
}

} // verus!
