//! The facts shown in the banner, and how each is resolved from what the
//! system returned.

use crate::text::{trim, trim_end, trim_trailing, trimmed};
use vstd::prelude::*;

verus! {

/// The file that holds the kernel release.
pub const KERNEL: &'static str = "/proc/sys/kernel/osrelease";

/// The file that holds the model of the system board.
pub const SYSTEM_BOARD: &'static str = "/sys/devices/virtual/dmi/id/board_name";

/// The environment variable that names the terminal program.
pub const TERMINAL_VARIABLE: &'static str = "TERM_PROGRAM";

/// The environment variable that names the window manager.
pub const DESKTOP_VARIABLE: &'static str = "XDG_CURRENT_DESKTOP";

/// The line drawn under the title.
pub const SEPARATOR: &'static str = "-----------";

/// What stands for a value that the system does not tell.
pub const UNKNOWN: &'static str = "Unknown";

/// What to do about an environment variable that is not set.
#[derive(Clone, Copy, Debug, PartialEq, Eq, Structural)]
pub enum Policy {
    /// Collection fails.
    Strict,
    /// The value is `"Unknown"`.
    Lenient,
}

impl Default for Policy {
    fn default() -> (policy: Policy)
        ensures
            policy == Policy::Lenient,
    {
        Policy::Lenient
    }
}

/// The kind of source that a fact's value comes from.
#[derive(Clone, Copy, Debug, PartialEq, Eq, Structural)]
pub enum FactSource {
    FileRead,
    EnvLookup,
    Subprocess,
    OsQuery,
    /// The value is a constant of the layout.
    Fixed,
}

/// What a row of the info column is about.
#[derive(Clone, Copy, Debug, PartialEq, Eq, Structural)]
pub enum Label {
    Title,
    Separator,
    Os,
    Kernel,
    Arch,
    System,
    Terminal,
    Wm,
}

/// A labelled piece of system information.
#[derive(Debug, PartialEq, Eq)]
pub struct Fact {
    pub label: Label,
    pub value: String,
    pub source: FactSource,
}

/// The mathematical content of a [`Fact`].
pub struct FactModel {
    pub label: Label,
    pub value: Seq<char>,
    pub source: FactSource,
}

impl View for Fact {
    type V = FactModel;

    open spec fn view(&self) -> FactModel {
        FactModel { label: self.label, value: self.value@, source: self.source }
    }
}

/// The contents of `facts`, in order.
pub open spec fn fact_models(facts: Seq<Fact>) -> Seq<FactModel> {
    Seq::new(facts.len(), |i: int| facts[i]@)
}

/// Why the facts could not be collected.
#[derive(Debug, PartialEq, Eq)]
pub enum CollectError {
    /// A file could not be read; `reason` is the text of the I/O error.
    UnreadableFile { reason: String },
    /// The environment variable `name` is not set, under the strict policy.
    MissingVariable { name: String },
    /// The current user has no name.
    MissingUser,
    /// The command `program` could not be run, or its output was not UTF-8.
    CommandFailed { program: String },
}

/// The mathematical content of a [`CollectError`].
pub enum ErrorModel {
    UnreadableFile { reason: Seq<char> },
    MissingVariable { name: Seq<char> },
    MissingUser,
    CommandFailed { program: Seq<char> },
}

impl View for CollectError {
    type V = ErrorModel;

    open spec fn view(&self) -> ErrorModel {
        match self {
            CollectError::UnreadableFile { reason } => ErrorModel::UnreadableFile {
                reason: reason@,
            },
            CollectError::MissingVariable { name } => ErrorModel::MissingVariable { name: name@ },
            CollectError::MissingUser => ErrorModel::MissingUser,
            CollectError::CommandFailed { program } => ErrorModel::CommandFailed {
                program: program@,
            },
        }
    }
}

/// The line that reports `error`.
pub open spec fn diagnostic(error: ErrorModel) -> Seq<char> {
    match error {
        ErrorModel::UnreadableFile { reason } => "Error reading file: "@ + reason,
        ErrorModel::MissingVariable { name } => "Missing environment variable: "@ + name,
        ErrorModel::MissingUser => "Unable to get username"@,
        ErrorModel::CommandFailed { program } => "Unable to run command: "@ + program,
    }
}

impl CollectError {
    /// The line that reports this error.
    pub fn message(&self) -> (line: String)
        ensures
            line@ == diagnostic(self@),
    {
        match self {
            CollectError::UnreadableFile { reason } => String::from_str(
                "Error reading file: ",
            ).concat(reason.as_str()),
            CollectError::MissingVariable { name } => String::from_str(
                "Missing environment variable: ",
            ).concat(name.as_str()),
            CollectError::MissingUser => String::from_str("Unable to get username"),
            CollectError::CommandFailed { program } => String::from_str(
                "Unable to run command: ",
            ).concat(program.as_str()),
        }
    }
}

/// The architecture to show: `"Unknown"` where the system reports none.
pub open spec fn arch_value(arch: Option<Seq<char>>) -> Seq<char> {
    match arch {
        Some(arch) => arch,
        None => UNKNOWN@,
    }
}

/// The value read from a file: its contents without the white space around
/// them. A file that could not be read is an error.
pub open spec fn file_value(contents: Result<Seq<char>, Seq<char>>) -> Result<
    Seq<char>,
    ErrorModel,
> {
    match contents {
        Ok(data) => Ok(trimmed(data)),
        Err(reason) => Err(ErrorModel::UnreadableFile { reason }),
    }
}

/// The value of the environment variable `name`. Where it is not set, the
/// lenient policy gives `"Unknown"` and the strict one an error.
pub open spec fn env_value(name: Seq<char>, value: Option<Seq<char>>, policy: Policy) -> Result<
    Seq<char>,
    ErrorModel,
> {
    match value {
        Some(value) => Ok(value),
        None => match policy {
            Policy::Lenient => Ok(UNKNOWN@),
            Policy::Strict => Err(ErrorModel::MissingVariable { name }),
        },
    }
}

/// The value that the command `program` gives: its output without the white
/// space at its end. A command that did not run, or whose output could not be
/// decoded, is an error.
pub open spec fn command_value(program: Seq<char>, output: Option<Seq<char>>) -> Result<
    Seq<char>,
    ErrorModel,
> {
    match output {
        Some(output) => Ok(trim_end(output)),
        None => Err(ErrorModel::CommandFailed { program }),
    }
}

/// The title: the user's name, `@` and the host's name. A user without a name
/// is an error.
pub open spec fn title_value(user: Option<Seq<char>>, host: Seq<char>) -> Result<
    Seq<char>,
    ErrorModel,
> {
    match user {
        Some(user) => Ok(user + seq!['@'] + host),
        None => Err(ErrorModel::MissingUser),
    }
}

/// Resolves the architecture that the system reports.
pub fn resolve_arch(arch: Option<&str>) -> (value: String)
    ensures
        value@ == arch_value(option_text(arch)),
{
    match arch {
        Some(arch) => String::from_str(arch),
        None => String::from_str(UNKNOWN),
    }
}

/// Resolves what reading a file gave: `Ok` with the contents, `Err` with the
/// text of the I/O error.
pub fn resolve_file(contents: Result<&str, &str>) -> (value: Result<String, CollectError>)
    ensures
        result_view(value) == file_value(result_text(contents)),
{
    match contents {
        Ok(data) => Ok(trim(data)),
        Err(reason) => Err(CollectError::UnreadableFile { reason: String::from_str(reason) }),
    }
}

/// Resolves what looking up the environment variable `name` gave.
pub fn resolve_env(name: &str, value: Option<&str>, policy: Policy) -> (resolved: Result<
    String,
    CollectError,
>)
    ensures
        result_view(resolved) == env_value(name@, option_text(value), policy),
{
    match value {
        Some(value) => Ok(String::from_str(value)),
        None => match policy {
            Policy::Lenient => Ok(String::from_str(UNKNOWN)),
            Policy::Strict => Err(CollectError::MissingVariable { name: String::from_str(name) }),
        },
    }
}

/// Resolves what running the command `program` gave: its decoded output, or
/// `None` where it did not run or its output was not UTF-8.
pub fn resolve_command(program: &str, output: Option<&str>) -> (value: Result<
    String,
    CollectError,
>)
    ensures
        result_view(value) == command_value(program@, option_text(output)),
{
    match output {
        Some(output) => Ok(trim_trailing(output)),
        None => Err(CollectError::CommandFailed { program: String::from_str(program) }),
    }
}

/// Builds the title from the name of the current user, if there is one, and
/// the name of the host.
pub fn get_title(user: Option<&str>, host: &str) -> (title: Result<String, CollectError>)
    ensures
        result_view(title) == title_value(option_text(user), host@),
{
    match user {
        Some(user) => {
            let title = String::from_str(user).concat("@").concat(host);
            proof {
                reveal_strlit("@");
                assert("@"@ =~= seq!['@']);
            }
            Ok(title)
        },
        None => Err(CollectError::MissingUser),
    }
}

/// What the system returned for each thing asked of it, before any rule is
/// applied.
#[derive(Debug, PartialEq, Eq)]
pub struct Readings {
    /// The name of the current user, if the user has one.
    pub user: Option<String>,
    /// The name of the host.
    pub host: String,
    /// The type of the operating system.
    pub os_type: String,
    /// The architecture, if the system reports it.
    pub arch: Option<String>,
    /// The contents of the kernel release file, or the text of the I/O error.
    pub kernel: Result<String, String>,
    /// The contents of the system board file, or the text of the I/O error.
    pub board: Result<String, String>,
    /// The terminal program variable, if it is set.
    pub terminal: Option<String>,
    /// The window manager variable, if it is set.
    pub desktop: Option<String>,
}

/// The mathematical content of [`Readings`].
pub struct ReadingsModel {
    pub user: Option<Seq<char>>,
    pub host: Seq<char>,
    pub os_type: Seq<char>,
    pub arch: Option<Seq<char>>,
    pub kernel: Result<Seq<char>, Seq<char>>,
    pub board: Result<Seq<char>, Seq<char>>,
    pub terminal: Option<Seq<char>>,
    pub desktop: Option<Seq<char>>,
}

impl View for Readings {
    type V = ReadingsModel;

    open spec fn view(&self) -> ReadingsModel {
        ReadingsModel {
            user: owned_option_text(self.user),
            host: self.host@,
            os_type: self.os_type@,
            arch: owned_option_text(self.arch),
            kernel: owned_result_text(self.kernel),
            board: owned_result_text(self.board),
            terminal: owned_option_text(self.terminal),
            desktop: owned_option_text(self.desktop),
        }
    }
}

/// The labels of the rows, from the top.
pub open spec fn row_order() -> Seq<Label> {
    seq![
        Label::Title,
        Label::Separator,
        Label::Os,
        Label::Kernel,
        Label::Arch,
        Label::System,
        Label::Terminal,
        Label::Wm,
    ]
}

/// The label of each fact, in order.
pub open spec fn labels(facts: Seq<FactModel>) -> Seq<Label> {
    Seq::new(facts.len(), |i: int| facts[i].label)
}

/// The fact with the given parts.
pub open spec fn fact(label: Label, value: Seq<char>, source: FactSource) -> FactModel {
    FactModel { label, value, source }
}

/// The facts in the order of their rows, given the value of each.
pub open spec fn fact_set(
    title: Seq<char>,
    os_type: Seq<char>,
    kernel: Seq<char>,
    arch: Seq<char>,
    system: Seq<char>,
    terminal: Seq<char>,
    wm: Seq<char>,
) -> Seq<FactModel> {
    seq![
        fact(Label::Title, title, FactSource::OsQuery),
        fact(Label::Separator, SEPARATOR@, FactSource::Fixed),
        fact(Label::Os, os_type, FactSource::OsQuery),
        fact(Label::Kernel, kernel, FactSource::FileRead),
        fact(Label::Arch, arch, FactSource::OsQuery),
        fact(Label::System, system, FactSource::FileRead),
        fact(Label::Terminal, terminal, FactSource::EnvLookup),
        fact(Label::Wm, wm, FactSource::EnvLookup),
    ]
}

/// The facts that `readings` resolve to under `policy`, or the first failure
/// in the order in which the facts are collected: the kernel release, the
/// title, the system board, the terminal, the window manager.
pub open spec fn collected(readings: ReadingsModel, policy: Policy) -> Result<
    Seq<FactModel>,
    ErrorModel,
> {
    match file_value(readings.kernel) {
        Err(error) => Err(error),
        Ok(kernel) => match title_value(readings.user, readings.host) {
            Err(error) => Err(error),
            Ok(title) => match file_value(readings.board) {
                Err(error) => Err(error),
                Ok(system) => match env_value(TERMINAL_VARIABLE@, readings.terminal, policy) {
                    Err(error) => Err(error),
                    Ok(terminal) => match env_value(DESKTOP_VARIABLE@, readings.desktop, policy) {
                        Err(error) => Err(error),
                        Ok(wm) => Ok(
                            fact_set(
                                title,
                                readings.os_type,
                                kernel,
                                arch_value(readings.arch),
                                system,
                                terminal,
                                wm,
                            ),
                        ),
                    },
                },
            },
        },
    }
}

/// The content of the outcome of a collection.
pub open spec fn outcome_view(outcome: Result<Vec<Fact>, CollectError>) -> Result<
    Seq<FactModel>,
    ErrorModel,
> {
    match outcome {
        Ok(facts) => Ok(fact_models(facts@)),
        Err(error) => Err(error@),
    }
}

fn as_text(value: &Option<String>) -> (text: Option<&str>)
    ensures
        option_text(text) == owned_option_text(*value),
{
    match value {
        Some(value) => Some(value.as_str()),
        None => None,
    }
}

fn as_texts(value: &Result<String, String>) -> (text: Result<&str, &str>)
    ensures
        result_text(text) == owned_result_text(*value),
{
    match value {
        Ok(value) => Ok(value.as_str()),
        Err(reason) => Err(reason.as_str()),
    }
}

/// Resolves every fact from `readings`, in the order of the rows. The first
/// fact that fails ends the collection: there is no partial result.
pub fn collect(readings: &Readings, policy: Policy) -> (outcome: Result<Vec<Fact>, CollectError>)
    ensures
        outcome_view(outcome) == collected(readings@, policy),
{
    let kernel = match resolve_file(as_texts(&readings.kernel)) {
        Ok(value) => value,
        Err(error) => {
            return Err(error);
        },
    };
    let title = match get_title(as_text(&readings.user), readings.host.as_str()) {
        Ok(value) => value,
        Err(error) => {
            return Err(error);
        },
    };
    let system = match resolve_file(as_texts(&readings.board)) {
        Ok(value) => value,
        Err(error) => {
            return Err(error);
        },
    };
    let terminal = match resolve_env(TERMINAL_VARIABLE, as_text(&readings.terminal), policy) {
        Ok(value) => value,
        Err(error) => {
            return Err(error);
        },
    };
    let wm = match resolve_env(DESKTOP_VARIABLE, as_text(&readings.desktop), policy) {
        Ok(value) => value,
        Err(error) => {
            return Err(error);
        },
    };
    let arch = resolve_arch(as_text(&readings.arch));
    let os_type = readings.os_type.clone();
    let mut facts: Vec<Fact> = Vec::new();
    facts.push(Fact { label: Label::Title, value: title, source: FactSource::OsQuery });
    facts.push(
        Fact {
            label: Label::Separator,
            value: String::from_str(SEPARATOR),
            source: FactSource::Fixed,
        },
    );
    facts.push(Fact { label: Label::Os, value: os_type, source: FactSource::OsQuery });
    facts.push(Fact { label: Label::Kernel, value: kernel, source: FactSource::FileRead });
    facts.push(Fact { label: Label::Arch, value: arch, source: FactSource::OsQuery });
    facts.push(Fact { label: Label::System, value: system, source: FactSource::FileRead });
    facts.push(Fact { label: Label::Terminal, value: terminal, source: FactSource::EnvLookup });
    facts.push(Fact { label: Label::Wm, value: wm, source: FactSource::EnvLookup });
    assert(fact_models(facts@) =~= collected(readings@, policy)->Ok_0);
    Ok(facts)
}

/// The text of an optional owned string.
pub open spec fn owned_option_text(value: Option<String>) -> Option<Seq<char>> {
    match value {
        Some(value) => Some(value@),
        None => None,
    }
}

/// The texts of a result made of two owned strings.
pub open spec fn owned_result_text(value: Result<String, String>) -> Result<
    Seq<char>,
    Seq<char>,
> {
    match value {
        Ok(value) => Ok(value@),
        Err(reason) => Err(reason@),
    }
}

/// The text of an optional string.
pub open spec fn option_text(value: Option<&str>) -> Option<Seq<char>> {
    match value {
        Some(value) => Some(value@),
        None => None,
    }
}

/// The texts of a result made of two strings.
pub open spec fn result_text(value: Result<&str, &str>) -> Result<Seq<char>, Seq<char>> {
    match value {
        Ok(value) => Ok(value@),
        Err(reason) => Err(reason@),
    }
}

/// The content of a resolved value.
pub open spec fn result_view(value: Result<String, CollectError>) -> Result<Seq<char>, ErrorModel> {
    match value {
        Ok(value) => Ok(value@),
        Err(error) => Err(error@),
    }
}

} // verus!
