//! One run of the batch: the stage it has reached, the action that the
//! caller has to perform next, and the step that takes in what happened.

use crate::command::{
    checks_tool, conversion_arguments, output_path, result_dir, tool_path, Parameter, Parameters,
};
use crate::messages::{
    command_line, confirm_prompt, directory_line, directory_prompt, failed_line, files_lines,
    finished_line, no_files_line, processing_line, retry_line, tool_missing_line,
    unreadable_line,
};
use crate::platform::Platform;
use crate::prompt::{confirm, input_prompt, read_input_with_default};
use crate::scan::{entry_views, get_mp3_files, DirEntry};
use crate::model::{
    action_of, after_parameters, conversion_from, next_of, no_parameters, notice_of,
    parameter_after, saying, silence, with_parameter, ActionView, EventView, NoticeView,
    StageView,
};
use crate::text::{texts, trim};
use vstd::prelude::*;
use vstd::string::*;

verus! {

/// How far a run has come.
#[derive(Clone, Debug, PartialEq, Eq)]
pub enum Stage {
    Directory,
    ProgramDirectory,
    Listing { directory: String },
    Confirmation { files: Vec<String> },
    Parameter { files: Vec<String>, which: Parameter, parameters: Parameters },
    ToolDirectory { files: Vec<String>, parameters: Parameters },
    ToolCheck { files: Vec<String>, parameters: Parameters, tool: String },
    ResultDirectory { files: Vec<String>, parameters: Parameters, tool: String, next: usize },
    Conversion { files: Vec<String>, parameters: Parameters, tool: String, next: usize },
    Finished,
}

impl View for Stage {
    type V = StageView;

    open spec fn view(&self) -> StageView {
        match *self {
            Stage::Directory => StageView::Directory,
            Stage::ProgramDirectory => StageView::ProgramDirectory,
            Stage::Listing { directory } => StageView::Listing { directory: directory@ },
            Stage::Confirmation { files } => StageView::Confirmation { files: texts(files@) },
            Stage::Parameter { files, which, parameters } => StageView::Parameter {
                files: texts(files@),
                which,
                parameters: parameters@,
            },
            Stage::ToolDirectory { files, parameters } => StageView::ToolDirectory {
                files: texts(files@),
                parameters: parameters@,
            },
            Stage::ToolCheck { files, parameters, tool } => StageView::ToolCheck {
                files: texts(files@),
                parameters: parameters@,
                tool: tool@,
            },
            Stage::ResultDirectory { files, parameters, tool, next } => StageView::ResultDirectory {
                files: texts(files@),
                parameters: parameters@,
                tool: tool@,
                next: next as nat,
            },
            Stage::Conversion { files, parameters, tool, next } => StageView::Conversion {
                files: texts(files@),
                parameters: parameters@,
                tool: tool@,
                next: next as nat,
            },
            Stage::Finished => StageView::Finished,
        }
    }
}

/// What happened since the last action was named.
#[derive(Clone, Debug, PartialEq, Eq)]
pub enum Event {
    Line(String),
    ProgramDirectory(String),
    Listing(Option<Vec<DirEntry>>),
    ToolFound(bool),
    DirectoryCreated,
    ToolExited(bool),
}

impl View for Event {
    type V = EventView;

    open spec fn view(&self) -> EventView {
        match *self {
            Event::Line(line) => EventView::Line(line@),
            Event::ProgramDirectory(directory) => EventView::ProgramDirectory(directory@),
            Event::Listing(listing) => EventView::Listing(
                match listing {
                    Some(entries) => Some(entry_views(entries@)),
                    None => None,
                },
            ),
            Event::ToolFound(found) => EventView::ToolFound(found),
            Event::DirectoryCreated => EventView::DirectoryCreated,
            Event::ToolExited(success) => EventView::ToolExited(success),
        }
    }
}

/// What the caller has to do next.
#[derive(Clone, Debug, PartialEq, Eq)]
pub enum Action {
    ReadLine { prompt: String },
    FindProgramDirectory,
    ListDirectory { path: String },
    CheckTool { path: String },
    CreateDirectory { path: String },
    RunTool { program: String, arguments: Vec<String> },
    Finish,
}

impl View for Action {
    type V = ActionView;

    open spec fn view(&self) -> ActionView {
        match *self {
            Action::ReadLine { prompt } => ActionView::ReadLine { prompt: prompt@ },
            Action::FindProgramDirectory => ActionView::FindProgramDirectory,
            Action::ListDirectory { path } => ActionView::ListDirectory { path: path@ },
            Action::CheckTool { path } => ActionView::CheckTool { path: path@ },
            Action::CreateDirectory { path } => ActionView::CreateDirectory { path: path@ },
            Action::RunTool { program, arguments } => ActionView::RunTool {
                program: program@,
                arguments: texts(arguments@),
            },
            Action::Finish => ActionView::Finish,
        }
    }
}

/// What the caller has to show after an event.
#[derive(Clone, Debug, PartialEq, Eq)]
pub struct Notice {
    /// The lines for the standard output, in their order.
    pub lines: Vec<String>,
    /// The line for the standard error, shown after the others.
    pub error: Option<String>,
}

impl View for Notice {
    type V = NoticeView;

    open spec fn view(&self) -> NoticeView {
        NoticeView {
            lines: texts(self.lines@),
            error: match self.error {
                Some(line) => Some(line@),
                None => None,
            },
        }
    }
}

/// A run of the batch on one platform.
#[derive(Clone, Debug, PartialEq, Eq)]
pub struct Session {
    pub platform: Platform,
    pub stage: Stage,
}

/// The notice without a line.
fn silent() -> (notice: Notice)
    ensures
        notice@ == silence(),
{
    let notice = Notice { lines: Vec::new(), error: None };
    assert(texts(notice.lines@) =~= Seq::empty());
    notice
}

/// The notice of one line for the standard output.
fn one_line(line: String) -> (notice: Notice)
    ensures
        notice@ == saying(seq![line@]),
{
    let mut lines: Vec<String> = Vec::new();
    lines.push(line);
    assert(texts(lines@) =~= seq![line@]);
    Notice { lines, error: None }
}

/// The notice of two lines for the standard output.
fn two_lines(first: String, second: String) -> (notice: Notice)
    ensures
        notice@ == saying(seq![first@, second@]),
{
    let mut lines: Vec<String> = Vec::new();
    lines.push(first);
    lines.push(second);
    assert(texts(lines@) =~= seq![first@, second@]);
    Notice { lines, error: None }
}

/// The parameters before any was typed.
fn blank_parameters() -> (parameters: Parameters)
    ensures
        parameters@ == no_parameters(),
{
    Parameters {
        loudness: String::new(),
        true_peak: String::new(),
        loudness_range: String::new(),
        quality: String::new(),
    }
}

/// `parameters` with `value` for the parameter `which`.
fn set_parameter(parameters: Parameters, which: Parameter, value: String) -> (known: Parameters)
    ensures
        known@ == with_parameter(parameters@, which, value@),
{
    let Parameters { loudness, true_peak, loudness_range, quality } = parameters;
    match which {
        Parameter::Loudness => Parameters { loudness: value, true_peak, loudness_range, quality },
        Parameter::TruePeak => Parameters { loudness, true_peak: value, loudness_range, quality },
        Parameter::LoudnessRange => Parameters {
            loudness,
            true_peak,
            loudness_range: value,
            quality,
        },
        Parameter::Quality => Parameters { loudness, true_peak, loudness_range, quality: value },
    }
}

/// The parameter that is asked for after `which`, if one is left.
fn following(which: Parameter) -> (r: Option<Parameter>)
    ensures
        r == parameter_after(which),
{
    match which {
        Parameter::Loudness => Some(Parameter::TruePeak),
        Parameter::TruePeak => Some(Parameter::LoudnessRange),
        Parameter::LoudnessRange => Some(Parameter::Quality),
        Parameter::Quality => None,
    }
}

/// The stage that converts the file `next`, or the end where no such file is left.
fn convert_from(files: Vec<String>, parameters: Parameters, tool: String, next: usize) -> (stage:
    Stage)
    ensures
        stage@ == conversion_from(texts(files@), parameters@, tool@, next as nat),
{
    if next < files.len() {
        Stage::ResultDirectory { files, parameters, tool, next }
    } else {
        Stage::Finished
    }
}

/// The stage that follows the last parameter.
fn parameters_known(platform: Platform, files: Vec<String>, parameters: Parameters) -> (stage:
    Stage)
    ensures
        stage@ == after_parameters(platform, texts(files@), parameters@),
{
    if checks_tool(platform) {
        Stage::ToolDirectory { files, parameters }
    } else {
        let tool = tool_path(platform, "");
        proof {
            reveal_strlit("");
            assert(""@ =~= Seq::<char>::empty());
        }
        convert_from(files, parameters, tool, 0)
    }
}

impl Session {
    /// The run before anything has happened.
    pub fn new(platform: Platform) -> (session: Session)
        ensures
            session.platform == platform,
            session.stage@ == StageView::Directory,
    {
        Session { platform, stage: Stage::Directory }
    }

    /// Whether nothing is left to do.
    pub fn is_finished(&self) -> (r: bool)
        ensures
            r == (action_of(self.platform, self.stage@) == ActionView::Finish),
    {
        match &self.stage {
            Stage::Finished => true,
            Stage::ResultDirectory { files, parameters, tool, next } => *next >= files.len(),
            Stage::Conversion { files, parameters, tool, next } => *next >= files.len(),
            _ => false,
        }
    }

    /// What the caller has to do next.
    pub fn action(&self) -> (action: Action)
        ensures
            action@ == action_of(self.platform, self.stage@),
    {
        match &self.stage {
            Stage::Directory => Action::ReadLine { prompt: directory_prompt() },
            Stage::ProgramDirectory => Action::FindProgramDirectory,
            Stage::Listing { directory } => Action::ListDirectory { path: directory.clone() },
            Stage::Confirmation { files } => Action::ReadLine { prompt: confirm_prompt() },
            Stage::Parameter { files, which, parameters } => Action::ReadLine {
                prompt: input_prompt(which.label(), which.default_value()),
            },
            Stage::ToolDirectory { files, parameters } => Action::FindProgramDirectory,
            Stage::ToolCheck { files, parameters, tool } => Action::CheckTool { path: tool.clone() },
            Stage::ResultDirectory { files, parameters, tool, next } => {
                if *next < files.len() {
                    Action::CreateDirectory {
                        path: result_dir(self.platform, files[*next].as_str()),
                    }
                } else {
                    Action::Finish
                }
            },
            Stage::Conversion { files, parameters, tool, next } => {
                if *next < files.len() {
                    Action::RunTool {
                        program: tool.clone(),
                        arguments: conversion_arguments(
                            self.platform,
                            files[*next].as_str(),
                            parameters,
                        ),
                    }
                } else {
                    Action::Finish
                }
            },
            Stage::Finished => Action::Finish,
        }
    }

    /// Takes in what happened: gives the run as it stands after the event,
    /// and what has to be shown.
    pub fn advance(self, event: Event) -> (result: (Session, Notice))
        ensures
            result.0.platform == self.platform,
            result.0.stage@ == next_of(self.platform, self.stage@, event@),
            result.1@ == notice_of(self.platform, self.stage@, event@),
    {
        let platform = self.platform;
        let (stage, notice) = match (self.stage, event) {
            (Stage::Directory, Event::Line(line)) => {
                let typed = trim(line.as_str());
                if typed.unicode_len() == 0 {
                    (Stage::ProgramDirectory, silent())
                } else {
                    (
                        Stage::Listing { directory: String::from_str(typed) },
                        one_line(directory_line(typed)),
                    )
                }
            },
            (Stage::ProgramDirectory, Event::ProgramDirectory(directory)) => {
                let notice = one_line(directory_line(directory.as_str()));
                (Stage::Listing { directory }, notice)
            },
            (Stage::Listing { directory }, Event::Listing(listing)) => {
                match listing {
                    Some(entries) => {
                        let files = get_mp3_files(platform, &entries);
                        let notice = Notice { lines: files_lines(&files), error: None };
                        (Stage::Confirmation { files }, notice)
                    },
                    None => {
                        let files: Vec<String> = Vec::new();
                        assert(texts(files@) =~= Seq::empty());
                        let notice = two_lines(unreadable_line(directory.as_str()), no_files_line());
                        (Stage::Confirmation { files }, notice)
                    },
                }
            },
            (Stage::Confirmation { files }, Event::Line(line)) => {
                match confirm(line.as_str(), true) {
                    Some(true) => (
                        Stage::Parameter {
                            files,
                            which: Parameter::Loudness,
                            parameters: blank_parameters(),
                        },
                        silent(),
                    ),
                    Some(false) => (Stage::Finished, silent()),
                    None => (Stage::Confirmation { files }, one_line(retry_line())),
                }
            },
            (Stage::Parameter { files, which, parameters }, Event::Line(line)) => {
                let value = read_input_with_default(line.as_str(), which.default_value());
                let known = set_parameter(parameters, which, value);
                match following(which) {
                    Some(then) => (
                        Stage::Parameter { files, which: then, parameters: known },
                        silent(),
                    ),
                    None => (parameters_known(platform, files, known), silent()),
                }
            },
            (Stage::ToolDirectory { files, parameters }, Event::ProgramDirectory(directory)) => {
                let tool = tool_path(platform, directory.as_str());
                (Stage::ToolCheck { files, parameters, tool }, silent())
            },
            (Stage::ToolCheck { files, parameters, tool }, Event::ToolFound(found)) => {
                if found {
                    (convert_from(files, parameters, tool, 0), silent())
                } else {
                    let notice = Notice {
                        lines: Vec::new(),
                        error: Some(tool_missing_line(tool.as_str())),
                    };
                    assert(texts(notice.lines@) =~= Seq::empty());
                    (Stage::Finished, notice)
                }
            },
            (
                Stage::ResultDirectory { files, parameters, tool, next },
                Event::DirectoryCreated,
            ) => {
                let notice = if next < files.len() {
                    let input = files[next].as_str();
                    match platform {
                        Platform::Windows => {
                            let arguments = conversion_arguments(platform, input, &parameters);
                            two_lines(
                                processing_line(input),
                                command_line(tool.as_str(), &arguments),
                            )
                        },
                        Platform::Linux => one_line(processing_line(input)),
                    }
                } else {
                    silent()
                };
                (Stage::Conversion { files, parameters, tool, next }, notice)
            },
            (Stage::Conversion { files, parameters, tool, next }, Event::ToolExited(success)) => {
                if next < files.len() {
                    let input = files[next].as_str();
                    let notice = if success {
                        one_line(finished_line(output_path(platform, input).as_str()))
                    } else {
                        one_line(failed_line(input))
                    };
                    (convert_from(files, parameters, tool, next + 1), notice)
                } else {
                    (Stage::Finished, silent())
                }
            },
            (stage, _) => (stage, silent()),
        };
        (Session { platform, stage }, notice)
    }
}

} // verus!
