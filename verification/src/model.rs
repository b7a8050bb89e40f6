//! The model of one run of the batch: a machine that says what has to be
//! done next, and what follows from each thing that happened.
//!
//! The machine itself reads nothing and runs nothing. Its caller performs the
//! action that the machine names, tells it what came of it as an event, and
//! shows the lines that the machine answers with. This file holds the machine
//! over plain texts, and what holds of every run.

use crate::command::{
    conversion_arguments_of, result_dir_of, tool_is_checked, tool_path_of, output_path_of,
    Parameter, ParametersView,
};
use crate::messages::{
    command_line_of, confirm_prompt_of, directory_line_of, directory_prompt_of, failed_line_of,
    files_lines_of, finished_line_of, no_files_line_of, processing_line_of, retry_line_of,
    tool_missing_line_of, unreadable_line_of,
};
use crate::platform::Platform;
use crate::prompt::{answer_of, prompt_with_default, value_or_default};
use crate::scan::{audio_files, EntryView};
use crate::text::trimmed;
use vstd::prelude::*;

verus! {

/// How far a run has come, as texts.
pub enum StageView {
    /// The directory is asked for.
    Directory,
    /// No directory was typed: the directory of the running program is looked up.
    ProgramDirectory,
    /// The directory is listed.
    Listing { directory: Seq<char> },
    /// The user is asked whether to go on.
    Confirmation { files: Seq<Seq<char>> },
    /// The parameter `which` is asked for; those before it are known.
    Parameter { files: Seq<Seq<char>>, which: Parameter, parameters: ParametersView },
    /// The directory of the running program is looked up, to find the tool.
    ToolDirectory { files: Seq<Seq<char>>, parameters: ParametersView },
    /// The tool is looked for.
    ToolCheck { files: Seq<Seq<char>>, parameters: ParametersView, tool: Seq<char> },
    /// The directory for the result of the file `next` is made.
    ResultDirectory {
        files: Seq<Seq<char>>,
        parameters: ParametersView,
        tool: Seq<char>,
        next: nat,
    },
    /// The file `next` is converted.
    Conversion { files: Seq<Seq<char>>, parameters: ParametersView, tool: Seq<char>, next: nat },
    /// Nothing is left to do.
    Finished,
}

/// What happened, as texts.
pub enum EventView {
    /// The user typed a line.
    Line(Seq<char>),
    /// The directory of the running program was found.
    ProgramDirectory(Seq<char>),
    /// The directory was listed, or could not be read.
    Listing(Option<Seq<EntryView>>),
    /// The tool was looked for, and found or not.
    ToolFound(bool),
    /// The directory for a result exists now.
    DirectoryCreated,
    /// The tool has run, with or without success.
    ToolExited(bool),
}

/// What has to be done next, as texts.
pub enum ActionView {
    /// Show the prompt and read a line.
    ReadLine { prompt: Seq<char> },
    /// Find the directory of the running program.
    FindProgramDirectory,
    /// List the entries of a directory.
    ListDirectory { path: Seq<char> },
    /// Look whether the tool exists.
    CheckTool { path: Seq<char> },
    /// Make a directory, and those above it, unless it exists.
    CreateDirectory { path: Seq<char> },
    /// Run the tool and wait for its end.
    RunTool { program: Seq<char>, arguments: Seq<Seq<char>> },
    /// Stop.
    Finish,
}

/// What is shown after an event, as texts.
pub struct NoticeView {
    /// The lines for the standard output, in their order.
    pub lines: Seq<Seq<char>>,
    /// The line for the standard error, shown after the others.
    pub error: Option<Seq<char>>,
}

/// The parameters before any was typed.
pub open spec fn no_parameters() -> ParametersView {
    ParametersView {
        loudness: Seq::empty(),
        true_peak: Seq::empty(),
        loudness_range: Seq::empty(),
        quality: Seq::empty(),
    }
}

/// `parameters` with `value` for the parameter `which`.
pub open spec fn with_parameter(parameters: ParametersView, which: Parameter, value: Seq<char>)
    -> ParametersView {
    match which {
        Parameter::Loudness => ParametersView { loudness: value, ..parameters },
        Parameter::TruePeak => ParametersView { true_peak: value, ..parameters },
        Parameter::LoudnessRange => ParametersView { loudness_range: value, ..parameters },
        Parameter::Quality => ParametersView { quality: value, ..parameters },
    }
}

/// The parameter that is asked for after `which`, if one is left.
pub open spec fn parameter_after(which: Parameter) -> Option<Parameter> {
    match which {
        Parameter::Loudness => Some(Parameter::TruePeak),
        Parameter::TruePeak => Some(Parameter::LoudnessRange),
        Parameter::LoudnessRange => Some(Parameter::Quality),
        Parameter::Quality => None,
    }
}

/// The stage that converts the file `next`, or the end where no such file is left.
pub open spec fn conversion_from(
    files: Seq<Seq<char>>,
    parameters: ParametersView,
    tool: Seq<char>,
    next: nat,
) -> StageView {
    if next < files.len() {
        StageView::ResultDirectory { files, parameters, tool, next }
    } else {
        StageView::Finished
    }
}

/// The stage that follows the last parameter.
pub open spec fn after_parameters(
    platform: Platform,
    files: Seq<Seq<char>>,
    parameters: ParametersView,
) -> StageView {
    if tool_is_checked(platform) {
        StageView::ToolDirectory { files, parameters }
    } else {
        conversion_from(files, parameters, tool_path_of(platform, Seq::empty()), 0)
    }
}

/// The files that a listing gives: its audio files, or none where the
/// directory could not be read.
pub open spec fn files_of(platform: Platform, listing: Option<Seq<EntryView>>) -> Seq<Seq<char>> {
    match listing {
        Some(entries) => audio_files(platform, entries),
        None => Seq::empty(),
    }
}

/// What has to be done at a stage.
pub open spec fn action_of(platform: Platform, stage: StageView) -> ActionView {
    match stage {
        StageView::Directory => ActionView::ReadLine { prompt: directory_prompt_of() },
        StageView::ProgramDirectory => ActionView::FindProgramDirectory,
        StageView::Listing { directory } => ActionView::ListDirectory { path: directory },
        StageView::Confirmation { files } => ActionView::ReadLine { prompt: confirm_prompt_of() },
        StageView::Parameter { files, which, parameters } => ActionView::ReadLine {
            prompt: prompt_with_default(which.label_of(), which.default_of()),
        },
        StageView::ToolDirectory { files, parameters } => ActionView::FindProgramDirectory,
        StageView::ToolCheck { files, parameters, tool } => ActionView::CheckTool { path: tool },
        StageView::ResultDirectory { files, parameters, tool, next } => if next < files.len() {
            ActionView::CreateDirectory { path: result_dir_of(platform, files[next as int]) }
        } else {
            ActionView::Finish
        },
        StageView::Conversion { files, parameters, tool, next } => if next < files.len() {
            ActionView::RunTool {
                program: tool,
                arguments: conversion_arguments_of(platform, files[next as int], parameters),
            }
        } else {
            ActionView::Finish
        },
        StageView::Finished => ActionView::Finish,
    }
}

/// The stage that follows when `event` happens at `stage`. An event that the
/// stage does not wait for changes nothing.
pub open spec fn next_of(platform: Platform, stage: StageView, event: EventView) -> StageView {
    match (stage, event) {
        (StageView::Directory, EventView::Line(line)) => if trimmed(line).len() == 0 {
            StageView::ProgramDirectory
        } else {
            StageView::Listing { directory: trimmed(line) }
        },
        (StageView::ProgramDirectory, EventView::ProgramDirectory(directory)) => StageView::Listing {
            directory,
        },
        (StageView::Listing { directory }, EventView::Listing(listing)) => StageView::Confirmation {
            files: files_of(platform, listing),
        },
        (StageView::Confirmation { files }, EventView::Line(line)) => match answer_of(line, true) {
            Some(true) => StageView::Parameter {
                files,
                which: Parameter::Loudness,
                parameters: no_parameters(),
            },
            Some(false) => StageView::Finished,
            None => stage,
        },
        (StageView::Parameter { files, which, parameters }, EventView::Line(line)) => {
            let known = with_parameter(
                parameters,
                which,
                value_or_default(line, which.default_of()),
            );
            match parameter_after(which) {
                Some(following) => StageView::Parameter {
                    files,
                    which: following,
                    parameters: known,
                },
                None => after_parameters(platform, files, known),
            }
        },
        (
            StageView::ToolDirectory { files, parameters },
            EventView::ProgramDirectory(directory),
        ) => StageView::ToolCheck { files, parameters, tool: tool_path_of(platform, directory) },
        (StageView::ToolCheck { files, parameters, tool }, EventView::ToolFound(found)) => if found {
            conversion_from(files, parameters, tool, 0)
        } else {
            StageView::Finished
        },
        (
            StageView::ResultDirectory { files, parameters, tool, next },
            EventView::DirectoryCreated,
        ) => StageView::Conversion { files, parameters, tool, next },
        (StageView::Conversion { files, parameters, tool, next }, EventView::ToolExited(_)) => {
            conversion_from(files, parameters, tool, next + 1)
        },
        _ => stage,
    }
}

/// The notice without a line.
pub open spec fn silence() -> NoticeView {
    NoticeView { lines: Seq::empty(), error: None }
}

/// The notice of some lines for the standard output.
pub open spec fn saying(lines: Seq<Seq<char>>) -> NoticeView {
    NoticeView { lines, error: None }
}

/// What is shown when `event` happens at `stage`.
pub open spec fn notice_of(platform: Platform, stage: StageView, event: EventView) -> NoticeView {
    match (stage, event) {
        (StageView::Directory, EventView::Line(line)) => if trimmed(line).len() == 0 {
            silence()
        } else {
            saying(seq![directory_line_of(trimmed(line))])
        },
        (StageView::ProgramDirectory, EventView::ProgramDirectory(directory)) => saying(
            seq![directory_line_of(directory)],
        ),
        (StageView::Listing { directory }, EventView::Listing(listing)) => match listing {
            Some(entries) => saying(files_lines_of(audio_files(platform, entries))),
            None => saying(seq![unreadable_line_of(directory), no_files_line_of()]),
        },
        (StageView::Confirmation { files }, EventView::Line(line)) => match answer_of(line, true) {
            Some(_) => silence(),
            None => saying(seq![retry_line_of()]),
        },
        (StageView::ToolCheck { files, parameters, tool }, EventView::ToolFound(found)) => if found {
            silence()
        } else {
            NoticeView { lines: Seq::empty(), error: Some(tool_missing_line_of(tool)) }
        },
        (
            StageView::ResultDirectory { files, parameters, tool, next },
            EventView::DirectoryCreated,
        ) => if next < files.len() {
            let input = files[next as int];
            if platform == Platform::Windows {
                saying(
                    seq![
                        processing_line_of(input),
                        command_line_of(tool, conversion_arguments_of(platform, input, parameters)),
                    ],
                )
            } else {
                saying(seq![processing_line_of(input)])
            }
        } else {
            silence()
        },
        (StageView::Conversion { files, parameters, tool, next }, EventView::ToolExited(success)) => {
            if next < files.len() {
                let input = files[next as int];
                if success {
                    saying(seq![finished_line_of(output_path_of(platform, input))])
                } else {
                    saying(seq![failed_line_of(input)])
                }
            } else {
                silence()
            }
        },
        _ => silence(),
    }
}

/// The stage that a run has reached after a sequence of events.
pub open spec fn run_of(platform: Platform, stage: StageView, events: Seq<EventView>) -> StageView
    decreases events.len(),
{
    if events.len() == 0 {
        stage
    } else {
        next_of(platform, run_of(platform, stage, events.drop_last()), events.last())
    }
}

/// Whether an action writes to the file system or runs the tool.
pub open spec fn touches_files(action: ActionView) -> bool {
    action is CreateDirectory || action is RunTool
}

/// Whether `event` is the user's yes to the question whether to go on.
pub open spec fn consents(stage: StageView, event: EventView) -> bool {
    &&& stage is Confirmation
    &&& event matches EventView::Line(line)
    &&& answer_of(line, true) == Some(true)
}

/// Whether `event` is the user's no to the question whether to go on.
pub open spec fn declines(stage: StageView, event: EventView) -> bool {
    &&& stage is Confirmation
    &&& event matches EventView::Line(line)
    &&& answer_of(line, true) == Some(false)
}

/// Whether a stage comes before the user has said yes.
pub open spec fn awaits_consent(stage: StageView) -> bool {
    stage is Directory || stage is ProgramDirectory || stage is Listing || stage is Confirmation
}

/// The events of converting files one after the other, given how the tool
/// ended for each: the result directory is made, then the tool exits.
pub open spec fn conversion_events(exits: Seq<bool>) -> Seq<EventView>
    decreases exits.len(),
{
    if exits.len() == 0 {
        Seq::empty()
    } else {
        conversion_events(exits.drop_last()) + seq![
            EventView::DirectoryCreated,
            EventView::ToolExited(exits.last()),
        ]
    }
}

/// A run over two sequences of events, one after the other, is the run over
/// the second from where the first has led.
pub proof fn lemma_run_of_concat(
    platform: Platform,
    stage: StageView,
    first: Seq<EventView>,
    second: Seq<EventView>,
)
    ensures
        run_of(platform, stage, first + second) == run_of(
            platform,
            run_of(platform, stage, first),
            second,
        ),
    decreases second.len(),
{
    if second.len() == 0 {
        assert(first + second =~= first);
    } else {
        lemma_run_of_concat(platform, stage, first, second.drop_last());
        assert((first + second).drop_last() =~= first + second.drop_last());
    }
}

/// A run over one event is one step.
pub proof fn lemma_run_of_one(platform: Platform, stage: StageView, event: EventView)
    ensures
        run_of(platform, stage, seq![event]) == next_of(platform, stage, event),
{
    reveal_with_fuel(run_of, 2);
    assert(seq![event].drop_last() =~= Seq::<EventView>::empty());
}

/// A run that has finished stays finished, whatever happens.
pub proof fn lemma_finished_stays(platform: Platform, events: Seq<EventView>)
    ensures
        run_of(platform, StageView::Finished, events) == StageView::Finished,
    decreases events.len(),
{
    if events.len() > 0 {
        lemma_finished_stays(platform, events.drop_last());
    }
}

/// Once the user has said no, the run is over: whatever happens afterwards,
/// the only thing left to do is to stop, so no directory is made and the tool
/// is not run.
pub proof fn lemma_declined_run_is_over(
    platform: Platform,
    stage: StageView,
    answer: EventView,
    later: Seq<EventView>,
)
    requires
        declines(stage, answer),
    ensures
        run_of(platform, stage, seq![answer] + later) == StageView::Finished,
        action_of(platform, run_of(platform, stage, seq![answer] + later)) == ActionView::Finish,
{
    lemma_run_of_concat(platform, stage, seq![answer], later);
    lemma_run_of_one(platform, stage, answer);
    lemma_finished_stays(platform, later);
}

/// From a stage before the user's yes, a run that has not seen that yes is
/// still before it, or over.
pub proof fn lemma_run_without_consent(
    platform: Platform,
    stage: StageView,
    events: Seq<EventView>,
)
    requires
        awaits_consent(stage),
        forall|j: int|
            0 <= j < events.len() ==> !consents(
                run_of(platform, stage, #[trigger] events.take(j)),
                events[j],
            ),
    ensures
        awaits_consent(run_of(platform, stage, events)) || run_of(platform, stage, events)
            is Finished,
    decreases events.len(),
{
    if events.len() > 0 {
        let earlier = events.drop_last();
        assert forall|j: int| 0 <= j < earlier.len() implies !consents(
            run_of(platform, stage, #[trigger] earlier.take(j)),
            earlier[j],
        ) by {
            assert(earlier.take(j) =~= events.take(j));
        }
        lemma_run_without_consent(platform, stage, earlier);
        assert(events.take(events.len() - 1) =~= earlier);
        assert(!consents(run_of(platform, stage, earlier), events.last()));
    }
}

/// Nothing is written and the tool is not run unless the user has said yes:
/// where the action after the first `k` events of a run makes a directory or
/// runs the tool, one of those events was the user's yes.
pub proof fn lemma_nothing_written_without_consent(
    platform: Platform,
    events: Seq<EventView>,
    k: int,
)
    requires
        0 <= k <= events.len(),
        touches_files(action_of(platform, run_of(platform, StageView::Directory, events.take(k)))),
    ensures
        exists|j: int|
            0 <= j < k && consents(
                run_of(platform, StageView::Directory, #[trigger] events.take(j)),
                events[j],
            ),
{
    let seen = events.take(k);
    if forall|j: int|
        0 <= j < k ==> !consents(
            run_of(platform, StageView::Directory, #[trigger] events.take(j)),
            events[j],
        ) {
        assert forall|j: int| 0 <= j < seen.len() implies !consents(
            run_of(platform, StageView::Directory, #[trigger] seen.take(j)),
            seen[j],
        ) by {
            assert(seen.take(j) =~= events.take(j));
        }
        lemma_run_without_consent(platform, StageView::Directory, seen);
    }
}

/// Each file is converted in its turn: its result directory is made, the
/// tool is run on it, and the next file follows whether the tool succeeded
/// or not.
pub proof fn lemma_each_file_in_turn(
    platform: Platform,
    files: Seq<Seq<char>>,
    parameters: ParametersView,
    tool: Seq<char>,
    next: nat,
    success: bool,
)
    requires
        next < files.len(),
    ensures
        ({
            let preparing = StageView::ResultDirectory { files, parameters, tool, next };
            let converting = StageView::Conversion { files, parameters, tool, next };
            &&& action_of(platform, preparing) == ActionView::CreateDirectory {
                path: result_dir_of(platform, files[next as int]),
            }
            &&& next_of(platform, preparing, EventView::DirectoryCreated) == converting
            &&& action_of(platform, converting) == ActionView::RunTool {
                program: tool,
                arguments: conversion_arguments_of(platform, files[next as int], parameters),
            }
            &&& next_of(platform, converting, EventView::ToolExited(success)) == conversion_from(
                files,
                parameters,
                tool,
                next + 1,
            )
        }),
{
}

/// Converting goes through the files in their order, one for each exit of the
/// tool, and is over after the last: when the tool has run `exits.len()`
/// times, the file of that index is next, however the runs ended.
pub proof fn lemma_conversion_progress(
    platform: Platform,
    files: Seq<Seq<char>>,
    parameters: ParametersView,
    tool: Seq<char>,
    exits: Seq<bool>,
)
    requires
        exits.len() <= files.len(),
    ensures
        run_of(
            platform,
            conversion_from(files, parameters, tool, 0),
            conversion_events(exits),
        ) == conversion_from(files, parameters, tool, exits.len()),
    decreases exits.len(),
{
    let start = conversion_from(files, parameters, tool, 0);
    if exits.len() > 0 {
        let earlier = exits.drop_last();
        let k = earlier.len();
        lemma_conversion_progress(platform, files, parameters, tool, earlier);
        let step = seq![EventView::DirectoryCreated, EventView::ToolExited(exits.last())];
        lemma_run_of_concat(platform, start, conversion_events(earlier), step);
        let reached = conversion_from(files, parameters, tool, k);
        let made = next_of(platform, reached, EventView::DirectoryCreated);
        assert(step =~= seq![EventView::DirectoryCreated] + seq![
            EventView::ToolExited(exits.last()),
        ]);
        lemma_run_of_concat(
            platform,
            reached,
            seq![EventView::DirectoryCreated],
            seq![EventView::ToolExited(exits.last())],
        );
        lemma_run_of_one(platform, reached, EventView::DirectoryCreated);
        lemma_run_of_one(platform, made, EventView::ToolExited(exits.last()));
        lemma_each_file_in_turn(platform, files, parameters, tool, k, exits.last());
    }
}

/// A directory that cannot be read, or that holds no entry, counts as a
/// directory without audio files, and the run goes on to ask the user.
pub proof fn lemma_unreadable_directory_is_empty(platform: Platform, directory: Seq<char>)
    ensures
        next_of(platform, StageView::Listing { directory }, EventView::Listing(None))
            == (StageView::Confirmation { files: Seq::empty() }),
        next_of(platform, StageView::Listing { directory }, EventView::Listing(Some(Seq::empty())))
            == (StageView::Confirmation { files: Seq::empty() }),
{
    crate::scan::lemma_no_entries_no_files(platform);
}

/// The parameters that stand after the four questions: for each, what the
/// user typed, or its default where the user typed nothing.
pub open spec fn parameters_from(
    loudness: Seq<char>,
    true_peak: Seq<char>,
    loudness_range: Seq<char>,
    quality: Seq<char>,
) -> ParametersView {
    ParametersView {
        loudness: value_or_default(loudness, Parameter::Loudness.default_of()),
        true_peak: value_or_default(true_peak, Parameter::TruePeak.default_of()),
        loudness_range: value_or_default(loudness_range, Parameter::LoudnessRange.default_of()),
        quality: value_or_default(quality, Parameter::Quality.default_of()),
    }
}

/// After the user's yes, four lines are read, one for each parameter in the
/// order loudness, true peak, range, quality, and each value is kept as it
/// was typed.
pub proof fn lemma_parameters_as_typed(
    platform: Platform,
    files: Seq<Seq<char>>,
    yes: Seq<char>,
    loudness: Seq<char>,
    true_peak: Seq<char>,
    loudness_range: Seq<char>,
    quality: Seq<char>,
)
    requires
        answer_of(yes, true) == Some(true),
    ensures
        run_of(
            platform,
            StageView::Confirmation { files },
            seq![
                EventView::Line(yes),
                EventView::Line(loudness),
                EventView::Line(true_peak),
                EventView::Line(loudness_range),
                EventView::Line(quality),
            ],
        ) == after_parameters(
            platform,
            files,
            parameters_from(loudness, true_peak, loudness_range, quality),
        ),
{
    let e0 = EventView::Line(yes);
    let e1 = EventView::Line(loudness);
    let e2 = EventView::Line(true_peak);
    let e3 = EventView::Line(loudness_range);
    let e4 = EventView::Line(quality);
    let s0 = StageView::Confirmation { files };
    let s1 = next_of(platform, s0, e0);
    let s2 = next_of(platform, s1, e1);
    let s3 = next_of(platform, s2, e2);
    let s4 = next_of(platform, s3, e3);
    let events = seq![e0, e1, e2, e3, e4];
    assert(events =~= seq![e0] + seq![e1] + seq![e2] + seq![e3] + seq![e4]);
    lemma_run_of_one(platform, s0, e0);
    lemma_run_of_one(platform, s1, e1);
    lemma_run_of_one(platform, s2, e2);
    lemma_run_of_one(platform, s3, e3);
    lemma_run_of_one(platform, s4, e4);
    lemma_run_of_concat(platform, s0, seq![e0], seq![e1]);
    lemma_run_of_concat(platform, s0, seq![e0] + seq![e1], seq![e2]);
    lemma_run_of_concat(platform, s0, seq![e0] + seq![e1] + seq![e2], seq![e3]);
    lemma_run_of_concat(platform, s0, seq![e0] + seq![e1] + seq![e2] + seq![e3], seq![e4]);
}

} // verus!
