//! The command that normalises one file: the parameters of the loudness
//! filter, where the result is written, and the arguments of the audio tool.

use crate::path::{
    file_stem, file_stem_of, is_plain_directory, is_single_component, join, joined,
    lemma_joined_splits, lemma_name_parts, parent, parent_of,
};
use crate::path::is_separator;
use crate::platform::Platform;
use crate::text::texts;
use vstd::prelude::*;
use vstd::string::*;

verus! {

/// The four values that the user is asked for, in the order of the questions.
#[derive(Clone, Copy, Debug, PartialEq, Eq, Structural)]
pub enum Parameter {
    /// The integrated loudness target, `I` of the filter.
    Loudness,
    /// The true peak limit, `TP` of the filter.
    TruePeak,
    /// The loudness range, `LRA` of the filter.
    LoudnessRange,
    /// The quality of the encoded audio, an option of its own.
    Quality,
}

impl Parameter {
    /// The words that ask for the parameter.
    pub open spec fn label_of(self) -> Seq<char> {
        match self {
            Parameter::Loudness => "Integrated loudness target (I)"@,
            Parameter::TruePeak => "True peak limit (TP)"@,
            Parameter::LoudnessRange => "Loudness range (LRA)"@,
            Parameter::Quality => "Audio Quality (q:a)"@,
        }
    }

    /// The value that the parameter has where the user types none.
    pub open spec fn default_of(self) -> Seq<char> {
        match self {
            Parameter::Loudness => "-14"@,
            Parameter::TruePeak => "-1.5"@,
            Parameter::LoudnessRange => "11"@,
            Parameter::Quality => "0"@,
        }
    }

    /// The words that ask for the parameter.
    pub fn label(self) -> (r: &'static str)
        ensures
            r@ == self.label_of(),
    {
        match self {
            Parameter::Loudness => "Integrated loudness target (I)",
            Parameter::TruePeak => "True peak limit (TP)",
            Parameter::LoudnessRange => "Loudness range (LRA)",
            Parameter::Quality => "Audio Quality (q:a)",
        }
    }

    /// The value that the parameter has where the user types none.
    pub fn default_value(self) -> (r: &'static str)
        ensures
            r@ == self.default_of(),
    {
        match self {
            Parameter::Loudness => "-14",
            Parameter::TruePeak => "-1.5",
            Parameter::LoudnessRange => "11",
            Parameter::Quality => "0",
        }
    }
}

/// The values of the four parameters, as the user typed them.
#[derive(Clone, Debug, PartialEq, Eq)]
pub struct Parameters {
    pub loudness: String,
    pub true_peak: String,
    pub loudness_range: String,
    pub quality: String,
}

/// The values of the four parameters as texts.
pub struct ParametersView {
    pub loudness: Seq<char>,
    pub true_peak: Seq<char>,
    pub loudness_range: Seq<char>,
    pub quality: Seq<char>,
}

impl View for Parameters {
    type V = ParametersView;

    open spec fn view(&self) -> ParametersView {
        ParametersView {
            loudness: self.loudness@,
            true_peak: self.true_peak@,
            loudness_range: self.loudness_range@,
            quality: self.quality@,
        }
    }
}

/// The audio filter that normalises to the given loudness, peak and range.
pub open spec fn loudnorm_filter_of(
    loudness: Seq<char>,
    true_peak: Seq<char>,
    loudness_range: Seq<char>,
) -> Seq<char> {
    "loudnorm=I="@ + loudness + ":TP="@ + true_peak + ":LRA="@ + loudness_range
}

/// The directory that takes the result for `input`: `result` beside the input.
pub open spec fn result_dir_of(platform: Platform, input: Seq<char>) -> Seq<char> {
    joined(platform, parent_of(platform, input), "result"@)
}

/// The file that the result for `input` is written to: in the result
/// directory, under the stem of the input and the extension `mp3`.
pub open spec fn output_path_of(platform: Platform, input: Seq<char>) -> Seq<char> {
    joined(platform, result_dir_of(platform, input), file_stem_of(platform, input) + ".mp3"@)
}

/// The arguments that the audio tool is run with for one file.
pub open spec fn tool_arguments_of(
    input: Seq<char>,
    filter: Seq<char>,
    quality: Seq<char>,
    output: Seq<char>,
) -> Seq<Seq<char>> {
    seq!["-i"@, input, "-af"@, filter, "-q:a"@, quality, "-y"@, output]
}

/// The arguments that normalise `input` with the given parameters.
pub open spec fn conversion_arguments_of(
    platform: Platform,
    input: Seq<char>,
    parameters: ParametersView,
) -> Seq<Seq<char>> {
    tool_arguments_of(
        input,
        loudnorm_filter_of(parameters.loudness, parameters.true_peak, parameters.loudness_range),
        parameters.quality,
        output_path_of(platform, input),
    )
}

/// Where the audio tool is found: at a fixed place on Linux, and in the
/// directory `library` beside the running program on Windows.
pub open spec fn tool_path_of(platform: Platform, program_dir: Seq<char>) -> Seq<char> {
    match platform {
        Platform::Linux => "/usr/bin/ffmpeg"@,
        Platform::Windows => joined(
            platform,
            joined(platform, program_dir, "library"@),
            "ffmpeg.exe"@,
        ),
    }
}

/// Whether the tool is looked for before the first file is converted.
pub open spec fn tool_is_checked(platform: Platform) -> bool {
    platform == Platform::Windows
}

/// Builds the audio filter that normalises to the given loudness, peak and range.
pub fn loudnorm_filter(loudness: &str, true_peak: &str, loudness_range: &str) -> (filter: String)
    ensures
        filter@ == loudnorm_filter_of(loudness@, true_peak@, loudness_range@),
{
    String::from_str("loudnorm=I=").concat(loudness).concat(":TP=").concat(true_peak).concat(
        ":LRA=",
    ).concat(loudness_range)
}

/// The directory that takes the result for `input`.
pub fn result_dir(platform: Platform, input: &str) -> (dir: String)
    ensures
        dir@ == result_dir_of(platform, input@),
{
    join(platform, parent(platform, input), "result")
}

/// The file that the result for `input` is written to.
pub fn output_path(platform: Platform, input: &str) -> (output: String)
    ensures
        output@ == output_path_of(platform, input@),
{
    let dir = result_dir(platform, input);
    let name = String::from_str(file_stem(platform, input)).concat(".mp3");
    join(platform, dir.as_str(), name.as_str())
}

/// The arguments that the audio tool is run with for one file.
pub fn tool_arguments(input: &str, filter: &str, quality: &str, output: &str) -> (arguments: Vec<
    String,
>)
    ensures
        texts(arguments@) == tool_arguments_of(input@, filter@, quality@, output@),
{
    let mut arguments: Vec<String> = Vec::new();
    arguments.push(String::from_str("-i"));
    arguments.push(String::from_str(input));
    arguments.push(String::from_str("-af"));
    arguments.push(String::from_str(filter));
    arguments.push(String::from_str("-q:a"));
    arguments.push(String::from_str(quality));
    arguments.push(String::from_str("-y"));
    arguments.push(String::from_str(output));
    assert(texts(arguments@) =~= tool_arguments_of(input@, filter@, quality@, output@));
    arguments
}

/// The arguments that normalise `input` with the given parameters.
pub fn conversion_arguments(platform: Platform, input: &str, parameters: &Parameters) -> (arguments:
    Vec<String>)
    ensures
        texts(arguments@) == conversion_arguments_of(platform, input@, parameters@),
{
    let filter = loudnorm_filter(
        parameters.loudness.as_str(),
        parameters.true_peak.as_str(),
        parameters.loudness_range.as_str(),
    );
    let output = output_path(platform, input);
    tool_arguments(input, filter.as_str(), parameters.quality.as_str(), output.as_str())
}

/// Where the audio tool is found.
pub fn tool_path(platform: Platform, program_dir: &str) -> (tool: String)
    ensures
        tool@ == tool_path_of(platform, program_dir@),
{
    match platform {
        Platform::Linux => String::from_str("/usr/bin/ffmpeg"),
        Platform::Windows => {
            let library = join(platform, program_dir, "library");
            join(platform, library.as_str(), "ffmpeg.exe")
        },
    }
}

/// Whether the tool is looked for before the first file is converted.
pub fn checks_tool(platform: Platform) -> (r: bool)
    ensures
        r == tool_is_checked(platform),
{
    platform == Platform::Windows
}

/// The result for a file lies in the directory `result` beside it, under the
/// file's stem and the extension `mp3`, however the file's own extension is
/// written.
pub proof fn lemma_output_path_beside_input(
    platform: Platform,
    dir: Seq<char>,
    stem: Seq<char>,
    ext: Seq<char>,
)
    requires
        is_plain_directory(platform, dir),
        is_single_component(platform, stem),
        is_single_component(platform, ext),
        stem.len() > 0,
        forall|i: int| 0 <= i < ext.len() ==> ext[i] != '.',
    ensures
        result_dir_of(platform, joined(platform, dir, stem + seq!['.'] + ext)) == joined(
            platform,
            dir,
            "result"@,
        ),
        output_path_of(platform, joined(platform, dir, stem + seq!['.'] + ext)) == joined(
            platform,
            joined(platform, dir, "result"@),
            stem + ".mp3"@,
        ),
{
    let name = stem + seq!['.'] + ext;
    assert forall|i: int| 0 <= i < name.len() implies !is_separator(platform, #[trigger] name[i]) by {
        if i < stem.len() {
            assert(name[i] == stem[i]);
        } else if i > stem.len() {
            assert(name[i] == ext[i - stem.len() - 1]);
        }
    }
    lemma_joined_splits(platform, dir, name);
    lemma_name_parts(stem, ext);
}

} // verus!
