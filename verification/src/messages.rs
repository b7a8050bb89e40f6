//! The lines that are shown to the user.

use crate::text::texts;
use vstd::prelude::*;
use vstd::string::*;

verus! {

/// The question that asks for the directory.
pub open spec fn directory_prompt_of() -> Seq<char> {
    "Type the folder path: "@
}

/// The question that asks whether to go on.
pub open spec fn confirm_prompt_of() -> Seq<char> {
    "Confirm? [Y/n]: "@
}

/// The line that is shown where the answer was neither yes nor no.
pub open spec fn retry_line_of() -> Seq<char> {
    "Por favor, responda com 'y' ou 'n'."@
}

/// The line that repeats the directory that is read.
pub open spec fn directory_line_of(directory: Seq<char>) -> Seq<char> {
    "📁 Path provided: \""@ + directory + "\""@
}

/// The line that says that the directory could not be read.
pub open spec fn unreadable_line_of(directory: Seq<char>) -> Seq<char> {
    "❌ Error accessing directory: "@ + directory
}

/// The line that says that the directory holds no audio file.
pub open spec fn no_files_line_of() -> Seq<char> {
    "⚠️  No compatible files finded in directory."@
}

/// The line that stands above the list of the files that were found.
pub open spec fn files_header_of() -> Seq<char> {
    "🎶 Files finded to be equalized:"@
}

/// The line that lists one file that was found.
pub open spec fn file_line_of(file: Seq<char>) -> Seq<char> {
    "- "@ + file
}

/// The lines that tell which files were found.
pub open spec fn files_lines_of(files: Seq<Seq<char>>) -> Seq<Seq<char>> {
    if files.len() == 0 {
        seq![no_files_line_of()]
    } else {
        seq![files_header_of()] + files.map_values(|file: Seq<char>| file_line_of(file))
    }
}

/// The line that says that the audio tool is not where it should be.
pub open spec fn tool_missing_line_of(tool: Seq<char>) -> Seq<char> {
    "❌ ffmpeg.exe library not found in: "@ + tool
}

/// The line that says which file is converted next.
pub open spec fn processing_line_of(input: Seq<char>) -> Seq<char> {
    "🔧 Processing: "@ + input
}

/// The line that says that a file was converted, and where the result is.
pub open spec fn finished_line_of(output: Seq<char>) -> Seq<char> {
    "✅ Finish: "@ + output
}

/// The line that says that a file could not be converted.
pub open spec fn failed_line_of(input: Seq<char>) -> Seq<char> {
    "❌ Error while processing: "@ + input
}

/// The command as one line: the program, then each argument after a space.
pub open spec fn command_line_of(program: Seq<char>, arguments: Seq<Seq<char>>) -> Seq<char>
    decreases arguments.len(),
{
    if arguments.len() == 0 {
        program
    } else {
        command_line_of(program, arguments.drop_last()) + " "@ + arguments.last()
    }
}

/// The question that asks for the directory.
pub fn directory_prompt() -> (text: String)
    ensures
        text@ == directory_prompt_of(),
{
    String::from_str("Type the folder path: ")
}

/// The question that asks whether to go on.
pub fn confirm_prompt() -> (text: String)
    ensures
        text@ == confirm_prompt_of(),
{
    String::from_str("Confirm? [Y/n]: ")
}

/// The line that is shown where the answer was neither yes nor no.
pub fn retry_line() -> (text: String)
    ensures
        text@ == retry_line_of(),
{
    String::from_str("Por favor, responda com 'y' ou 'n'.")
}

/// The line that repeats the directory that is read.
pub fn directory_line(directory: &str) -> (text: String)
    ensures
        text@ == directory_line_of(directory@),
{
    String::from_str("📁 Path provided: \"").concat(directory).concat("\"")
}

/// The line that says that the directory could not be read.
pub fn unreadable_line(directory: &str) -> (text: String)
    ensures
        text@ == unreadable_line_of(directory@),
{
    String::from_str("❌ Error accessing directory: ").concat(directory)
}

/// The line that says that the directory holds no audio file.
pub fn no_files_line() -> (text: String)
    ensures
        text@ == no_files_line_of(),
{
    String::from_str("⚠️  No compatible files finded in directory.")
}

/// The line that stands above the list of the files that were found.
pub fn files_header() -> (text: String)
    ensures
        text@ == files_header_of(),
{
    String::from_str("🎶 Files finded to be equalized:")
}

/// The line that lists one file that was found.
pub fn file_line(file: &str) -> (text: String)
    ensures
        text@ == file_line_of(file@),
{
    String::from_str("- ").concat(file)
}

/// The line that says that the audio tool is not where it should be.
pub fn tool_missing_line(tool: &str) -> (text: String)
    ensures
        text@ == tool_missing_line_of(tool@),
{
    String::from_str("❌ ffmpeg.exe library not found in: ").concat(tool)
}

/// The line that says which file is converted next.
pub fn processing_line(input: &str) -> (text: String)
    ensures
        text@ == processing_line_of(input@),
{
    String::from_str("🔧 Processing: ").concat(input)
}

/// The line that says that a file was converted, and where the result is.
pub fn finished_line(output: &str) -> (text: String)
    ensures
        text@ == finished_line_of(output@),
{
    String::from_str("✅ Finish: ").concat(output)
}

/// The line that says that a file could not be converted.
pub fn failed_line(input: &str) -> (text: String)
    ensures
        text@ == failed_line_of(input@),
{
    String::from_str("❌ Error while processing: ").concat(input)
}

/// The lines that tell which files were found.
pub fn files_lines(files: &Vec<String>) -> (lines: Vec<String>)
    ensures
        texts(lines@) == files_lines_of(texts(files@)),
{
    let mut lines: Vec<String> = Vec::new();
    if files.len() == 0 {
        lines.push(no_files_line());
        assert(texts(lines@) =~= files_lines_of(texts(files@)));
        return lines;
    }
    lines.push(files_header());
    let ghost listed = texts(files@).map_values(|file: Seq<char>| file_line_of(file));
    let mut i: usize = 0;
    while i < files.len()
        invariant
            i <= files.len(),
            listed == texts(files@).map_values(|file: Seq<char>| file_line_of(file)),
            texts(lines@) =~= seq![files_header_of()] + listed.take(i as int),
        decreases files.len() - i,
    {
        let ghost before = texts(lines@);
        lines.push(file_line(files[i].as_str()));
        proof {
            assert(texts(lines@) =~= before.push(file_line_of(files@[i as int]@)));
            assert(listed.take(i + 1) =~= listed.take(i as int).push(listed[i as int]));
        }
        i += 1;
    }
    assert(listed.take(i as int) =~= listed);
    lines
}

/// The command as one line.
pub fn command_line(program: &str, arguments: &Vec<String>) -> (line: String)
    ensures
        line@ == command_line_of(program@, texts(arguments@)),
{
    let mut line = String::from_str(program);
    let ghost all = texts(arguments@);
    let mut i: usize = 0;
    while i < arguments.len()
        invariant
            i <= arguments.len(),
            all == texts(arguments@),
            line@ == command_line_of(program@, all.take(i as int)),
        decreases arguments.len() - i,
    {
        proof {
            assert(all.take(i + 1).drop_last() =~= all.take(i as int));
        }
        line = line.concat(" ").concat(arguments[i].as_str());
        i += 1;
    }
    assert(all.take(i as int) =~= all);
    line
}

} // verus!
