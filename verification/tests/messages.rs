use loudnorm::messages::{
    confirm_prompt, directory_line, directory_prompt, failed_line, file_line, files_header,
    finished_line, no_files_line, processing_line, retry_line, tool_missing_line, unreadable_line,
};

#[test]
fn the_prompts() {
    assert_eq!(directory_prompt(), "Type the folder path: ");
    assert_eq!(confirm_prompt(), "Confirm? [Y/n]: ");
    assert_eq!(retry_line(), "Por favor, responda com 'y' ou 'n'.");
}

#[test]
fn the_lines_about_the_directory() {
    assert_eq!(directory_line("/music"), "📁 Path provided: \"/music\"");
    assert_eq!(unreadable_line("/music"), "❌ Error accessing directory: /music");
    assert_eq!(no_files_line(), "⚠️  No compatible files finded in directory.");
    assert_eq!(files_header(), "🎶 Files finded to be equalized:");
    assert_eq!(file_line("/music/a.mp3"), "- /music/a.mp3");
}

#[test]
fn the_lines_about_one_file() {
    assert_eq!(processing_line("/music/a.mp3"), "🔧 Processing: /music/a.mp3");
    assert_eq!(finished_line("/music/result/a.mp3"), "✅ Finish: /music/result/a.mp3");
    assert_eq!(failed_line("/music/a.mp3"), "❌ Error while processing: /music/a.mp3");
    assert_eq!(
        tool_missing_line("C:\\app\\library\\ffmpeg.exe"),
        "❌ ffmpeg.exe library not found in: C:\\app\\library\\ffmpeg.exe"
    );
}
