use loudnorm::session::{Action, Event, Notice, Session, Stage};
use loudnorm::messages::{command_line, files_lines};
use loudnorm::platform::Platform;
use loudnorm::scan::DirEntry;

fn entry(path: &str, is_file: bool) -> DirEntry {
    DirEntry { path: path.to_string(), is_file }
}

fn line(text: &str) -> Event {
    Event::Line(text.to_string())
}

fn lines(texts: &[&str]) -> Notice {
    Notice { lines: texts.iter().map(|t| t.to_string()).collect(), error: None }
}

fn read_line(prompt: &str) -> Action {
    Action::ReadLine { prompt: prompt.to_string() }
}

fn run_tool(program: &str, arguments: &[&str]) -> Action {
    Action::RunTool {
        program: program.to_string(),
        arguments: arguments.iter().map(|a| a.to_string()).collect(),
    }
}

/// Drives a run with canned lines and a tool that ends as `exits` say, and
/// gives the actions that were named and the lines that were shown.
fn drive(
    platform: Platform,
    typed: &[&str],
    listing: Option<Vec<DirEntry>>,
    program_directory: &str,
    tool_exists: bool,
    exits: &[bool],
) -> (Vec<Action>, Vec<String>, Vec<String>) {
    let mut session = Session::new(platform);
    let mut actions = Vec::new();
    let mut shown = Vec::new();
    let mut errors = Vec::new();
    let mut typed = typed.iter();
    let mut exits = exits.iter();
    let mut listing = Some(listing);
    loop {
        let action = session.action();
        actions.push(action.clone());
        let event = match action {
            Action::ReadLine { .. } => line(typed.next().expect("a line is left")),
            Action::FindProgramDirectory => Event::ProgramDirectory(program_directory.to_string()),
            Action::ListDirectory { .. } => Event::Listing(listing.take().expect("listed once")),
            Action::CheckTool { .. } => Event::ToolFound(tool_exists),
            Action::CreateDirectory { .. } => Event::DirectoryCreated,
            Action::RunTool { .. } => Event::ToolExited(*exits.next().expect("an exit is left")),
            Action::Finish => break,
        };
        let (next, notice) = session.advance(event);
        session = next;
        shown.extend(notice.lines);
        errors.extend(notice.error);
    }
    assert!(session.is_finished());
    (actions, shown, errors)
}

#[test]
fn two_audio_files_with_all_defaults_are_converted_one_after_the_other() {
    let listing = vec![
        entry("/music/a.mp3", true),
        entry("/music/cover.jpg", true),
        entry("/music/B.MP3", true),
    ];
    let (actions, shown, errors) = drive(
        Platform::Linux,
        &["/music\n", "\n", "\n", "\n", "\n", "\n"],
        Some(listing),
        "/opt/app",
        true,
        &[true, false],
    );
    assert_eq!(
        actions,
        vec![
            read_line("Type the folder path: "),
            Action::ListDirectory { path: "/music".to_string() },
            read_line("Confirm? [Y/n]: "),
            read_line("Integrated loudness target (I) (default: -14): "),
            read_line("True peak limit (TP) (default: -1.5): "),
            read_line("Loudness range (LRA) (default: 11): "),
            read_line("Audio Quality (q:a) (default: 0): "),
            Action::CreateDirectory { path: "/music/result".to_string() },
            run_tool(
                "/usr/bin/ffmpeg",
                &[
                    "-i",
                    "/music/a.mp3",
                    "-af",
                    "loudnorm=I=-14:TP=-1.5:LRA=11",
                    "-q:a",
                    "0",
                    "-y",
                    "/music/result/a.mp3",
                ],
            ),
            Action::CreateDirectory { path: "/music/result".to_string() },
            run_tool(
                "/usr/bin/ffmpeg",
                &[
                    "-i",
                    "/music/B.MP3",
                    "-af",
                    "loudnorm=I=-14:TP=-1.5:LRA=11",
                    "-q:a",
                    "0",
                    "-y",
                    "/music/result/B.mp3",
                ],
            ),
            Action::Finish,
        ]
    );
    assert_eq!(
        shown,
        vec![
            "📁 Path provided: \"/music\"".to_string(),
            "🎶 Files finded to be equalized:".to_string(),
            "- /music/a.mp3".to_string(),
            "- /music/B.MP3".to_string(),
            "🔧 Processing: /music/a.mp3".to_string(),
            "✅ Finish: /music/result/a.mp3".to_string(),
            "🔧 Processing: /music/B.MP3".to_string(),
            "❌ Error while processing: /music/B.MP3".to_string(),
        ]
    );
    assert!(errors.is_empty());
}

#[test]
fn declining_runs_nothing_and_writes_nothing() {
    for answer in ["n\n", "N\n", "no\n", "NO\n", " No \n"] {
        let listing = vec![entry("/music/a.mp3", true), entry("/music/b.mp3", true)];
        let (actions, shown, errors) =
            drive(Platform::Linux, &["/music\n", answer], Some(listing), "/opt/app", true, &[]);
        assert_eq!(
            actions,
            vec![
                read_line("Type the folder path: "),
                Action::ListDirectory { path: "/music".to_string() },
                read_line("Confirm? [Y/n]: "),
                Action::Finish,
            ]
        );
        assert_eq!(shown.len(), 4);
        assert!(errors.is_empty());
    }
}

#[test]
fn a_finished_run_ignores_whatever_happens() {
    let session = Session::new(Platform::Linux);
    let (session, _) = session.advance(line("/music"));
    let (session, _) = session.advance(Event::Listing(Some(vec![entry("/music/a.mp3", true)])));
    let (mut session, _) = session.advance(line("n"));
    assert_eq!(session.stage, Stage::Finished);
    let events = [
        line("y"),
        Event::DirectoryCreated,
        Event::ToolExited(true),
        Event::ToolFound(true),
        Event::ProgramDirectory("/x".to_string()),
        Event::Listing(None),
    ];
    for event in events {
        let (next, notice) = session.advance(event);
        assert_eq!(next.stage, Stage::Finished);
        assert_eq!(next.action(), Action::Finish);
        assert_eq!(notice, lines(&[]));
        session = next;
    }
}

#[test]
fn an_unclear_answer_asks_again_until_it_is_clear() {
    let listing = vec![entry("/music/a.mp3", true)];
    let (actions, shown, _) = drive(
        Platform::Linux,
        &["/music\n", "maybe\n", "si\n", "no\n"],
        Some(listing),
        "/opt/app",
        true,
        &[],
    );
    assert_eq!(
        actions,
        vec![
            read_line("Type the folder path: "),
            Action::ListDirectory { path: "/music".to_string() },
            read_line("Confirm? [Y/n]: "),
            read_line("Confirm? [Y/n]: "),
            read_line("Confirm? [Y/n]: "),
            Action::Finish,
        ]
    );
    assert_eq!(
        shown,
        vec![
            "📁 Path provided: \"/music\"".to_string(),
            "🎶 Files finded to be equalized:".to_string(),
            "- /music/a.mp3".to_string(),
            "Por favor, responda com 'y' ou 'n'.".to_string(),
            "Por favor, responda com 'y' ou 'n'.".to_string(),
        ]
    );
}

#[test]
fn an_unreadable_directory_counts_as_empty_and_the_run_goes_on() {
    let (actions, shown, errors) =
        drive(Platform::Linux, &["/missing\n", "n\n"], None, "/opt/app", true, &[]);
    assert_eq!(
        actions,
        vec![
            read_line("Type the folder path: "),
            Action::ListDirectory { path: "/missing".to_string() },
            read_line("Confirm? [Y/n]: "),
            Action::Finish,
        ]
    );
    assert_eq!(
        shown,
        vec![
            "📁 Path provided: \"/missing\"".to_string(),
            "❌ Error accessing directory: /missing".to_string(),
            "⚠️  No compatible files finded in directory.".to_string(),
        ]
    );
    assert!(errors.is_empty());
}

#[test]
fn an_empty_directory_that_is_confirmed_converts_nothing() {
    let (actions, shown, _) = drive(
        Platform::Linux,
        &["/empty\n", "y\n", "\n", "\n", "\n", "\n"],
        Some(Vec::new()),
        "/opt/app",
        true,
        &[],
    );
    assert_eq!(actions.len(), 8);
    assert_eq!(actions[7], Action::Finish);
    assert!(actions.iter().all(|a| !matches!(a, Action::RunTool { .. })));
    assert!(actions.iter().all(|a| !matches!(a, Action::CreateDirectory { .. })));
    assert_eq!(
        shown,
        vec![
            "📁 Path provided: \"/empty\"".to_string(),
            "⚠️  No compatible files finded in directory.".to_string(),
        ]
    );
}

#[test]
fn without_a_typed_directory_the_directory_of_the_program_is_read() {
    let (actions, shown, _) =
        drive(Platform::Linux, &["\n", "n\n"], Some(Vec::new()), "/opt/app", true, &[]);
    assert_eq!(
        actions,
        vec![
            read_line("Type the folder path: "),
            Action::FindProgramDirectory,
            Action::ListDirectory { path: "/opt/app".to_string() },
            read_line("Confirm? [Y/n]: "),
            Action::Finish,
        ]
    );
    assert_eq!(shown[0], "📁 Path provided: \"/opt/app\"");
}

#[test]
fn the_typed_directory_is_trimmed() {
    let session = Session::new(Platform::Linux);
    let (session, notice) = session.advance(line("  /my music \r\n"));
    assert_eq!(session.stage, Stage::Listing { directory: "/my music".to_string() });
    assert_eq!(notice, lines(&["📁 Path provided: \"/my music\""]));
}

#[test]
fn typed_parameters_reach_the_tool_as_they_were_typed() {
    let listing = vec![entry("/m/x.mp3", true)];
    let (actions, _, _) = drive(
        Platform::Linux,
        &["/m\n", "yes\n", "-16\n", " -2 \n", "abc\n", "3\n"],
        Some(listing),
        "/opt/app",
        true,
        &[true],
    );
    assert_eq!(
        actions[8],
        run_tool(
            "/usr/bin/ffmpeg",
            &["-i", "/m/x.mp3", "-af", "loudnorm=I=-16:TP=-2:LRA=abc", "-q:a", "3", "-y", "/m/result/x.mp3"],
        )
    );
}

#[test]
fn on_windows_a_missing_tool_ends_the_run_before_any_file() {
    let listing = vec![entry("C:\\m\\x.mp3", true)];
    let (actions, shown, errors) = drive(
        Platform::Windows,
        &["C:\\m\n", "\n", "\n", "\n", "\n", "\n"],
        Some(listing),
        "C:\\app",
        false,
        &[],
    );
    assert_eq!(
        actions[7..],
        [
            Action::FindProgramDirectory,
            Action::CheckTool { path: "C:\\app\\library\\ffmpeg.exe".to_string() },
            Action::Finish,
        ]
    );
    assert_eq!(shown.len(), 3);
    assert_eq!(errors, vec!["❌ ffmpeg.exe library not found in: C:\\app\\library\\ffmpeg.exe".to_string()]);
}

#[test]
fn on_windows_the_command_is_shown_before_it_is_run() {
    let listing = vec![entry("C:\\m\\x.MP3", true)];
    let (actions, shown, errors) = drive(
        Platform::Windows,
        &["C:\\m\n", "\n", "\n", "\n", "\n", "\n"],
        Some(listing),
        "C:\\app",
        true,
        &[true],
    );
    assert_eq!(
        actions[9..],
        [
            Action::CreateDirectory { path: "C:\\m\\result".to_string() },
            run_tool(
                "C:\\app\\library\\ffmpeg.exe",
                &[
                    "-i",
                    "C:\\m\\x.MP3",
                    "-af",
                    "loudnorm=I=-14:TP=-1.5:LRA=11",
                    "-q:a",
                    "0",
                    "-y",
                    "C:\\m\\result\\x.mp3",
                ],
            ),
            Action::Finish,
        ]
    );
    assert_eq!(
        shown[3..],
        [
            "🔧 Processing: C:\\m\\x.MP3".to_string(),
            "C:\\app\\library\\ffmpeg.exe -i C:\\m\\x.MP3 -af loudnorm=I=-14:TP=-1.5:LRA=11 -q:a 0 -y C:\\m\\result\\x.mp3".to_string(),
            "✅ Finish: C:\\m\\result\\x.mp3".to_string(),
        ]
    );
    assert!(errors.is_empty());
}

#[test]
fn an_event_that_is_not_awaited_changes_nothing() {
    let session = Session::new(Platform::Linux);
    let (session, notice) = session.advance(Event::ToolExited(true));
    assert_eq!(session.stage, Stage::Directory);
    assert_eq!(notice, lines(&[]));
    let (session, _) = session.advance(line("/music"));
    let (session, notice) = session.advance(line("y"));
    assert_eq!(session.stage, Stage::Listing { directory: "/music".to_string() });
    assert_eq!(notice, lines(&[]));
    assert!(!session.is_finished());
}

#[test]
fn a_failing_tool_does_not_stop_the_files_after_it() {
    let listing = vec![entry("a.mp3", true), entry("b.mp3", true), entry("c.mp3", true)];
    let (actions, shown, _) = drive(
        Platform::Linux,
        &[".\n", "\n", "\n", "\n", "\n", "\n"],
        Some(listing),
        "/opt/app",
        true,
        &[false, false, true],
    );
    let runs = actions.iter().filter(|a| matches!(a, Action::RunTool { .. })).count();
    assert_eq!(runs, 3);
    assert_eq!(
        shown[5..],
        [
            "🔧 Processing: a.mp3".to_string(),
            "❌ Error while processing: a.mp3".to_string(),
            "🔧 Processing: b.mp3".to_string(),
            "❌ Error while processing: b.mp3".to_string(),
            "🔧 Processing: c.mp3".to_string(),
            "✅ Finish: result/c.mp3".to_string(),
        ]
    );
}

#[test]
fn the_lines_that_list_the_files() {
    assert_eq!(
        files_lines(&Vec::new()),
        vec!["⚠️  No compatible files finded in directory.".to_string()]
    );
    assert_eq!(
        files_lines(&vec!["a.mp3".to_string(), "b.mp3".to_string()]),
        vec![
            "🎶 Files finded to be equalized:".to_string(),
            "- a.mp3".to_string(),
            "- b.mp3".to_string(),
        ]
    );
}

#[test]
fn the_command_as_one_line() {
    assert_eq!(command_line("ffmpeg", &Vec::new()), "ffmpeg");
    assert_eq!(
        command_line("ffmpeg", &vec!["-i".to_string(), "a b.mp3".to_string()]),
        "ffmpeg -i a b.mp3"
    );
}
