use loudnorm::platform::Platform;
use loudnorm::scan::{get_mp3_files, is_audio_path, DirEntry};

fn entry(path: &str, is_file: bool) -> DirEntry {
    DirEntry { path: path.to_string(), is_file }
}

#[test]
fn the_extension_is_compared_without_regard_to_case() {
    for path in ["a.mp3", "a.MP3", "a.Mp3", "a.mP3", "/x/y/z.mp3", "a.b.mp3", ".a.mp3"] {
        assert!(is_audio_path(Platform::Linux, path), "{:?}", path);
    }
    for path in ["a.mp4", "a.mp", "a.mp33", "mp3", ".mp3", "a.mp3.txt", "a.mp3/", "a.mp3/b", "a", ""] {
        assert!(!is_audio_path(Platform::Linux, path), "{:?}", path);
    }
    assert!(is_audio_path(Platform::Windows, "C:\\music\\a.MP3"));
    assert!(!is_audio_path(Platform::Windows, "C:\\music.mp3\\a"));
}

#[test]
fn exactly_the_matching_files_are_returned_in_listing_order() {
    let entries = vec![
        entry("/music/b.mp3", true),
        entry("/music/cover.jpg", true),
        entry("/music/A.MP3", true),
        entry("/music/notes.txt", true),
        entry("/music/c.Mp3", true),
    ];
    assert_eq!(
        get_mp3_files(Platform::Linux, &entries),
        vec!["/music/b.mp3".to_string(), "/music/A.MP3".to_string(), "/music/c.Mp3".to_string()]
    );
}

#[test]
fn directories_and_other_entries_are_skipped() {
    let entries = vec![
        entry("/music/album.mp3", false),
        entry("/music/song.mp3", true),
        entry("/music/sub", false),
    ];
    assert_eq!(get_mp3_files(Platform::Linux, &entries), vec!["/music/song.mp3".to_string()]);
}

#[test]
fn an_empty_directory_gives_no_file() {
    let entries: Vec<DirEntry> = Vec::new();
    assert_eq!(get_mp3_files(Platform::Linux, &entries), Vec::<String>::new());
}

#[test]
fn a_directory_without_audio_files_gives_no_file() {
    let entries = vec![entry("/music/a.wav", true), entry("/music/b.flac", true)];
    assert!(get_mp3_files(Platform::Linux, &entries).is_empty());
}

#[test]
fn the_same_path_twice_is_returned_twice() {
    let entries = vec![entry("a.mp3", true), entry("a.mp3", true)];
    assert_eq!(get_mp3_files(Platform::Linux, &entries).len(), 2);
}
