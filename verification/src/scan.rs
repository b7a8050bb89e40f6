//! Which entries of a directory are audio files to be normalised.

use crate::path::{extension, extension_of};
use crate::platform::Platform;
use crate::text::{eq_ignore_ascii_case, eq_ignoring_ascii_case, texts};
use vstd::prelude::*;
use vstd::string::*;

verus! {

/// One entry of a directory, as its listing gives it.
#[derive(Clone, Debug, PartialEq, Eq)]
pub struct DirEntry {
    /// The path of the entry: the directory's path joined with the entry's name.
    pub path: String,
    /// Whether the entry is a regular file.
    pub is_file: bool,
}

/// What the selection reads of an entry.
pub struct EntryView {
    pub path: Seq<char>,
    pub is_file: bool,
}

impl View for DirEntry {
    type V = EntryView;

    open spec fn view(&self) -> EntryView {
        EntryView { path: self.path@, is_file: self.is_file }
    }
}

/// The views of the entries of a listing, in its order.
pub open spec fn entry_views(entries: Seq<DirEntry>) -> Seq<EntryView> {
    entries.map_values(|e: DirEntry| e@)
}

/// Whether `path` ends in the extension of the audio files that are
/// normalised; the ASCII case of the extension does not count.
pub open spec fn has_audio_extension(platform: Platform, path: Seq<char>) -> bool {
    match extension_of(platform, path) {
        Some(e) => eq_ignoring_ascii_case(e, "mp3"@),
        None => false,
    }
}

/// Whether an entry is taken: a regular file with the audio extension.
pub open spec fn is_audio_file(platform: Platform, entry: EntryView) -> bool {
    entry.is_file && has_audio_extension(platform, entry.path)
}

/// The paths of the entries that are taken, in the order of the listing.
pub open spec fn audio_files(platform: Platform, entries: Seq<EntryView>) -> Seq<Seq<char>> {
    entries.filter(|e: EntryView| is_audio_file(platform, e)).map_values(|e: EntryView| e.path)
}

/// Whether the path names a file with the audio extension.
pub fn is_audio_path(platform: Platform, path: &str) -> (r: bool)
    ensures
        r == has_audio_extension(platform, path@),
{
    match extension(platform, path) {
        Some(e) => eq_ignore_ascii_case(e, "mp3"),
        None => false,
    }
}

/// Selects from the listing of a directory the audio files to normalise: the
/// regular files with the audio extension, in the order of the listing.
pub fn get_mp3_files(platform: Platform, entries: &Vec<DirEntry>) -> (files: Vec<String>)
    ensures
        texts(files@) == audio_files(platform, entry_views(entries@)),
{
    let mut files: Vec<String> = Vec::new();
    let ghost all = entry_views(entries@);
    let ghost wanted = |e: EntryView| is_audio_file(platform, e);
    let ghost path_of = |e: EntryView| e.path;
    let mut i: usize = 0;
    proof {
        reveal(Seq::filter);
        assert(all.take(0).filter(wanted) =~= Seq::<EntryView>::empty());
    }
    while i < entries.len()
        invariant
            i <= entries.len(),
            all == entry_views(entries@),
            wanted == (|e: EntryView| is_audio_file(platform, e)),
            path_of == (|e: EntryView| e.path),
            texts(files@) == all.take(i as int).filter(wanted).map_values(path_of),
        decreases entries.len() - i,
    {
        let entry = &entries[i];
        let ghost before = texts(files@);
        proof {
            reveal(Seq::filter);
            assert(all.take(i + 1).drop_last() =~= all.take(i as int));
            assert(all.take(i + 1).last() == entry@);
        }
        if entry.is_file && is_audio_path(platform, entry.path.as_str()) {
            files.push(entry.path.clone());
            proof {
                assert(texts(files@) =~= before.push(entry.path@));
                assert(all.take(i + 1).filter(wanted) == all.take(i as int).filter(wanted).push(
                    entry@,
                ));
                assert(all.take(i + 1).filter(wanted).map_values(path_of) =~= before.push(
                    entry.path@,
                ));
            }
        }
        i += 1;
    }
    proof {
        assert(all.take(i as int) =~= all);
    }
    files
}

/// The paths of the entries that are not taken, in the order of the listing.
pub open spec fn other_entries(platform: Platform, entries: Seq<EntryView>) -> Seq<Seq<char>> {
    entries.filter(|e: EntryView| !is_audio_file(platform, e)).map_values(|e: EntryView| e.path)
}

/// A listing that is extended by one entry gives one more file where the
/// entry is an audio file, and the same files where it is not.
pub proof fn lemma_audio_files_push(platform: Platform, entries: Seq<EntryView>, entry: EntryView)
    ensures
        audio_files(platform, entries.push(entry)) == if is_audio_file(platform, entry) {
            audio_files(platform, entries).push(entry.path)
        } else {
            audio_files(platform, entries)
        },
        other_entries(platform, entries.push(entry)) == if is_audio_file(platform, entry) {
            other_entries(platform, entries)
        } else {
            other_entries(platform, entries).push(entry.path)
        },
{
    let wanted = |e: EntryView| is_audio_file(platform, e);
    let unwanted = |e: EntryView| !is_audio_file(platform, e);
    let path_of = |e: EntryView| e.path;
    entries.lemma_filter_push(entry, wanted);
    entries.lemma_filter_push(entry, unwanted);
    assert(entries.filter(wanted).push(entry).map_values(path_of) =~= entries.filter(
        wanted,
    ).map_values(path_of).push(entry.path));
    assert(entries.filter(unwanted).push(entry).map_values(path_of) =~= entries.filter(
        unwanted,
    ).map_values(path_of).push(entry.path));
}

/// Of a listing with N audio files and M other entries, exactly the N audio
/// files are taken: a path is among the files if and only if an entry with
/// that path is an audio file, and the files and the other entries together
/// are as many as the listing holds.
pub proof fn lemma_audio_files_exact(platform: Platform, entries: Seq<EntryView>)
    ensures
        forall|path: Seq<char>| #[trigger]
            audio_files(platform, entries).contains(path) <==> exists|i: int|
                0 <= i < entries.len() && is_audio_file(platform, #[trigger] entries[i])
                    && entries[i].path == path,
        audio_files(platform, entries).len() + other_entries(platform, entries).len()
            == entries.len(),
    decreases entries.len(),
{
    let files = audio_files(platform, entries);
    if entries.len() == 0 {
        reveal(Seq::filter);
        assert(files =~= Seq::empty());
        assert(other_entries(platform, entries) =~= Seq::empty());
    } else {
        let rest = entries.drop_last();
        let last = entries.last();
        lemma_audio_files_exact(platform, rest);
        lemma_audio_files_push(platform, rest, last);
        assert(rest.push(last) =~= entries);
        let before = audio_files(platform, rest);
        assert forall|path: Seq<char>| #[trigger]
            files.contains(path) <==> exists|i: int|
                0 <= i < entries.len() && is_audio_file(platform, #[trigger] entries[i])
                    && entries[i].path == path by {
            if files.contains(path) {
                let k = choose|k: int| 0 <= k < files.len() && files[k] == path;
                if k < before.len() {
                    assert(before[k] == path);
                    assert(before.contains(path));
                    let i = choose|i: int|
                        0 <= i < rest.len() && is_audio_file(platform, #[trigger] rest[i])
                            && rest[i].path == path;
                    assert(entries[i] == rest[i]);
                } else {
                    assert(is_audio_file(platform, entries[entries.len() - 1]));
                }
            }
            if exists|i: int|
                0 <= i < entries.len() && is_audio_file(platform, #[trigger] entries[i])
                    && entries[i].path == path {
                let i = choose|i: int|
                    0 <= i < entries.len() && is_audio_file(platform, #[trigger] entries[i])
                        && entries[i].path == path;
                if i < rest.len() {
                    assert(rest[i] == entries[i]);
                    assert(before.contains(path));
                    let k = choose|k: int| 0 <= k < before.len() && before[k] == path;
                    assert(files[k] == path);
                } else {
                    assert(files[files.len() - 1] == path);
                }
            }
        }
    }
}

/// The files of two listings, one after the other, are the files of the
/// first followed by the files of the second: every entry is judged by
/// itself, and the order of the listing is kept.
pub proof fn lemma_audio_files_concat(
    platform: Platform,
    first: Seq<EntryView>,
    second: Seq<EntryView>,
)
    ensures
        audio_files(platform, first + second) == audio_files(platform, first) + audio_files(
            platform,
            second,
        ),
{
    let wanted = |e: EntryView| is_audio_file(platform, e);
    Seq::filter_distributes_over_add(first, second, wanted);
    assert(audio_files(platform, first + second) =~= audio_files(platform, first) + audio_files(
        platform,
        second,
    ));
}

/// A directory without entries gives no file.
pub proof fn lemma_no_entries_no_files(platform: Platform)
    ensures
        audio_files(platform, Seq::empty()) == Seq::<Seq<char>>::empty(),
{
    reveal(Seq::filter);
    assert(audio_files(platform, Seq::empty()) =~= Seq::<Seq<char>>::empty());
}

} // verus!
