use musicus::file_manager::file_utils::{
    ends_with, starts_with, visible_entries, DirectoryEntry,
};
use musicus::song::song_buffer::SongBuffer;
use musicus::song::{title_for, title_from_path, trimmed, Song};
use musicus::time::Duration;

fn entry(name: &str, is_file: bool) -> DirectoryEntry {
    DirectoryEntry {
        is_file,
        filename: name.to_string(),
        path: format!("/music/album/{}", name),
    }
}

#[test]
fn a_song_keeps_what_it_is_made_of() {
    let mut song = Song::new(4, "title".to_string(), "/music/a.ogg".to_string());
    assert_eq!(song.get_id(), 4);
    assert_eq!(song.get_title(), "title");
    assert_eq!(song.get_path(), "/music/a.ogg");
    assert_eq!(song.get_total_duration(), None);
    assert!(song.has_path(&"/music/a.ogg".to_string()));
    assert!(!song.has_path(&"/music/b.ogg".to_string()));
    song.update_total_duration(Duration::from_secs(3));
    song.set_title("other");
    let copy = song.clone();
    assert_eq!(copy.get_id(), 4);
    assert_eq!(copy.get_title(), "other");
    assert_eq!(copy.get_path(), "/music/a.ogg");
    assert_eq!(copy.get_total_duration(), Some(Duration::from_secs(3)));
}

#[test]
fn a_title_is_the_file_name_of_a_path() {
    assert_eq!(title_from_path("/music/album/song.mp3"), "song.mp3");
    assert_eq!(title_from_path("song.mp3"), "song.mp3");
    assert_eq!(title_from_path("/music/.."), "<no filename>");
    assert_eq!(title_for(Some("name".to_string())), "name");
    assert_eq!(title_for(None), "<no filename>");
}

#[test]
fn a_buffer_gives_every_path_one_id() {
    let mut buffer = SongBuffer::new();
    assert_eq!(buffer.len(), 0);
    assert!(buffer.get(0).is_none());
    assert_eq!(buffer.import("/music/a.ogg", Some("first")), 0);
    assert_eq!(buffer.import("/music/b.ogg", None), 1);
    assert_eq!(buffer.import("/music/a.ogg", Some("again")), 0);
    assert_eq!(buffer.import("/music/a.ogg", None), 0);
    assert_eq!(buffer.len(), 2);
    assert_eq!(buffer.get(0).unwrap().get_title(), "first");
    assert_eq!(buffer.get(1).unwrap().get_title(), "b.ogg");
    assert_eq!(buffer.get(1).unwrap().get_path(), "/music/b.ogg");
    assert!(buffer.get(2).is_none());
    assert_eq!(buffer.get_by_path("/music/b.ogg").unwrap().get_id(), 1);
    assert!(buffer.get_by_path("/music/c.ogg").is_none());

    buffer.update_total_duration(1, Duration::from_secs(9));
    buffer.update_total_duration(5, Duration::from_secs(9));
    assert_eq!(buffer.get(1).unwrap().get_total_duration(), Some(Duration::from_secs(9)));
    assert_eq!(buffer.get(0).unwrap().get_total_duration(), None);
    buffer.set_title(0, "renamed");
    buffer.set_title(5, "nobody");
    assert_eq!(buffer.get(0).unwrap().get_title(), "renamed");
    assert_eq!(buffer.import_all(&vec!["/x".to_string(), "/music/a.ogg".to_string()]), vec![2, 0]);
}

#[test]
fn names_are_trimmed() {
    assert_eq!(trimmed("start middle end", 6, 4), "middle");
    assert_eq!(trimmed("èŷß", 1, 1), "ŷ");
    assert_eq!(trimmed("abc", 0, 0), "abc");
    assert_eq!(trimmed("abc", 3, 0), "");
    assert_eq!(trimmed("abc", 2, 2), "");
    assert_eq!(trimmed("abc", 5, 5), "");
}

#[test]
fn sound_files_go_by_their_names() {
    assert!(entry("a.wav", true).is_song_file());
    assert!(entry("a.mp3", true).is_song_file());
    assert!(entry("a.ogg", true).is_song_file());
    assert!(!entry("a.ogg", false).is_song_file());
    assert!(!entry("a.flac", true).is_song_file());
    assert!(!entry("ogg", true).is_song_file());
    assert!(entry(".ogg", true).is_song_file());
    assert!(ends_with("abc", "bc"));
    assert!(ends_with("abc", ""));
    assert!(ends_with("abc", "abc"));
    assert!(!ends_with("abc", "xabc"));
    assert!(!ends_with("abc", "ab"));
    assert_eq!(entry("a.ogg", true).clone(), entry("a.ogg", true));
}

#[test]
fn songs_are_made_of_sound_files() {
    let files = vec![
        entry("band - 1 one.ogg", true),
        entry("band - 2 two.ogg", true),
        entry("band - three.ogg", true),
    ];
    let mut buffer = SongBuffer::new();
    buffer.import("/music/album/band - 2 two.ogg", Some("known"));
    let ids = Song::songs_from_sound_files(files.iter().collect(), &mut buffer);
    assert_eq!(ids, vec![1, 0, 2]);
    assert_eq!(buffer.get(1).unwrap().get_title(), "01 one");
    assert_eq!(buffer.get(0).unwrap().get_title(), "known");
    assert_eq!(buffer.get(2).unwrap().get_title(), "03 three");
    assert_eq!(buffer.get(2).unwrap().get_path(), "/music/album/band - three.ogg");

    // a single file keeps its name
    let single = vec![entry("7 alone.mp3", true)];
    let ids = Song::songs_from_sound_files(single.iter().collect(), &mut buffer);
    assert_eq!(ids, vec![3]);
    assert_eq!(buffer.get(3).unwrap().get_title(), "07 alone.mp3");
    assert!(Song::songs_from_sound_files(Vec::new(), &mut buffer).is_empty());
}

#[test]
fn hidden_entries_are_not_listed() {
    assert!(entry(".git", false).is_hidden());
    assert!(entry(".", false).is_hidden());
    assert!(!entry("a.b", true).is_hidden());
    assert!(!entry("", true).is_hidden());
    assert!(starts_with("abc", "ab"));
    assert!(starts_with("abc", ""));
    assert!(starts_with("abc", "abc"));
    assert!(!starts_with("abc", "abcd"));
    assert!(!starts_with("abc", "bc"));
    assert!(starts_with("èŷß", "è"));
    let listed = visible_entries(vec![
        entry("b", true),
        entry(".hidden", true),
        entry("a", false),
        entry(".cache", false),
    ]);
    assert_eq!(listed, vec![entry("b", true), entry("a", false)]);
    assert!(visible_entries(Vec::new()).is_empty());
}
