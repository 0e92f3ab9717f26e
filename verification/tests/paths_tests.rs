use gdrive_sync::errors::DownloadError;
use gdrive_sync::paths::{
    backup_path, body_offset, destination_path, file_name, join, kept_length, name_offset, parent,
    to_forward_slashes, ARCHIVE_SUBFOLDER, BACKUP_PREFIX,
};
use std::path::{Path, PathBuf, MAIN_SEPARATOR};

#[test]
fn subfolder_is_appended() {
    assert_eq!(destination_path("/music", true), "/music/Unofficial-Neuro-Karaoke-Archive");
    assert_eq!(destination_path("/music/", true), "/music/Unofficial-Neuro-Karaoke-Archive");
    assert_eq!(destination_path("music", true), "music/Unofficial-Neuro-Karaoke-Archive");
    assert_eq!(destination_path("/", true), "/Unofficial-Neuro-Karaoke-Archive");
    assert_eq!(destination_path("", true), "Unofficial-Neuro-Karaoke-Archive");
}

#[test]
fn subfolder_is_not_nested() {
    assert_eq!(
        destination_path("/music/Unofficial-Neuro-Karaoke-Archive", true),
        "/music/Unofficial-Neuro-Karaoke-Archive"
    );
    assert_eq!(
        destination_path("/music/Unofficial-Neuro-Karaoke-Archive/", true),
        "/music/Unofficial-Neuro-Karaoke-Archive/"
    );
    assert_eq!(
        destination_path("Unofficial-Neuro-Karaoke-Archive", true),
        "Unofficial-Neuro-Karaoke-Archive"
    );
}

#[test]
fn subfolder_rule_is_idempotent() {
    for d in [
        "/music",
        "/music/",
        "",
        "/",
        "a/b/../c",
        "/x/Unofficial-Neuro-Karaoke-Archive",
        "/x/Unofficial-Neuro-Karaoke-Archive/./",
        "rel//",
        "./",
        "/a/.",
    ] {
        let once = destination_path(d, true);
        let twice = destination_path(&once, true);
        assert_eq!(once, twice, "destination {:?}", d);
        assert_eq!(file_name(&once), Some(ARCHIVE_SUBFOLDER.to_string()));
    }
}

#[test]
fn similar_final_component_still_gets_the_subfolder() {
    assert_eq!(
        destination_path("/music/Unofficial-Neuro-Karaoke-Archive2", true),
        "/music/Unofficial-Neuro-Karaoke-Archive2/Unofficial-Neuro-Karaoke-Archive"
    );
    assert_eq!(
        destination_path("/Unofficial-Neuro-Karaoke-Archive/inner", true),
        "/Unofficial-Neuro-Karaoke-Archive/inner/Unofficial-Neuro-Karaoke-Archive"
    );
}

#[test]
fn destination_without_subfolder_is_unchanged() {
    assert_eq!(destination_path("/music", false), "/music");
    assert_eq!(destination_path("/music/", false), "/music/");
    assert_eq!(destination_path("", false), "");
}

#[test]
fn file_name_is_the_final_component() {
    assert_eq!(file_name("/a/b"), Some("b".to_string()));
    assert_eq!(file_name("/a/b/"), Some("b".to_string()));
    assert_eq!(file_name("/a/b///"), Some("b".to_string()));
    assert_eq!(file_name("b"), Some("b".to_string()));
    assert_eq!(file_name("/b"), Some("b".to_string()));
    assert_eq!(file_name("a/b.txt"), Some("b.txt".to_string()));
}

#[test]
fn file_name_of_paths_that_end_in_no_name() {
    assert_eq!(file_name(""), None);
    assert_eq!(file_name("/"), None);
    assert_eq!(file_name("//"), None);
    assert_eq!(file_name("a/.."), None);
    assert_eq!(file_name(".."), None);
    assert_eq!(file_name("."), None);
}

#[test]
fn parent_drops_the_final_component() {
    assert_eq!(parent("/a/b"), Some("/a".to_string()));
    assert_eq!(parent("/a/b/"), Some("/a".to_string()));
    assert_eq!(parent("/a//b"), Some("/a".to_string()));
    assert_eq!(parent("/a"), Some("/".to_string()));
    assert_eq!(parent("a/b"), Some("a".to_string()));
    assert_eq!(parent("a"), Some("".to_string()));
    assert_eq!(parent("a/"), Some("".to_string()));
}

#[test]
fn root_and_empty_have_no_parent() {
    assert_eq!(parent("/"), None);
    assert_eq!(parent("///"), None);
    assert_eq!(parent(""), None);
}

#[test]
fn join_puts_one_separator_between() {
    assert_eq!(join("/a", "b"), "/a/b");
    assert_eq!(join("/a/", "b"), "/a/b");
    assert_eq!(join("/", "b"), "/b");
    assert_eq!(join("", "b"), "b");
    assert_eq!(join("a", ""), "a/");
}

fn cs(s: &str) -> Vec<char> {
    s.chars().collect()
}

#[test]
fn body_offset_kept_length_and_name_offset() {
    assert_eq!(body_offset(&cs("/a")), 1);
    assert_eq!(body_offset(&cs("./a")), 1);
    assert_eq!(body_offset(&cs(".")), 1);
    assert_eq!(body_offset(&cs(".a")), 0);
    assert_eq!(body_offset(&cs("..")), 0);
    assert_eq!(body_offset(&cs("a")), 0);
    assert_eq!(body_offset(&cs("")), 0);
    assert_eq!(kept_length(&cs("/a/b//"), 1, 6), 4);
    assert_eq!(kept_length(&cs("/a/b/."), 1, 6), 4);
    assert_eq!(kept_length(&cs("/a/b/./"), 1, 7), 4);
    assert_eq!(kept_length(&cs("/a/b/.."), 1, 7), 7);
    assert_eq!(kept_length(&cs("/a/b//"), 1, 3), 2);
    assert_eq!(kept_length(&cs("///"), 1, 3), 1);
    assert_eq!(kept_length(&cs("/."), 1, 2), 1);
    assert_eq!(kept_length(&cs("./."), 1, 3), 1);
    assert_eq!(kept_length(&cs("abc"), 0, 3), 3);
    assert_eq!(kept_length(&cs("abc"), 0, 0), 0);
    assert_eq!(kept_length(&cs("a."), 0, 2), 2);
    assert_eq!(name_offset(&cs("/a/b//"), 1, 4), 3);
    assert_eq!(name_offset(&cs("abc"), 0, 3), 0);
    assert_eq!(name_offset(&cs("/abc"), 1, 4), 1);
    assert_eq!(name_offset(&cs("ä/ö"), 0, 3), 2);
}

#[test]
fn dot_components_are_passed_over() {
    assert_eq!(file_name("foo.txt/."), Some("foo.txt".to_string()));
    assert_eq!(file_name("foo.txt/.//"), Some("foo.txt".to_string()));
    assert_eq!(file_name("/usr/bin/"), Some("bin".to_string()));
    assert_eq!(file_name("tmp/foo.txt"), Some("foo.txt".to_string()));
    assert_eq!(file_name("foo.txt/.."), None);
    assert_eq!(file_name("/"), None);
    assert_eq!(file_name("/."), None);
    assert_eq!(file_name("./"), None);
    assert_eq!(file_name("./a"), Some("a".to_string()));
    assert_eq!(file_name("a/./b/."), Some("b".to_string()));
    assert_eq!(file_name(".hidden"), Some(".hidden".to_string()));
    assert_eq!(file_name("a/..."), Some("...".to_string()));
    assert_eq!(parent("/a/b/."), Some("/a".to_string()));
    assert_eq!(parent("/a/./b"), Some("/a".to_string()));
    assert_eq!(parent("/./b"), Some("/".to_string()));
    assert_eq!(parent("./b"), Some(".".to_string()));
    assert_eq!(parent("a/."), Some("".to_string()));
    assert_eq!(parent("."), Some("".to_string()));
    assert_eq!(parent(".."), Some("".to_string()));
    assert_eq!(parent("a/.."), Some("a".to_string()));
    assert_eq!(parent("/.."), Some("/".to_string()));
    assert_eq!(parent("/."), None);
    assert_eq!(parent("/./"), None);
    assert_eq!(parent("/foo/bar"), Some("/foo".to_string()));
    assert_eq!(parent("/foo"), Some("/".to_string()));
}

#[test]
fn destination_that_ends_in_a_dot() {
    assert_eq!(
        destination_path("/music/Unofficial-Neuro-Karaoke-Archive/.", true),
        "/music/Unofficial-Neuro-Karaoke-Archive/."
    );
    assert_eq!(
        destination_path("/music/.", true),
        "/music/./Unofficial-Neuro-Karaoke-Archive"
    );
    assert_eq!(
        destination_path("/music/Unofficial-Neuro-Karaoke-Archive/..", true),
        "/music/Unofficial-Neuro-Karaoke-Archive/../Unofficial-Neuro-Karaoke-Archive"
    );
}

#[test]
fn backup_of_a_destination_that_ends_in_a_dot() {
    assert_eq!(backup_path("/a/b/.", "T"), Ok("/a/Backup-KAR-T".to_string()));
    assert_eq!(backup_path("/a/b/./", "T"), Ok("/a/Backup-KAR-T".to_string()));
    assert_eq!(backup_path("/a/./b", "T"), Ok("/a/Backup-KAR-T".to_string()));
    assert_eq!(backup_path("./b", "T"), Ok("./Backup-KAR-T".to_string()));
    assert_eq!(backup_path("/.", "T"), Err(DownloadError::NoParentDirectory));
    assert_eq!(backup_path("/./", "T"), Err(DownloadError::NoParentDirectory));
    assert_eq!(backup_path("/./.", "T"), Err(DownloadError::NoParentDirectory));
}

#[test]
fn backslash_is_no_separator() {
    assert_eq!(file_name("C:\\music\\X"), Some("C:\\music\\X".to_string()));
    assert_eq!(parent("C:\\music\\X"), Some("".to_string()));
    assert_eq!(backup_path("C:\\music\\X", "1"), Ok("Backup-KAR-1".to_string()));
}

#[test]
fn join_with_a_path_from_the_root() {
    assert_eq!(join("/a", "/b"), "/b");
    assert_eq!(join("", "/"), "/");
    assert_eq!(join("a/", "b/c"), "a/b/c");
}

fn all_paths(alphabet: &[char], max_len: usize) -> Vec<String> {
    let mut all = vec![String::new()];
    let mut last = vec![String::new()];
    for _ in 0..max_len {
        let mut next = Vec::new();
        for p in last.iter() {
            for c in alphabet {
                let mut q = p.clone();
                q.push(*c);
                next.push(q);
            }
        }
        all.extend(next.iter().cloned());
        last = next;
    }
    all
}

fn text(p: &Path) -> String {
    p.to_str().unwrap().to_string()
}

#[test]
fn paths_are_read_as_the_standard_library_reads_them() {
    if MAIN_SEPARATOR != '/' {
        return;
    }
    for p in all_paths(&['/', '.', 'a', 'b'], 7) {
        let std_name = Path::new(&p).file_name().map(|n| n.to_str().unwrap().to_string());
        assert_eq!(file_name(&p), std_name, "file name of {:?}", p);
        let std_parent = Path::new(&p).parent().map(text);
        assert_eq!(parent(&p), std_parent, "parent of {:?}", p);
    }
}

#[test]
fn join_is_what_the_standard_library_pushes() {
    if MAIN_SEPARATOR != '/' {
        return;
    }
    let names = all_paths(&['/', '.', 'a'], 3);
    for base in all_paths(&['/', '.', 'a'], 4) {
        for name in names.iter() {
            let mut expected = PathBuf::from(&base);
            expected.push(name);
            assert_eq!(join(&base, name), text(&expected), "{:?} joined with {:?}", base, name);
        }
    }
}

#[test]
fn destination_and_backup_are_what_the_standard_library_gives() {
    if MAIN_SEPARATOR != '/' {
        return;
    }
    let mut destinations = all_paths(&['/', '.', 'a'], 6);
    for d in ["/music", "/music/Unofficial-Neuro-Karaoke-Archive/.", "x/Unofficial-Neuro-Karaoke-Archive//"] {
        destinations.push(d.to_string());
    }
    for d in destinations {
        let mut dst = PathBuf::from(&d);
        if dst.file_name().and_then(|n| n.to_str()) != Some(ARCHIVE_SUBFOLDER) {
            dst.push(ARCHIVE_SUBFOLDER);
        }
        assert_eq!(destination_path(&d, true), text(&dst), "destination {:?}", d);
        let expected = Path::new(&d).parent().map(|p| text(&p.join("Backup-KAR-T")));
        assert_eq!(backup_path(&d, "T").ok(), expected, "backup of {:?}", d);
        if let Some(backup) = expected {
            let b = Path::new(&backup);
            assert_eq!(b.parent(), Path::new(&d).parent());
            assert!(!b.starts_with(&d) || b == Path::new(&d), "{:?} below {:?}", backup, d);
        }
    }
}

#[test]
fn backup_is_a_sibling_of_the_destination() {
    assert_eq!(
        backup_path("/music/Unofficial-Neuro-Karaoke-Archive", "20240131_235959"),
        Ok("/music/Backup-KAR-20240131_235959".to_string())
    );
    assert_eq!(backup_path("/music", "20240131_235959"), Ok("/Backup-KAR-20240131_235959".to_string()));
    assert_eq!(backup_path("music", "20240131_235959"), Ok("Backup-KAR-20240131_235959".to_string()));
    assert_eq!(backup_path("/a/b/c/", "1"), Ok("/a/b/Backup-KAR-1".to_string()));
}

#[test]
fn backup_never_lies_below_the_destination() {
    for d in ["/music", "/music/", "music", "/a/b", "a/b/c///", "/Backup-KAR-1", "/x/Backup-KAR-"] {
        let backup = backup_path(d, "1").unwrap();
        let below = format!("{}/", d.trim_end_matches('/'));
        assert!(!backup.starts_with(&below), "{:?} lies below {:?}", backup, d);
        assert_eq!(parent(&backup), parent(d));
        assert_eq!(file_name(&backup), Some(format!("{}1", BACKUP_PREFIX)));
    }
}

#[test]
fn backup_of_a_destination_without_parent_fails() {
    assert_eq!(backup_path("/", "20240131_235959"), Err(DownloadError::NoParentDirectory));
    assert_eq!(backup_path("", "20240131_235959"), Err(DownloadError::NoParentDirectory));
    assert_eq!(backup_path("//", "x"), Err(DownloadError::NoParentDirectory));
}

#[test]
fn backslashes_become_slashes() {
    assert_eq!(to_forward_slashes("songs\\a\\b.mp3"), "songs/a/b.mp3");
    assert_eq!(to_forward_slashes("songs/a.mp3"), "songs/a.mp3");
    assert_eq!(to_forward_slashes("\\\\"), "//");
    assert_eq!(to_forward_slashes("a\\"), "a/");
    assert_eq!(to_forward_slashes(""), "");
    assert_eq!(to_forward_slashes("ä\\ö"), "ä/ö");
}
