use mkv_encode_runner::scan::{classify, scan_dir, scan_root, FileEntry, FileKind};

fn file(dir: &str, name: &str) -> FileEntry {
    FileEntry { path: format!("{}/{}", dir, name), name: name.to_string(), is_file: true }
}

fn subdir(dir: &str, name: &str) -> FileEntry {
    FileEntry { path: format!("{}/{}", dir, name), name: name.to_string(), is_file: false }
}

#[test]
fn classify_preset_and_media() {
    assert_eq!(classify(&file("/d", "preset.json")), FileKind::Preset);
    assert_eq!(classify(&file("/d", "movie.mkv")), FileKind::Input);
    assert_eq!(classify(&file("/d", "a.b.mkv")), FileKind::Input);
}

#[test]
fn classify_ignores_other_names() {
    assert_eq!(classify(&file("/d", ".mkv")), FileKind::Other);
    assert_eq!(classify(&file("/d", "mkv")), FileKind::Other);
    assert_eq!(classify(&file("/d", "movie.MKV")), FileKind::Other);
    assert_eq!(classify(&file("/d", "movie.mkv.part")), FileKind::Other);
    assert_eq!(classify(&file("/d", "Preset.json")), FileKind::Other);
    assert_eq!(classify(&file("/d", "notes.txt")), FileKind::Other);
}

#[test]
fn classify_ignores_directories() {
    assert_eq!(classify(&subdir("/d", "preset.json")), FileKind::Other);
    assert_eq!(classify(&subdir("/d", "movie.mkv")), FileKind::Other);
}

#[test]
fn pair_found_media_first() {
    let job = scan_dir(&vec![file("/jobs/a", "movie.mkv"), file("/jobs/a", "preset.json")]).unwrap();
    assert_eq!(job.input, "/jobs/a/movie.mkv");
    assert_eq!(job.input_name, "movie.mkv");
    assert_eq!(job.preset, "/jobs/a/preset.json");
}

#[test]
fn pair_found_preset_first() {
    let job = scan_dir(&vec![file("/jobs/a", "preset.json"), file("/jobs/a", "movie.mkv")]).unwrap();
    assert_eq!(job.input, "/jobs/a/movie.mkv");
    assert_eq!(job.preset, "/jobs/a/preset.json");
}

#[test]
fn pair_found_among_other_files() {
    let job = scan_dir(&vec![
        file("/j", "readme.txt"),
        subdir("/j", "extras.mkv"),
        file("/j", "preset.json"),
        file("/j", "cover.jpg"),
        file("/j", "film.mkv"),
    ])
    .unwrap();
    assert_eq!(job.input, "/j/film.mkv");
    assert_eq!(job.preset, "/j/preset.json");
}

#[test]
fn lone_preset_yields_nothing() {
    assert!(scan_dir(&vec![file("/j", "preset.json"), file("/j", "notes.txt")]).is_none());
}

#[test]
fn lone_media_yields_nothing() {
    assert!(scan_dir(&vec![file("/j", "movie.mkv")]).is_none());
}

#[test]
fn empty_directory_yields_nothing() {
    assert!(scan_dir(&vec![]).is_none());
}

#[test]
fn two_media_files_first_is_paired() {
    let job = scan_dir(&vec![file("/j", "one.mkv"), file("/j", "two.mkv"), file("/j", "preset.json")])
        .unwrap();
    assert_eq!(job.input, "/j/one.mkv");
    assert_eq!(job.preset, "/j/preset.json");

    let job = scan_dir(&vec![file("/j", "one.mkv"), file("/j", "preset.json"), file("/j", "two.mkv")])
        .unwrap();
    assert_eq!(job.input, "/j/one.mkv");

    let job = scan_dir(&vec![file("/j", "preset.json"), file("/j", "two.mkv"), file("/j", "one.mkv")])
        .unwrap();
    assert_eq!(job.input, "/j/two.mkv");
}

#[test]
fn root_takes_first_directory_with_pair() {
    let dirs = vec![
        vec![file("/r/a", "movie.mkv")],
        vec![file("/r/b", "preset.json"), file("/r/b", "b.mkv")],
        vec![file("/r/c", "c.mkv"), file("/r/c", "preset.json")],
    ];
    let job = scan_root(&dirs).unwrap();
    assert_eq!(job.input, "/r/b/b.mkv");
    assert_eq!(job.preset, "/r/b/preset.json");
}

#[test]
fn root_pairs_do_not_cross_directories() {
    let dirs = vec![vec![file("/r/a", "movie.mkv")], vec![file("/r/b", "preset.json")]];
    assert!(scan_root(&dirs).is_none());
}

#[test]
fn rescan_without_changes_still_finds_nothing() {
    let dirs = vec![
        vec![file("/r/a", "movie.mkv"), file("/r/a", "notes.txt")],
        vec![file("/r/b", "preset.json")],
        vec![],
    ];
    assert!(scan_root(&dirs).is_none());
    assert!(scan_root(&dirs).is_none());
}

#[test]
fn root_without_directories_finds_nothing() {
    assert!(scan_root(&vec![]).is_none());
}
