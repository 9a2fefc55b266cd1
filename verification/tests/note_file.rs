use noted::configuration::Configuration;
use noted::error::NoteErrorKind;
use noted::file_rolling::FileRolling;
use noted::note_file::NoteFile;

/// A directory holding the note files the locator tests look for.
fn make_note_dir() -> (tempfile::TempDir, Vec<tempfile::NamedTempFile>) {
    let dir = tempfile::tempdir().unwrap();
    let names = [
        "2021.md",
        "2021-01.md",
        "2021-02.md",
        "2021-04.md",
        "2021-04-02.md",
        "2021-04-03.md",
    ];
    let mut files = Vec::new();
    for name in names {
        files.push(
            tempfile::Builder::new()
                .prefix(name)
                .rand_bytes(0)
                .tempfile_in(dir.path())
                .unwrap(),
        );
    }
    (dir, files)
}

fn dir_string(dir: &tempfile::TempDir) -> String {
    dir.path().to_str().unwrap().to_string()
}

#[test]
fn when_custom_target_repository_specific_is_set_not_inside_repository_then_note_directory_is_used()
{
    let configuration = Configuration {
        use_repository_specific: true,
        file_rolling: FileRolling::Never,
        ..Default::default()
    };
    let target = NoteFile::custom_target("sample_not_inside_repo", &configuration);
    assert_eq!(
        format!("{}/sample_not_inside_repo.md", configuration.note_directory),
        target
    );
}

#[test]
fn custom_target_repository_specific_returns_note_directory() {
    let configuration = Configuration {
        use_repository_specific: true,
        file_rolling: FileRolling::Never,
        ..Default::default()
    };
    let target = NoteFile::custom_target("sample_not_inside_repo", &configuration);
    assert_eq!(
        format!("{}/sample_not_inside_repo.md", configuration.note_directory),
        target
    );
}

#[test]
fn when_custom_target_file_with_md_extension_is_used_then_md_not_appended() {
    let configuration = Configuration {
        file_rolling: FileRolling::Never,
        ..Default::default()
    };
    let target = NoteFile::custom_target("test.md", &configuration);
    assert_eq!(format!("{}/test.md", configuration.note_directory), target);
}

#[test]
fn when_custom_target_file_without_md_extension_is_used_then_md_is_appended() {
    let configuration = Configuration {
        file_rolling: FileRolling::Never,
        ..Default::default()
    };
    let target = NoteFile::custom_target("test", &configuration);
    assert_eq!(format!("{}/test.md", configuration.note_directory), target);
}

#[test]
fn when_custom_target_file_with_other_extension_is_used_then_md_is_appended() {
    let configuration = Configuration {
        file_rolling: FileRolling::Never,
        ..Default::default()
    };
    let target = NoteFile::custom_target("test.ini", &configuration);
    assert_eq!(format!("{}/test.ini.md", configuration.note_directory), target);
}

#[test]
fn when_custom_target_file_without_any_name_is_used_then_name_from_config_is_used() {
    let configuration = Configuration {
        file_rolling: FileRolling::Never,
        ..Default::default()
    };
    let target = NoteFile::custom_target("", &configuration);
    assert_eq!(format!("{}/notes.md", configuration.note_directory), target);
}

#[test]
fn find_by_filename() {
    let (dir, _files) = make_note_dir();
    let cur_dir = dir_string(&dir);
    match NoteFile::first_target_by_pattern("2021.md", &cur_dir) {
        Ok(res) => assert_eq!(format!("{}/{}", cur_dir, "2021.md"), res),
        Err(err) => panic!("should find by filename: {}", err.message()),
    }
}

#[test]
fn when_target_by_exact_filename_then_this_file_is_returned() {
    let (dir, _files) = make_note_dir();
    let cur_dir = dir_string(&dir);
    match NoteFile::first_target_by_pattern("2021.md", &cur_dir) {
        Ok(res) => assert_eq!(format!("{}/{}", cur_dir, "2021.md"), res),
        Err(err) => panic!("should find by filename: {}", err.message()),
    }
}

#[test]
fn find_by_filename_wildcard_single_file() {
    let (dir, _files) = make_note_dir();
    let cur_dir = dir_string(&dir);
    match NoteFile::first_target_by_pattern("*21.md", &cur_dir) {
        Ok(res) => assert_eq!(format!("{}/{}", cur_dir, "2021.md"), res),
        Err(err) => panic!("should return single file: {}", err.message()),
    }
}

#[test]
fn when_target_by_filename_wildcard_finds_single_file_then_single_file_is_returned() {
    let (dir, _files) = make_note_dir();
    let cur_dir = dir_string(&dir);
    match NoteFile::first_target_by_pattern("*21.md", &cur_dir) {
        Ok(res) => assert_eq!(format!("{}/{}", cur_dir, "2021.md"), res),
        Err(err) => panic!("should return single file: {}", err.message()),
    }
}

#[test]
fn find_by_filename_wildcard_no_char_before_ext() {
    let (dir, _files) = make_note_dir();
    let cur_dir = dir_string(&dir);
    match NoteFile::first_target_by_pattern("2021-01*", &cur_dir) {
        Ok(res) => assert_eq!(format!("{}/{}", cur_dir, "2021-01.md"), res),
        Err(err) => panic!("should find with wilcard extension: {}", err.message()),
    }
}

#[test]
fn when_target_by_filename_wildcard_no_char_before_ext_then_file_is_returned() {
    let (dir, _files) = make_note_dir();
    let cur_dir = dir_string(&dir);
    match NoteFile::first_target_by_pattern("2021-01*", &cur_dir) {
        Ok(res) => assert_eq!(format!("{}/{}", cur_dir, "2021-01.md"), res),
        Err(err) => panic!("should find with wilcard extension: {}", err.message()),
    }
}

#[test]
fn find_by_filename_wildcard_multiple_files_rolling_mix() {
    let (dir, _files) = make_note_dir();
    let cur_dir = dir_string(&dir);
    match NoteFile::first_target_by_pattern("2021-04*", &cur_dir) {
        Ok(res) => assert_eq!(format!("{}/{}", cur_dir, "2021-04-02.md"), res),
        Err(err) => panic!("should return first file: {}", err.message()),
    }
}

#[test]
fn when_target_by_filename_wildcard_finds_multiple_files_rolling_mix_then_first_file_is_returned() {
    let (dir, _files) = make_note_dir();
    let cur_dir = dir_string(&dir);
    match NoteFile::first_target_by_pattern("2021-04*", &cur_dir) {
        Ok(res) => assert_eq!(format!("{}/{}", cur_dir, "2021-04-02.md"), res),
        Err(err) => panic!("should return first file: {}", err.message()),
    }
}

#[test]
fn find_by_filename_wildcard_multiple_files_sorting() {
    let (dir, _files) = make_note_dir();
    let cur_dir = dir_string(&dir);
    match NoteFile::first_target_by_pattern("2021-0*", &cur_dir) {
        Ok(res) => assert_eq!(format!("{}/{}", cur_dir, "2021-01.md"), res),
        Err(err) => panic!(
            "should return first file based on filesystem sorting: {}",
            err.message()
        ),
    }
}

#[test]
fn when_target_by_filename_wildcard_finds_multiple_files_then_sorting_is_applied() {
    let (dir, _files) = make_note_dir();
    let cur_dir = dir_string(&dir);
    match NoteFile::first_target_by_pattern("2021-0*", &cur_dir) {
        Ok(res) => assert_eq!(format!("{}/{}", cur_dir, "2021-01.md"), res),
        Err(err) => panic!(
            "should return first file based on filesystem sorting: {}",
            err.message()
        ),
    }
}

#[test]
fn find_by_filename_wildcard_multiple_files() {
    let (dir, _files) = make_note_dir();
    let cur_dir = dir_string(&dir);
    match NoteFile::target_by_pattern("2021-04*", &cur_dir) {
        Ok(res) => assert_eq!(3, res.len()),
        Err(err) => panic!("should return 3 files based: {:?}", err.message()),
    }
}

#[test]
fn when_target_by_filename_wildcard_multiple_files_then_all_files_are_returned() {
    let (dir, _files) = make_note_dir();
    let cur_dir = dir_string(&dir);
    match NoteFile::target_by_pattern("2021-04*", &cur_dir) {
        Ok(res) => {
            assert_eq!(3, res.len());
            assert_eq!(format!("{}/2021-04-02.md", cur_dir), res[0]);
            assert_eq!(format!("{}/2021-04-03.md", cur_dir), res[1]);
            assert_eq!(format!("{}/2021-04.md", cur_dir), res[2]);
        }
        Err(err) => panic!("should return 3 files based: {:?}", err.message()),
    }
}

#[test]
fn empty_argument_returns_not_found_error() {
    let (dir, _files) = make_note_dir();
    let cur_dir = dir_string(&dir);
    match NoteFile::target_by_pattern("", &cur_dir) {
        Ok(_) => panic!("no argument should return error"),
        Err(err) => assert_eq!(NoteErrorKind::Other, err.kind()),
    }
}

#[test]
fn when_empty_argument_for_target_pattern_is_used_then_returns_not_found_error() {
    let (dir, _files) = make_note_dir();
    let cur_dir = dir_string(&dir);
    match NoteFile::target_by_pattern("", &cur_dir) {
        Ok(_) => panic!("no argument should return error"),
        Err(err) => assert_eq!(NoteErrorKind::Other, err.kind()),
    }
}

#[test]
fn no_matching_file_is_found_returns_none() {
    let (dir, _files) = make_note_dir();
    let cur_dir = dir_string(&dir);
    match NoteFile::target_by_pattern("05", &cur_dir) {
        Ok(_) => panic!("pattern not found should return error"),
        Err(err) => assert_eq!(NoteErrorKind::NotFound, err.kind()),
    }
}

#[test]
fn when_no_matching_file_by_target_pattern_is_found_then_returns_none() {
    let (dir, _files) = make_note_dir();
    let cur_dir = dir_string(&dir);
    match NoteFile::target_by_pattern("05", &cur_dir) {
        Ok(_) => panic!("pattern not found should return error"),
        Err(err) => assert_eq!(NoteErrorKind::NotFound, err.kind()),
    }
}

#[test]
fn when_search_takes_invalid_pattern_then_error_is_raised() {
    let dir = tempfile::tempdir().unwrap();
    match NoteFile::target_by_pattern("[", dir.path().to_str().unwrap()) {
        Ok(_) => panic!("should not be ok"),
        Err(err) => assert_eq!(NoteErrorKind::Other, err.kind()),
    }
}

#[test]
fn when_invalid_pattern_for_target_is_used_then_error_bubbles_up() {
    let dir = tempfile::tempdir().unwrap();
    match NoteFile::target_by_pattern("[", dir.path().to_str().unwrap()) {
        Ok(_) => panic!("should not be ok"),
        Err(err) => assert_eq!(NoteErrorKind::Other, err.kind()),
    }
}

#[test]
fn invalid_pattern() {
    let dir = tempfile::tempdir().unwrap();
    match NoteFile::target_by_pattern("[", dir.path().to_str().unwrap()) {
        Ok(_) => panic!("should not be ok"),
        Err(err) => assert_eq!(NoteErrorKind::Other, err.kind()),
    }
}

#[test]
fn invalid_pattern_bubble_up() {
    let dir = tempfile::tempdir().unwrap();
    match NoteFile::target_by_pattern("[", dir.path().to_str().unwrap()) {
        Ok(_) => panic!("should not be ok"),
        Err(err) => assert_eq!(NoteErrorKind::Other, err.kind()),
    }
}

#[test]
fn when_file_rolling_is_daily_then_daily_pattern_is_used() {
    let now = chrono::Local::now();
    let file_name = format!("{}.md", now.format("%Y-%m-%d"));
    let res = NoteFile::from_rolling(&FileRolling::Daily);
    assert_eq!(file_name, res.file);
}

#[test]
fn when_file_rolling_is_week_then_weekly_pattern_is_used() {
    let now = chrono::Local::now();
    let file_name = format!("{}.md", now.format("%Y-%W"));
    let res = NoteFile::from_rolling(&FileRolling::Week);
    assert_eq!(file_name, res.file);
}

#[test]
fn when_file_rolling_is_month_then_monthly_pattern_is_used() {
    let now = chrono::Local::now();
    let file_name = format!("{}.md", now.format("%Y-%m"));
    let res = NoteFile::from_rolling(&FileRolling::Month);
    assert_eq!(file_name, res.file);
}

#[test]
fn when_file_rolling_is_year_then_yearly_pattern_is_used() {
    let now = chrono::Local::now();
    let file_name = format!("{}.md", now.format("%Y"));
    let res = NoteFile::from_rolling(&FileRolling::Year);
    assert_eq!(file_name, res.file);
}

#[test]
fn when_file_rolling_is_never_then_fixed_name_is_used() {
    let res = NoteFile::from_rolling(&FileRolling::Never);
    assert_eq!("notes.md", res.file);
}

#[test]
fn when_user_directory_target_with_file_rolling_month_then_file_is_created() {
    let configuration = Configuration {
        file_rolling: FileRolling::Month,
        ..Default::default()
    };
    let now = chrono::Local::now();
    let file_name = format!("{}.md", now.format("%Y-%m"));
    let target = NoteFile::target(&configuration);
    assert!(target.starts_with("/"));
    assert!(target.ends_with(&file_name));
}

#[test]
fn user_directory_file_rolling_month() {
    let configuration = Configuration {
        file_rolling: FileRolling::Month,
        ..Default::default()
    };
    let now = chrono::Local::now();
    let file_name = format!("{}.md", now.format("%Y-%m"));
    let target = NoteFile::target(&configuration);
    assert!(target.starts_with(&configuration.note_directory));
    assert!(target.ends_with(&file_name));
}
