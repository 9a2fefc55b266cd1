use noted::SearchArguments;
use noted::command::Command;
use noted::command::Effect;
use noted::configuration::Configuration;
use noted::error::NoteErrorKind;
use noted::file_rolling::FileRolling;

fn never_rolling_configuration(note_directory: &str) -> Configuration {
    Configuration {
        note_directory: note_directory.to_string(),
        file_rolling: FileRolling::Never,
        ..Default::default()
    }
}

#[test]
fn config(){
    let dir = tempfile::tempdir().unwrap();
    let configuration = never_rolling_configuration(dir.path().to_str().unwrap());
    let command = Command::Config;
    match command.invoke(&configuration) {
        Effect::OpenFile { path } => {
            let expected_config_path = Configuration::file_path().unwrap();
            assert!(path.ends_with(".config"));
            assert_eq!(expected_config_path, path);
        }
        other => panic!("Command Config Error: {:?}", other),
    }
}

#[test]
fn when_command_config_is_invoked_then_config_file_is_opened() {
    let dir = tempfile::tempdir().unwrap();
    let configuration = never_rolling_configuration(dir.path().to_str().unwrap());
    let command = Command::Config;
    match command.invoke(&configuration) {
        Effect::OpenFile { path } => {
            let expected_config_path = Configuration::file_path().unwrap();
            assert!(path.ends_with(".config"));
            assert_eq!(expected_config_path, path);
        }
        other => panic!("Command Config Error: {:?}", other),
    }
}

#[test]
fn note_command_renders_the_note_for_the_current_target() {
    let dir = tempfile::tempdir().unwrap();
    let configuration = never_rolling_configuration(dir.path().to_str().unwrap());
    let command = Command::Note {
        open_after_write: false,
        note: "Sample Note".to_string(),
        tags: Vec::new(),
    };
    match command.invoke(&configuration) {
        Effect::Append {
            path,
            content,
            open_after_write,
        } => {
            assert!(!open_after_write);
            assert_eq!(
                format!("{}/notes.md", dir.path().to_str().unwrap()),
                path
            );
            assert!(content.contains("Sample Note"));
            assert!(content.ends_with("\n\n---\n"));
        }
        other => panic!("Command Note Error: {:?}", other),
    }
}

#[test]
fn create_command_appends_an_empty_note_to_the_named_file() {
    let dir = tempfile::tempdir().unwrap();
    let configuration = never_rolling_configuration(dir.path().to_str().unwrap());
    let command = Command::Create {
        filename: "my-custom-file".to_string(),
    };
    match command.invoke(&configuration) {
        Effect::Append {
            path,
            content,
            open_after_write,
        } => {
            assert!(open_after_write);
            assert_eq!(
                format!("{}/my-custom-file.md", dir.path().to_str().unwrap()),
                path
            );
            assert!(content.ends_with("---\n"));
        }
        other => panic!("Command Create Error: {:?}", other),
    }
}

#[test]
fn open_command_without_a_match_fails_with_not_found() {
    let dir = tempfile::tempdir().unwrap();
    let configuration = never_rolling_configuration(dir.path().to_str().unwrap());
    let command = Command::Open {
        filename: Some("nothing-here*".to_string()),
    };
    match command.invoke(&configuration) {
        Effect::Fail { error } => assert_eq!(NoteErrorKind::NotFound, error.kind()),
        other => panic!("expected a failure, got: {:?}", other),
    }
}

#[test]
fn search_command_carries_the_arguments_through() {
    let dir = tempfile::tempdir().unwrap();
    let configuration = never_rolling_configuration(dir.path().to_str().unwrap());
    let command = Command::Search {
        tag: true,
        pattern: "xyz*".to_string(),
        file_pattern: Some("*samplefile*".to_string()),
        output_to_file: false,
    };
    match command.invoke(&configuration) {
        Effect::RunSearch {
            arguments,
            output_to_file,
        } => {
            assert!(!output_to_file);
            assert_eq!(
                SearchArguments {
                    regex: "xyz*".to_string(),
                    tags_only: true,
                    file_regex: Some("*samplefile*".to_string()),
                },
                arguments
            );
        }
        other => panic!("Command Search Error: {:?}", other),
    }
}
