use noted::configuration::Configuration;
use noted::file_rolling::FileRolling;
use noted::note_template::NoteTemplate;

#[test]
fn when_configuration_default_called_then_default_configuration_is_returned() {
    let configuration = Configuration::default();
    assert_eq!(FileRolling::Daily, configuration.file_rolling);
    assert_eq!(
        Configuration::intial_note_directory(),
        configuration.note_directory
    );
    assert_eq!("%F %T", configuration.note_template.date_format);
    assert_eq!(
        "%date_format%\n\n%note%\n\n%tags%",
        configuration.note_template.template
    );
    assert!(!configuration.use_repository_specific);
}

#[test]
fn configuration_when_configuration_default_called_then_default_configuration_is_returned() {
    let configuration = Configuration::default();
    assert_eq!(FileRolling::Daily, configuration.file_rolling);
    assert_eq!(
        Configuration::intial_note_directory(),
        configuration.note_directory
    );
    assert_eq!("%F %T", configuration.note_template.date_format);
    assert_eq!(
        "%date_format%\n\n%note%\n\n%tags%",
        configuration.note_template.template
    );
    assert!(!configuration.use_repository_specific);
}

#[test]
fn default_configuration() {
    let configuration = Configuration::default();
    assert_eq!(FileRolling::Daily, configuration.file_rolling);
    assert_eq!(
        Configuration::intial_note_directory(),
        configuration.note_directory
    );
    assert_eq!(
        NoteTemplate::initial_file_path().unwrap(),
        configuration.template_file
    );
    assert_eq!("%F %T", configuration.note_template.date_format);
    assert_eq!(
        "%date_format%\n\n%note%\n\n%tags%",
        configuration.note_template.template
    );
    assert!(!configuration.use_repository_specific);
}

fn sample_configuration() -> Configuration {
    let mut configuration = Configuration::default();
    configuration.note_directory = "/home/vscode".to_string();
    configuration.template_file = "home/vscode/.config/noted/notedtemplate.md".to_string();
    configuration
}

#[test]
fn configuration_renders_as_key_value_lines() {
    let text = sample_configuration().to_text();
    let lines: Vec<&str> = text.lines().collect();
    assert_eq!("NOTE_DIRECTORY=/home/vscode", lines[0]);
    assert_eq!("USE_REPOSITORY_SPECIFIC=false", lines[1]);
    assert_eq!("FILE_ROLLING=Daily", lines[2]);
    assert_eq!("DATE_FORMAT=%F %T", lines[3]);
    assert_eq!(
        "NOTE_TEMPLATE_FILE=home/vscode/.config/noted/notedtemplate.md",
        lines[4]
    );
}

#[test]
fn configuration_is_parsed_from_file_lines() {
    let lines = vec![
        "NOTE_DIRECTORY=\"/home/vscode\"".to_string(),
        "USE_REPOSITORY_SPECIFIC=true".to_string(),
        "FILE_ROLLING=Month".to_string(),
        "DATE_FORMAT=%Y-%m-%d".to_string(),
        "NOTE_TEMPLATE_FILE=/tmp/noted.template".to_string(),
        "no key value pair on this line".to_string(),
    ];
    let configuration = Configuration::from_lines(&lines);
    assert_eq!("/home/vscode", configuration.note_directory);
    assert!(configuration.use_repository_specific);
    assert_eq!(FileRolling::Month, configuration.file_rolling);
    assert_eq!("%Y-%m-%d", configuration.note_template.date_format);
    assert_eq!("/tmp/noted.template", configuration.template_file);
    assert_eq!(
        "%date_format%\n\n%note%\n\n%tags%",
        configuration.note_template.template
    );
}

#[test]
fn configuration_round_trip_through_file_text() {
    let configuration = sample_configuration();
    let text = configuration.to_text();
    let lines: Vec<String> = text.lines().map(|l| l.to_string()).collect();
    let parsed = Configuration::from_lines(&lines);
    assert_eq!(configuration.note_directory, parsed.note_directory);
    assert_eq!(
        configuration.use_repository_specific,
        parsed.use_repository_specific
    );
    assert_eq!(configuration.file_rolling, parsed.file_rolling);
    assert_eq!(
        configuration.note_template.date_format,
        parsed.note_template.date_format
    );
    assert_eq!(configuration.template_file, parsed.template_file);
}

#[test]
fn configuration_file_path_is_under_the_configuration_folder() {
    let path = Configuration::file_path().unwrap();
    assert!(path.ends_with("noted/noted.config"));
    assert!(path.ends_with(".config"));
    let folder = Configuration::folder().unwrap();
    assert!(path.starts_with(&folder));
}

#[test]
fn template_file_path_is_under_the_configuration_folder() {
    let path = NoteTemplate::initial_file_path().unwrap();
    assert!(path.ends_with("noted/noted.template"));
    let folder = Configuration::folder().unwrap();
    assert!(path.starts_with(&folder));
}
