use threefa_core::clipboard::{should_clear, CLIPBOARD_CLEAR_AFTER_SECONDS};
use threefa_core::storage::{
    data_dir, keep_first, temp_file_name, DataDir, Platform, UserDirs, WriteStep, PRIVATE_DIR_MODE,
    PRIVATE_FILE_MODE,
};
use threefa_core::text::decimal;
use threefa_core::VAULT_FILENAME;

fn dirs(home: Option<&str>, app_data: Option<&str>, xdg: Option<&str>) -> UserDirs {
    UserDirs {
        home: home.map(|s| s.to_string()),
        app_data: app_data.map(|s| s.to_string()),
        xdg_data_home: xdg.map(|s| s.to_string()),
    }
}

fn inside(base: &str, folder: &'static str) -> DataDir {
    DataDir::Inside { base: base.to_string(), folder }
}

#[test]
fn each_platform_has_its_data_directory() {
    let all = dirs(Some("/h"), Some("C:/a"), Some("/x"));
    assert_eq!(
        data_dir(Platform::MacOs, all.clone()),
        inside("/h", "Library/Application Support/3FA")
    );
    assert_eq!(data_dir(Platform::Windows, all.clone()), inside("C:/a", "3FA"));
    assert_eq!(data_dir(Platform::Linux, all.clone()), inside("/x", "3fa"));
    assert_eq!(data_dir(Platform::Other, all), DataDir::Current);
    assert_eq!(
        data_dir(Platform::Linux, dirs(Some("/h"), None, None)),
        inside("/h", ".local/share/3fa")
    );
    for platform in [Platform::MacOs, Platform::Windows, Platform::Linux] {
        assert_eq!(data_dir(platform, dirs(None, None, None)), DataDir::Current);
    }
}

#[test]
fn the_temporary_name_holds_file_and_process() {
    assert_eq!(VAULT_FILENAME, "default.vault");
    assert_eq!(
        temp_file_name(Some(VAULT_FILENAME), 4321),
        ".default.vault.tmp-4321"
    );
    assert_eq!(temp_file_name(None, 7), ".vault.tmp-7");
    assert_ne!(temp_file_name(Some("v"), 1), temp_file_name(Some("v"), 11));
}

#[test]
fn numbers_are_written_in_decimal() {
    assert_eq!(decimal(0), "0");
    assert_eq!(decimal(9), "9");
    assert_eq!(decimal(10), "10");
    assert_eq!(decimal(90210), "90210");
    assert_eq!(decimal(u64::MAX), "18446744073709551615");
}

fn walk(unix: bool, outcomes: &[bool]) -> Vec<WriteStep> {
    let mut step = WriteStep::first();
    let mut steps = vec![step];
    for outcome in outcomes {
        step = step.next(unix, *outcome);
        steps.push(step);
    }
    steps
}

#[test]
fn a_replacement_goes_through_the_temporary_file() {
    assert_eq!(
        walk(true, &[true, true, true, true, true]),
        vec![
            WriteStep::OpenTemp,
            WriteStep::RestrictTemp,
            WriteStep::WriteTemp,
            WriteStep::SyncTemp,
            WriteStep::ReplaceTarget,
            WriteStep::Done,
        ]
    );
    assert_eq!(
        walk(false, &[true, true, true, true]),
        vec![
            WriteStep::OpenTemp,
            WriteStep::WriteTemp,
            WriteStep::SyncTemp,
            WriteStep::ReplaceTarget,
            WriteStep::Done,
        ]
    );
}

#[test]
fn a_failed_replacement_removes_the_temporary_file() {
    for good in 0..4usize {
        let mut outcomes = vec![true; good];
        outcomes.push(false);
        let steps = walk(true, &outcomes);
        assert_eq!(steps[good + 1], WriteStep::RemoveTemp);
        assert_eq!(steps[good + 1].next(true, false), WriteStep::Failed);
        assert_eq!(steps[good + 1].next(true, true), WriteStep::Failed);
    }
    assert_eq!(WriteStep::ReplaceTarget.next(true, false), WriteStep::Failed);
    assert_eq!(WriteStep::Done.next(true, false), WriteStep::Done);
    assert_eq!(WriteStep::Failed.next(true, true), WriteStep::Failed);
}

#[test]
fn files_and_directory_are_private() {
    assert_eq!(PRIVATE_FILE_MODE, 0o600);
    assert_eq!(PRIVATE_DIR_MODE, 0o700);
}

#[test]
fn only_an_untouched_clipboard_is_cleared() {
    let code = "123456".to_string();
    assert!(should_clear(Some("123456".to_string()), &code));
    assert!(!should_clear(Some("other".to_string()), &code));
    assert!(!should_clear(None, &code));
    assert_eq!(CLIPBOARD_CLEAR_AFTER_SECONDS, 20);
}

#[test]
fn the_first_error_stands() {
    assert_eq!(keep_first(None, "write"), "write");
    assert_eq!(keep_first(Some("write"), "remove"), "write");
}
