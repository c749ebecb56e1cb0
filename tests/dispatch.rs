use sheet_wizard::dispatch::{notice_title, outcome_message, script_command};

#[test]
fn outcome_messages() {
    assert_eq!(notice_title(), "Sheet Wizard");
    assert_eq!(outcome_message(true), "Processed successfully.");
    assert_eq!(outcome_message(false), "Processing failed, the file may not have changed.");
}

#[test]
fn script_command_line() {
    assert_eq!(
        script_command("sheets", "main.py"),
        "conda activate sheets && python main.py -m SheetWizard"
    );
}
