//! What a completed edit session hands to the script runner and the notifier.

use vstd::prelude::*;

verus! {

/// The title of every outcome notice.
pub open spec fn notice_title_text() -> Seq<char> {
    "Sheet Wizard"@
}

/// The message shown after the processing script ran.
pub open spec fn outcome_text(success: bool) -> Seq<char> {
    if success {
        "Processed successfully."@
    } else {
        "Processing failed, the file may not have changed."@
    }
}

/// The command line that activates the environment and runs the script.
pub open spec fn command_text(env_name: Seq<char>, script_filename: Seq<char>) -> Seq<char> {
    "conda activate "@ + env_name + " && python "@ + script_filename + " -m SheetWizard"@
}

/// The title of every outcome notice.
pub fn notice_title() -> (r: String)
    ensures
        r@ == notice_title_text(),
{
    String::from_str("Sheet Wizard")
}

/// The message that reports whether the processing script succeeded.
pub fn outcome_message(success: bool) -> (r: String)
    ensures
        r@ == outcome_text(success),
{
    if success {
        String::from_str("Processed successfully.")
    } else {
        String::from_str("Processing failed, the file may not have changed.")
    }
}

/// The shell command that runs `script_filename` in the environment `env_name`.
pub fn script_command(env_name: &str, script_filename: &str) -> (r: String)
    ensures
        r@ == command_text(env_name@, script_filename@),
{
    let mut c = String::from_str("conda activate ");
    c.append(env_name);
    c.append(" && python ");
    c.append(script_filename);
    c.append(" -m SheetWizard");
    c
}

} // verus!
