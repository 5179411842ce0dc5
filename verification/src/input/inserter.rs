use vstd::prelude::*;

use crate::error::AppError;

verus! {

/// Where an insertion of text stands.
#[derive(PartialEq, Eq, Structural)]
pub enum InsertState {
    /// The text is being typed key by key.
    Typing,
    /// Typing failed; the text is being copied to the clipboard.
    Copying,
    /// The text is on the clipboard; a paste is being sent.
    Pasting,
    /// The insertion is over.
    Done,
}

/// What the insertion asks of its caller next.
pub enum InsertAction {
    /// Type the text directly, key by key.
    TypeDirect,
    /// Copy the text to the clipboard.
    CopyToClipboard,
    /// Send the paste shortcut.
    Paste,
    /// Stop, with this result.
    Finish(Result<(), AppError>),
}

/// The result of an insertion whose typing, copy and paste turn out as
/// `typed`, `copied` and `pasted`.
pub open spec fn insertion_result(
    typed: Result<(), AppError>,
    copied: Result<(), AppError>,
    pasted: Result<(), AppError>,
) -> Result<(), AppError> {
    if typed is Ok {
        Ok(())
    } else if copied is Err {
        copied
    } else {
        pasted
    }
}

/// Whether the outcome of the action that `state` stands for, together with
/// `state` itself, fits an insertion whose typing, copy and paste turn out
/// as `typed`, `copied` and `pasted`: in `Typing` the outcome is `typed`; in
/// `Copying` typing failed and the outcome is `copied`; in `Pasting` typing
/// failed, the copy worked and the outcome is `pasted`.
pub open spec fn outcomes_fit(
    state: InsertState,
    outcome: Result<(), AppError>,
    typed: Result<(), AppError>,
    copied: Result<(), AppError>,
    pasted: Result<(), AppError>,
) -> bool {
    match state {
        InsertState::Typing => typed == outcome,
        InsertState::Copying => typed is Err && copied == outcome,
        InsertState::Pasting => typed is Err && copied is Ok && pasted == outcome,
        InsertState::Done => false,
    }
}

/// Starts an insertion: the text is first typed directly.
pub fn begin_insert() -> (r: (InsertState, InsertAction))
    ensures
        r == (InsertState::Typing, InsertAction::TypeDirect),
{
    (InsertState::Typing, InsertAction::TypeDirect)
}

/// Advances an insertion of text by one step, given the outcome of the
/// action asked for last.
///
/// Typing the text directly comes first. If it fails, the text is copied to
/// the clipboard and pasted instead; an error of the copy or of the paste
/// ends the insertion with that error.
pub fn insert_text(state: InsertState, outcome: Result<(), AppError>) -> (r: (InsertState, InsertAction))
    requires
        state != InsertState::Done,
    ensures
        state == InsertState::Typing ==> if outcome is Ok {
            r.0 == InsertState::Done && r.1 is Finish
        } else {
            r.0 == InsertState::Copying && r.1 is CopyToClipboard
        },
        state == InsertState::Copying ==> if outcome is Ok {
            r.0 == InsertState::Pasting && r.1 is Paste
        } else {
            r.0 == InsertState::Done && r.1 is Finish
        },
        state == InsertState::Pasting ==> r.0 == InsertState::Done && r.1 is Finish,
        forall|
            typed: Result<(), AppError>,
            copied: Result<(), AppError>,
            pasted: Result<(), AppError>,
        |
            #![trigger insertion_result(typed, copied, pasted)]
            outcomes_fit(state, outcome, typed, copied, pasted) ==> (r.1 matches InsertAction::Finish(
                res,
            ) ==> res == insertion_result(typed, copied, pasted)),
{
    match state {
        InsertState::Typing => match outcome {
            Ok(()) => (InsertState::Done, InsertAction::Finish(Ok(()))),
            Err(_) => (InsertState::Copying, InsertAction::CopyToClipboard),
        },
        InsertState::Copying => match outcome {
            Ok(()) => (InsertState::Pasting, InsertAction::Paste),
            Err(e) => (InsertState::Done, InsertAction::Finish(Err(e))),
        },
        _ => (InsertState::Done, InsertAction::Finish(outcome)),
    }
}

/// The systems whose clipboard the application knows how to fill.
pub enum TargetOs {
    Windows,
    MacOs,
    Linux,
}

/// The command that puts its standard input on the clipboard of `os`.
pub fn get_clipboard_copy_command(os: TargetOs) -> (c: &'static str)
    ensures
        os is Windows ==> c@ == "clip"@,
        os is MacOs ==> c@ == "pbcopy"@,
        os is Linux ==> c@ == "xclip -selection clipboard"@,
{
    match os {
        TargetOs::Windows => "clip",
        TargetOs::MacOs => "pbcopy",
        TargetOs::Linux => "xclip -selection clipboard",
    }
}

} // verus!
