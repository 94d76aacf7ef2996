//! Rendering a PDF: first under a temporary name, then renamed, then checked.

use vstd::prelude::*;
use crate::ports::PdfError;
use crate::text;

verus! {

/// The name that a PDF has while it is rendered.
pub fn temporary_name(file_name: &str) -> (r: String)
    ensures
        r@ == file_name@ + ".tmp"@,
{
    text::concat2(file_name, ".tmp")
}

/// The error for an output path without a file name.
pub fn no_file_name() -> (r: PdfError)
    ensures
        r.text() == "render: "@ + "output path has no file name"@,
{
    PdfError::Render("output path has no file name".to_string())
}

/// What has been done to a PDF.
pub enum PdfEvent {
    /// It was rendered under its temporary name, or not.
    Rendered(Result<(), String>),
    /// It was renamed, or not.
    Renamed(Result<(), String>),
    /// It was looked for under its final name.
    Looked(bool),
    /// Its first five bytes were read, or not.
    Read(Result<Vec<u8>, String>),
}

/// What is to be done next.
pub enum PdfAction {
    /// Rename the temporary file.
    Rename,
    /// Look for the file under its final name.
    Look,
    /// Read its first five bytes.
    Read,
    /// The PDF is there.
    Finish,
    /// Fail, and remove the temporary file where it may still be there.
    Fail { error: PdfError, remove_temporary: bool },
}

/// The bytes that every PDF starts with.
pub open spec fn magic() -> Seq<u8> {
    seq![37u8, 80u8, 68u8, 70u8, 45u8]
}

/// Whether the bytes are those that every PDF starts with.
pub fn is_magic(head: &Vec<u8>) -> (r: bool)
    ensures
        r == (head@ == magic()),
{
    let same = head.len() == 5 && head[0] == 37u8 && head[1] == 80u8 && head[2] == 68u8 && head[3]
        == 70u8 && head[4] == 45u8;
    if same {
        assert(head@ =~= magic());
    }
    same
}

/// An error with the message of a failed step.
pub open spec fn fails_with(action: PdfAction, message: Seq<char>, remove: bool) -> bool {
    action matches PdfAction::Fail { error, remove_temporary } && error.text() == "render: "@
        + message && remove_temporary == remove
}

/// The action that a step leads to.
pub open spec fn leads_to(event: PdfEvent, action: PdfAction) -> bool {
    match event {
        PdfEvent::Rendered(Ok(_)) => action is Rename,
        PdfEvent::Rendered(Err(e)) => fails_with(action, e@, true),
        PdfEvent::Renamed(Ok(_)) => action is Look,
        PdfEvent::Renamed(Err(e)) => fails_with(action, e@, true),
        PdfEvent::Looked(found) => if found {
            action is Read
        } else {
            fails_with(action, "expected pdf path missing after render"@, false)
        },
        PdfEvent::Read(Err(e)) => fails_with(action, e@, false),
        PdfEvent::Read(Ok(head)) => if head@ == magic() {
            action is Finish
        } else {
            fails_with(action, "output is not a valid PDF (missing %PDF- magic)"@, false)
        },
    }
}

/// What is to be done after a step.
pub fn next_action(event: PdfEvent) -> (r: PdfAction)
    ensures
        leads_to(event, r),
{
    match event {
        PdfEvent::Rendered(Ok(_)) => PdfAction::Rename,
        PdfEvent::Rendered(Err(e)) => PdfAction::Fail {
            error: PdfError::Render(e),
            remove_temporary: true,
        },
        PdfEvent::Renamed(Ok(_)) => PdfAction::Look,
        PdfEvent::Renamed(Err(e)) => PdfAction::Fail {
            error: PdfError::Render(e),
            remove_temporary: true,
        },
        PdfEvent::Looked(found) => {
            if found {
                PdfAction::Read
            } else {
                PdfAction::Fail {
                    error: PdfError::Render("expected pdf path missing after render".to_string()),
                    remove_temporary: false,
                }
            }
        },
        PdfEvent::Read(Err(e)) => PdfAction::Fail {
            error: PdfError::Render(e),
            remove_temporary: false,
        },
        PdfEvent::Read(Ok(head)) => {
            if is_magic(&head) {
                PdfAction::Finish
            } else {
                PdfAction::Fail {
                    error: PdfError::Render(
                        "output is not a valid PDF (missing %PDF- magic)".to_string(),
                    ),
                    remove_temporary: false,
                }
            }
        },
    }
}

} // verus!
