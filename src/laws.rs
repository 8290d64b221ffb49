use vstd::prelude::*;
use crate::buffer::{apply_edits, EditAction};
use crate::editor::{command_for, edit_messages, empty_buffer, run, step, EditorView, Message};
use crate::error::Error;

verus! {

/// Edits handled one message at a time leave the buffer that folding the edits over
/// the starting buffer gives. The buffer thus depends on the edits and the starting
/// buffer alone: replaying the same edits from the same buffer gives the same buffer.
/// Edits never change the document's file and ask for no file work.
pub proof fn lemma_edits_fold(e: EditorView, other: EditorView, actions: Seq<EditAction>)
    ensures
        forall|s: EditorView, a: EditAction| #[trigger] command_for(s, Message::Edit(a)) is Nothing,
        run(e, edit_messages(actions)).buffer == apply_edits(e.buffer, actions),
        run(e, edit_messages(actions)).path == e.path,
        other.buffer == e.buffer ==> run(other, edit_messages(actions)).buffer == run(
            e,
            edit_messages(actions),
        ).buffer,
    decreases actions.len(),
{
    if actions.len() > 0 {
        lemma_edits_fold(e, other, actions.drop_last());
        assert(edit_messages(actions).drop_last() =~= edit_messages(actions.drop_last()));
    }
}

/// An edit clears the last failure.
pub proof fn lemma_edit_clears_error(e: EditorView, a: EditAction)
    ensures
        step(e, Message::Edit(a)).error is None,
{
}

/// A new document has no file and an empty buffer, whatever came before.
pub proof fn lemma_new_resets(e: EditorView)
    ensures
        step(e, Message::New).path is None,
        step(e, Message::New).buffer == empty_buffer(),
{
}

/// A failed load or save changes the last failure at most: never the file nor the buffer.
pub proof fn lemma_failure_keeps_document(e: EditorView, err: Error)
    ensures
        step(e, Message::FileOpened(Err(err))) == (EditorView {
            error: step(e, Message::FileOpened(Err(err))).error,
            ..e
        }),
        step(e, Message::FileSaved(Err(err))) == (EditorView {
            error: step(e, Message::FileSaved(Err(err))).error,
            ..e
        }),
{
}

/// Asking to open a file and then closing the dialog leaves the editor as it was,
/// the last failure included.
pub proof fn lemma_cancelled_open_keeps_state(e: EditorView)
    ensures
        step(step(e, Message::Open), Message::FileOpened(Err(Error::DialogClosed))) == e,
{
}

} // verus!
