use vstd::prelude::*;
use vstd::string::StringExecFns;
use crate::buffer::{apply_edit, apply_edits, Buffer, BufferView, EditAction};
use crate::error::{Error, IoKind};
use crate::laws::lemma_edits_fold;

verus! {

/// An event handed to the editor.
#[derive(Debug)]
pub enum Message {
    /// The user edited the buffer.
    Edit(EditAction),
    /// The user asked to open a file.
    Open,
    /// Reading a file finished: its path and text, or the failure.
    FileOpened(Result<(String, String), Error>),
    /// The user asked for a new, empty document.
    New,
    /// The user asked to save the buffer.
    Save,
    /// Writing the buffer finished: the path written, or the failure.
    FileSaved(Result<String, Error>),
}

/// File work the editor asks for; its outcome comes back as a message.
#[derive(Debug, Clone)]
pub enum Command {
    /// Nothing to do.
    Nothing,
    /// Read the file at this path.
    Load(String),
    /// Let the user pick a file, then read it.
    PickAndLoad,
    /// Write this text to this path.
    Write(String, String),
    /// Let the user pick a path, then write this text to it.
    SaveAs(String),
}

/// A command with its strings seen as character sequences.
pub enum CommandView {
    Nothing,
    Load(Seq<char>),
    PickAndLoad,
    Write(Seq<char>, Seq<char>),
    SaveAs(Seq<char>),
}

/// What the status line shows.
#[derive(Debug, Clone)]
pub enum Status {
    /// The last file operation failed in the file system.
    Failure(IoKind),
    /// The document's file.
    File(String),
    /// The document has no file yet.
    NewFile,
}

/// The document being edited: its file, its buffer and the last failure.
pub struct Editor {
    path: Option<String>,
    content: Buffer,
    error: Option<Error>,
}

/// The abstract editor: the document's file, its buffer and the last failure to show.
pub struct EditorView {
    pub path: Option<Seq<char>>,
    pub buffer: BufferView,
    pub error: Option<Error>,
}

/// A path seen as a character sequence.
pub open spec fn path_view(p: Option<String>) -> Option<Seq<char>> {
    match p {
        Some(s) => Some(s@),
        None => None,
    }
}

impl View for Command {
    type V = CommandView;

    open spec fn view(&self) -> CommandView {
        match self {
            Command::Nothing => CommandView::Nothing,
            Command::Load(p) => CommandView::Load(p@),
            Command::PickAndLoad => CommandView::PickAndLoad,
            Command::Write(p, t) => CommandView::Write(p@, t@),
            Command::SaveAs(t) => CommandView::SaveAs(t@),
        }
    }
}

impl View for Editor {
    type V = EditorView;

    closed spec fn view(&self) -> EditorView {
        EditorView { path: path_view(self.path), buffer: self.content@, error: self.error }
    }
}

/// The file opened at startup: the program's main source file under directory `dir`.
pub open spec fn default_path(dir: Seq<char>) -> Seq<char> {
    dir + "/src/main.rs"@
}

/// An empty buffer, the cursor at its start.
pub open spec fn empty_buffer() -> BufferView {
    BufferView { text: Seq::empty(), cursor: 0, anchor: None, goal: None }
}

/// The last failure after an operation failed with `e`: a closed dialog leaves it as it was.
pub open spec fn after_failure(previous: Option<Error>, e: Error) -> Option<Error> {
    match e {
        Error::DialogClosed => previous,
        Error::IO(kind) => Some(Error::IO(kind)),
    }
}

/// The editor after handling message `m`.
pub open spec fn step(e: EditorView, m: Message) -> EditorView {
    match m {
        Message::Edit(a) => EditorView { buffer: apply_edit(e.buffer, a), error: None, ..e },
        Message::Open => e,
        Message::FileOpened(Ok((p, t))) => EditorView {
            path: Some(p@),
            buffer: BufferView { text: t@, cursor: 0, anchor: None, goal: None },
            error: None,
        },
        Message::FileOpened(Err(err)) => EditorView { error: after_failure(e.error, err), ..e },
        Message::New => EditorView { path: None, buffer: empty_buffer(), ..e },
        Message::Save => e,
        Message::FileSaved(Ok(p)) => EditorView { path: Some(p@), error: None, ..e },
        Message::FileSaved(Err(err)) => EditorView { error: after_failure(e.error, err), ..e },
    }
}

/// The file work asked for when the editor in state `e` handles message `m`.
pub open spec fn command_for(e: EditorView, m: Message) -> CommandView {
    match m {
        Message::Open => CommandView::PickAndLoad,
        Message::Save => match e.path {
            Some(p) => CommandView::Write(p, e.buffer.text),
            None => CommandView::SaveAs(e.buffer.text),
        },
        _ => CommandView::Nothing,
    }
}

/// The editor after handling the messages of `ms`, from first to last.
pub open spec fn run(e: EditorView, ms: Seq<Message>) -> EditorView
    decreases ms.len(),
{
    if ms.len() == 0 {
        e
    } else {
        step(run(e, ms.drop_last()), ms.last())
    }
}

/// The messages that carry the edits of `actions`, in order.
pub open spec fn edit_messages(actions: Seq<EditAction>) -> Seq<Message> {
    actions.map_values(|a: EditAction| Message::Edit(a))
}

/// The file opened at startup: the program's main source file under directory `dir`.
/// The path is absolute when `dir` is.
pub fn default_file(dir: &str) -> (r: String)
    ensures
        r@ == default_path(dir@),
        dir@.len() > 0 && dir@[0] == '/' ==> r@[0] == '/',
{
    dir.to_owned().concat("/src/main.rs")
}

fn clone_path(p: &Option<String>) -> (r: Option<String>)
    ensures
        path_view(r) == path_view(*p),
{
    match p {
        Some(s) => Some(s.clone()),
        None => None,
    }
}

impl Editor {
    /// An empty, unnamed document, and the command that reads the file at `default` into it.
    pub fn new(default: String) -> (r: (Editor, Command))
        ensures
            r.0@.path is None,
            r.0@.buffer == empty_buffer(),
            r.0@.error is None,
            r.1@ == CommandView::Load(default@),
    {
        (Editor { path: None, content: Buffer::new(), error: None }, Command::Load(default))
    }

    /// The window title.
    pub fn title(&self) -> (r: String)
        ensures
            r@ == "Crab!"@,
    {
        "Crab!".to_owned()
    }

    /// Handles one message and returns the file work it asks for.
    pub fn update(&mut self, message: Message) -> (r: Command)
        ensures
            final(self)@ == step(old(self)@, message),
            r@ == command_for(old(self)@, message),
    {
        match message {
            Message::Edit(action) => {
                self.content.edit(action);
                self.error = None;
                Command::Nothing
            },
            Message::Open => Command::PickAndLoad,
            Message::FileOpened(Ok((path, text))) => {
                self.path = Some(path);
                self.content = Buffer::with(text.as_str());
                self.error = None;
                Command::Nothing
            },
            Message::FileOpened(Err(error)) => {
                self.fail(error);
                Command::Nothing
            },
            Message::New => {
                self.path = None;
                self.content = Buffer::new();
                Command::Nothing
            },
            Message::Save => match &self.path {
                Some(path) => Command::Write(path.clone(), self.content.text()),
                None => Command::SaveAs(self.content.text()),
            },
            Message::FileSaved(Ok(path)) => {
                self.path = Some(path);
                self.error = None;
                Command::Nothing
            },
            Message::FileSaved(Err(error)) => {
                self.fail(error);
                Command::Nothing
            },
        }
    }

    /// Handles the edits of `actions` one message at a time, from first to last.
    pub fn replay(&mut self, actions: Vec<EditAction>)
        ensures
            final(self)@ == run(old(self)@, edit_messages(actions@)),
            final(self)@.buffer == apply_edits(old(self)@.buffer, actions@),
            final(self)@.path == old(self)@.path,
            actions@.len() > 0 ==> final(self)@.error is None,
    {
        let ghost all = actions@;
        let ghost start = self@;
        let mut rest = actions;
        let n = rest.len();
        let mut pending: Vec<EditAction> = Vec::new();
        while rest.len() > 0
            invariant
                n == all.len(),
                rest@ == all.take(rest.len() as int),
                pending.len() == n - rest.len(),
                forall|j: int| 0 <= j < pending.len() ==> pending@[j] == all[n - 1 - j],
            decreases rest.len(),
        {
            let last = rest.pop().unwrap();
            pending.push(last);
            proof { assert(rest@ =~= all.take(rest.len() as int)); }
        }
        let mut i: usize = 0;
        while i < n
            invariant
                n == all.len(),
                i <= n,
                pending.len() == n - i,
                forall|j: int| 0 <= j < pending.len() ==> pending@[j] == all[n - 1 - j],
                self@ == run(start, edit_messages(all.take(i as int))),
                i > 0 ==> self@.error is None,
            decreases n - i,
        {
            let action = pending.pop().unwrap();
            proof {
                assert(action == all[i as int]);
                assert(edit_messages(all.take(i + 1)).drop_last() =~= edit_messages(all.take(i as int)));
                assert(edit_messages(all.take(i + 1)).last() == Message::Edit(action));
            }
            self.update(Message::Edit(action));
            i += 1;
        }
        proof {
            assert(all.take(n as int) =~= all);
            lemma_edits_fold(start, start, all);
        }
    }

    /// Records a failed operation; a closed dialog is no failure to show.
    fn fail(&mut self, error: Error)
        ensures
            final(self)@ == (EditorView { error: after_failure(old(self)@.error, error), ..old(self)@ }),
    {
        if error.is_io() {
            self.error = Some(error);
        }
    }

    /// The document's file, if it has one.
    pub fn path(&self) -> (r: Option<String>)
        ensures
            path_view(r) == self@.path,
    {
        clone_path(&self.path)
    }

    /// The last failure that is still to be shown.
    pub fn error(&self) -> (r: Option<Error>)
        ensures
            r == self@.error,
    {
        self.error
    }

    /// The buffer's text.
    pub fn text(&self) -> (r: String)
        ensures
            r@ == self@.buffer.text,
    {
        self.content.text()
    }

    /// The buffer.
    pub fn buffer(&self) -> (r: &Buffer)
        ensures
            r@ == self@.buffer,
    {
        &self.content
    }

    /// What the status line shows: a file system failure first, else the file, if any.
    pub fn status(&self) -> (r: Status)
        ensures
            match self@.error {
                Some(Error::IO(k)) => r == Status::Failure(k),
                _ => match self@.path {
                    Some(p) => r matches Status::File(q) && q@ == p,
                    None => r is NewFile,
                },
            },
    {
        match self.error {
            Some(Error::IO(kind)) => Status::Failure(kind),
            _ => match &self.path {
                Some(p) => Status::File(p.clone()),
                None => Status::NewFile,
            },
        }
    }
}

} // verus!
