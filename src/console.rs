use vstd::prelude::*;

verus! {

/// The line being typed at the bottom of the terminal, with a cursor.
///
/// Characters are inserted at the cursor, which stays where it is, and
/// removed from it.
pub struct Command {
    cursor: usize,
    buffer: Vec<char>,
}

impl Command {
    /// The characters typed so far.
    pub closed spec fn text(&self) -> Seq<char> {
        self.buffer@
    }

    /// The cursor, as a character index into the text.
    pub closed spec fn spec_cursor(&self) -> nat {
        self.cursor as nat
    }

    /// The cursor lies within the text or just after it.
    pub open spec fn wf(&self) -> bool {
        self.spec_cursor() <= self.text().len()
    }

    /// An empty line with the cursor at its start.
    pub fn new() -> (r: Command)
        ensures
            r.wf(),
            r.text() == Seq::<char>::empty(),
            r.spec_cursor() == 0,
    {
        Command { cursor: 0, buffer: Vec::new() }
    }

    /// Inserts `character` at the cursor.
    pub fn insert(&mut self, character: char)
        requires
            old(self).wf(),
        ensures
            final(self).wf(),
            final(self).text() == old(self).text().insert(old(self).spec_cursor() as int, character),
            final(self).spec_cursor() == old(self).spec_cursor(),
    {
        self.buffer.insert(self.cursor, character);
    }

    /// Removes the character at the cursor, if there is one.
    pub fn remove(&mut self)
        requires
            old(self).wf(),
        ensures
            final(self).wf(),
            final(self).text() == if old(self).spec_cursor() < old(self).text().len() {
                old(self).text().remove(old(self).spec_cursor() as int)
            } else {
                old(self).text()
            },
            final(self).spec_cursor() == old(self).spec_cursor(),
    {
        if self.cursor < self.buffer.len() {
            self.buffer.remove(self.cursor);
        }
    }

    /// Empties the line and moves the cursor to its start.
    pub fn clear(&mut self)
        ensures
            final(self).wf(),
            final(self).text() == Seq::<char>::empty(),
            final(self).spec_cursor() == 0,
    {
        self.cursor = 0;
        self.buffer.clear();
    }

    /// The characters typed so far.
    pub fn buffer(&self) -> (r: &Vec<char>)
        ensures
            r@ == self.text(),
    {
        &self.buffer
    }

    /// The cursor.
    pub fn cursor(&self) -> (r: usize)
        ensures
            r == self.spec_cursor(),
    {
        self.cursor
    }
}

/// The contents of the terminal's panes: the log lines and the command line.
pub struct Windows {
    logging: Vec<String>,
    command: Command,
}

impl Windows {
    /// The command line.
    pub closed spec fn spec_command(&self) -> Command {
        self.command
    }

    /// The number of log lines.
    pub closed spec fn log_len(&self) -> nat {
        self.logging@.len()
    }

    pub open spec fn wf(&self) -> bool {
        self.spec_command().wf()
    }

    /// Empty panes.
    pub fn new() -> (r: Windows)
        ensures
            r.wf(),
            r.log_len() == 0,
            r.spec_command().text() == Seq::<char>::empty(),
            r.spec_command().spec_cursor() == 0,
    {
        Windows { logging: Vec::new(), command: Command::new() }
    }

    /// The command line.
    pub fn command(&self) -> (r: &Command)
        ensures
            r == self.spec_command(),
    {
        &self.command
    }

    /// The log lines, oldest first.
    pub fn logging(&self) -> (r: &Vec<String>)
        ensures
            r@.len() == self.log_len(),
    {
        &self.logging
    }
}

/// Whether a key went down, repeated or came up.
#[derive(Clone, Copy, Debug, PartialEq, Eq, Structural)]
pub enum KeyKind {
    Press,
    Repeat,
    Release,
}

/// The keys the terminal front end reacts to.
#[derive(Clone, Copy, Debug, PartialEq, Eq, Structural)]
pub enum KeyCode {
    Char(char),
    Backspace,
    Enter,
    Esc,
    /// Any other key.
    Other,
}

/// The state of the terminal front end that input changes: its panes and
/// whether it has been asked to close.
pub struct Console {
    windows: Windows,
    should_close: bool,
}

impl Console {
    pub closed spec fn spec_windows(&self) -> Windows {
        self.windows
    }

    pub closed spec fn spec_should_close(&self) -> bool {
        self.should_close
    }

    pub open spec fn wf(&self) -> bool {
        self.spec_windows().wf()
    }

    /// Empty panes, not closing.
    pub fn new() -> (r: Console)
        ensures
            r.wf(),
            !r.spec_should_close(),
            r.spec_windows().log_len() == 0,
            r.spec_windows().spec_command().text() == Seq::<char>::empty(),
            r.spec_windows().spec_command().spec_cursor() == 0,
    {
        Console { windows: Windows::new(), should_close: false }
    }

    /// Whether the user asked to close.
    pub fn should_close(&self) -> (r: bool)
        ensures
            r == self.spec_should_close(),
    {
        self.should_close
    }

    /// The panes.
    pub fn windows(&self) -> (r: &Windows)
        ensures
            r == self.spec_windows(),
    {
        &self.windows
    }

    /// Reacts to one key event. Releases are ignored. A character is
    /// inserted into the command line, Backspace removes one, Enter clears
    /// the line, Esc asks to close; other keys do nothing.
    pub fn handle_key(&mut self, kind: KeyKind, code: KeyCode)
        requires
            old(self).wf(),
        ensures
            final(self).wf(),
            ({
                let before = old(self).spec_windows().spec_command();
                let after = final(self).spec_windows().spec_command();
                let closing = final(self).spec_should_close();
                let log_kept = final(self).spec_windows().log_len() == old(
                    self,
                ).spec_windows().log_len();
                let line_kept = after.text() == before.text() && after.spec_cursor()
                    == before.spec_cursor();
                &&& log_kept
                &&& if kind == KeyKind::Release {
                    line_kept && closing == old(self).spec_should_close()
                } else {
                    match code {
                        KeyCode::Char(c) => after.text() == before.text().insert(
                            before.spec_cursor() as int,
                            c,
                        ) && after.spec_cursor() == before.spec_cursor() && closing == old(
                            self,
                        ).spec_should_close(),
                        KeyCode::Backspace => after.text() == (if before.spec_cursor()
                            < before.text().len() {
                            before.text().remove(before.spec_cursor() as int)
                        } else {
                            before.text()
                        }) && after.spec_cursor() == before.spec_cursor() && closing == old(
                            self,
                        ).spec_should_close(),
                        KeyCode::Enter => after.text() == Seq::<char>::empty()
                            && after.spec_cursor() == 0 && closing == old(self).spec_should_close(),
                        KeyCode::Esc => line_kept && closing,
                        KeyCode::Other => line_kept && closing == old(self).spec_should_close(),
                    }
                }
            }),
    {
        match kind {
            KeyKind::Release => {},
            _ => match code {
                KeyCode::Char(character) => {
                    self.windows.command.insert(character);
                },
                KeyCode::Backspace => {
                    self.windows.command.remove();
                },
                KeyCode::Enter => {
                    self.windows.command.clear();
                },
                KeyCode::Esc => {
                    self.should_close = true;
                },
                KeyCode::Other => {},
            },
        }
    }
}

} // verus!
