use vstd::prelude::*;
use vstd::string::*;

use crate::args::OutputFormat;
use crate::completeness::{classify_input, completeness_of, Completeness, CompletenessView};
use crate::directive::{directives_of, parse_directives, Directives};

verus! {

/// Where the interactive session stands.
#[derive(Debug, Clone, Copy, PartialEq, Eq, Structural)]
pub enum SessionState {
    /// Waiting for the first line of a statement.
    Prompting,
    /// Waiting for more lines of an incomplete statement.
    Accumulating,
    /// A statement is running.
    Executing,
    /// The outcome of a statement is being shown.
    Rendering,
    /// No more input will come.
    Exit,
}

/// What the session asks for after a line of input.
#[derive(Debug, Clone, PartialEq, Eq)]
pub enum Step {
    /// Nothing was typed: prompt again.
    Prompt,
    /// The statement goes on: prompt for more with a continuation cue.
    Continue,
    /// Run this statement.
    Execute(Directives),
}

/// The state of the interactive shell, from start to exit.
pub struct Session {
    state: SessionState,
    buffer: String,
    submitted: String,
    default_format: OutputFormat,
    history: Vec<String>,
}

/// The model of `Session`.
pub struct SessionView {
    pub state: SessionState,
    /// The input accumulated for the statement being typed.
    pub buffer: Seq<char>,
    /// The text of the statement last submitted.
    pub submitted: Seq<char>,
    /// The output format when a statement names none.
    pub default_format: OutputFormat,
    /// The submitted statements not yet written to persistent history.
    pub history: Seq<Seq<char>>,
}

impl View for Session {
    type V = SessionView;

    closed spec fn view(&self) -> SessionView {
        SessionView {
            state: self.state,
            buffer: self.buffer@,
            submitted: self.submitted@,
            default_format: self.default_format,
            history: self.history@.map_values(|s: String| s@),
        }
    }
}

impl Session {
    /// A session waiting for its first statement.
    pub fn new(default_format: OutputFormat) -> (r: Session)
        ensures
            r@.state == SessionState::Prompting,
            r@.buffer.len() == 0,
            r@.submitted.len() == 0,
            r@.default_format == default_format,
            r@.history.len() == 0,
    {
        let r = Session {
            state: SessionState::Prompting,
            buffer: String::new(),
            submitted: String::new(),
            default_format,
            history: Vec::new(),
        };
        assert(r@.history =~= Seq::<Seq<char>>::empty());
        r
    }

    pub fn state(&self) -> (r: SessionState)
        ensures
            r == self@.state,
    {
        self.state
    }

    /// The submitted statements not yet written to persistent history.
    pub fn history(&self) -> (r: &Vec<String>)
        ensures
            r@.map_values(|s: String| s@) == self@.history,
    {
        &self.history
    }

    /// Takes one line of input. The line is added to what was accumulated, with
    /// nothing in between, and the whole is classified: nothing typed prompts
    /// again; an incomplete statement waits for more; a complete one, with its
    /// directives resolved, is handed out to run, and the buffer starts afresh.
    /// A caller whose line editor drops line breaks passes the break that ends
    /// the previous line at the front of a continuation line, so that the lines
    /// of a statement stay apart and an empty continuation line ends it.
    pub fn on_line(&mut self, line: &str) -> (r: Step)
        requires
            old(self)@.state == SessionState::Prompting || old(self)@.state
                == SessionState::Accumulating,
        ensures
            final(self)@.default_format == old(self)@.default_format,
            final(self)@.history == old(self)@.history,
            ({
                let text = old(self)@.buffer + line@;
                match completeness_of(text) {
                    CompletenessView::Empty => r == Step::Prompt && final(self)@.state
                        == SessionState::Prompting && final(self)@.buffer.len() == 0
                        && final(self)@.submitted == old(self)@.submitted,
                    CompletenessView::Incomplete => r == Step::Continue && final(self)@.state
                        == SessionState::Accumulating && final(self)@.buffer == text
                        && final(self)@.submitted == old(self)@.submitted,
                    CompletenessView::Complete(stmt) => r is Execute && r->Execute_0@ == directives_of(
                        stmt,
                        old(self)@.default_format,
                    ) && final(self)@.state == SessionState::Executing && final(self)@.buffer.len()
                        == 0 && final(self)@.submitted == text,
                }
            }),
    {
        let mut text = self.buffer.clone();
        text.append(line);
        match classify_input(text.as_str()) {
            Completeness::Empty => {
                self.buffer = String::new();
                self.state = SessionState::Prompting;
                Step::Prompt
            },
            Completeness::Incomplete => {
                self.buffer = text;
                self.state = SessionState::Accumulating;
                Step::Continue
            },
            Completeness::Complete(stmt) => {
                let d = parse_directives(stmt.as_str(), self.default_format);
                self.buffer = String::new();
                self.submitted = text;
                self.state = SessionState::Executing;
                Step::Execute(d)
            },
        }
    }

    /// The statement has run, whether it succeeded or failed: its outcome is
    /// shown next.
    pub fn on_executed(&mut self)
        requires
            old(self)@.state == SessionState::Executing,
        ensures
            final(self)@ == (SessionView { state: SessionState::Rendering, ..old(self)@ }),
    {
        self.state = SessionState::Rendering;
    }

    /// The outcome was shown: the submitted statement joins the history and the
    /// session waits for the next statement.
    pub fn on_rendered(&mut self)
        requires
            old(self)@.state == SessionState::Rendering,
        ensures
            final(self)@ == (SessionView {
                state: SessionState::Prompting,
                history: old(self)@.history.push(old(self)@.submitted),
                ..old(self)@
            }),
    {
        let entry = self.submitted.clone();
        self.history.push(entry);
        self.state = SessionState::Prompting;
        proof {
            assert(self@.history =~= old(self)@.history.push(old(self)@.submitted));
        }
    }

    /// No more input: the session ends, and hands out the history that is still
    /// to be written.
    pub fn on_end_of_input(&mut self) -> (r: Vec<String>)
        requires
            old(self)@.state == SessionState::Prompting || old(self)@.state
                == SessionState::Accumulating,
        ensures
            r@.map_values(|s: String| s@) == old(self)@.history,
            final(self)@.state == SessionState::Exit,
            final(self)@.history.len() == 0,
            final(self)@.buffer == old(self)@.buffer,
    {
        let mut r = Vec::new();
        std::mem::swap(&mut r, &mut self.history);
        self.state = SessionState::Exit;
        proof {
            assert(self@.history =~= Seq::<Seq<char>>::empty());
        }
        r
    }
}

} // verus!
