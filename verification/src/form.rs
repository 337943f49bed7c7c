//! The form itself: four text fields, the focus, the status line or log, and
//! the run flag, with the operations that keys and the running command drive.

use vstd::prelude::*;
use vstd::string::StringExecFns;
use ratatui::widgets::ScrollbarState;
use crate::focus::Focus;
use crate::key::{Action, Key};
use crate::model::FormModel;
use crate::run::ClipError;
use crate::scrollbar::fresh_scrollbar;
use crate::text::count_lines;

verus! {

/// The form's state.
pub struct App {
    input_file: String,
    start_time: String,
    end_time: String,
    output_file: String,
    current_focus: Focus,
    message: String,
    is_processing: bool,
    scroll_state: ScrollbarState,
    scroll_offset: usize,
}

impl View for App {
    type V = FormModel;

    closed spec fn view(&self) -> FormModel {
        FormModel {
            input_file: self.input_file@,
            start_time: self.start_time@,
            end_time: self.end_time@,
            output_file: self.output_file@,
            focus: self.current_focus,
            message: self.message@,
            is_processing: self.is_processing,
            scroll_offset: self.scroll_offset as nat,
        }
    }
}

/// The views of a list of strings.
pub open spec fn texts(strings: Seq<String>) -> Seq<Seq<char>> {
    strings.map_values(|s: String| s@)
}

impl App {
    /// The scrollbar state that the form carries for its renderer.
    pub closed spec fn scrollbar(&self) -> ScrollbarState {
        self.scroll_state
    }

    /// An empty form: the start time is the zero timestamp, the other fields
    /// are empty, the focus is on the input file and the status line asks
    /// for it.
    pub fn new() -> (app: App)
        ensures
            app@ == FormModel::initial(),
    {
        App {
            input_file: String::new(),
            start_time: String::from_str("00:00:00"),
            end_time: String::new(),
            output_file: String::new(),
            current_focus: Focus::InputFile,
            message: String::from_str(Focus::InputFile.prompt()),
            is_processing: false,
            scroll_state: fresh_scrollbar(),
            scroll_offset: 0,
        }
    }

    /// Handles a key press. Outside a run, the focus-advance key moves the
    /// focus and updates the status line, a character is appended to the
    /// focused field, the delete key removes that field's last character,
    /// and the confirmation key on a complete form begins a run: the log is
    /// reset to the banner and the caller is asked to launch the command.
    /// Every other key press, and every key press during a run, changes
    /// nothing.
    pub fn process_input(&mut self, key: Key) -> (action: Action)
        ensures
            final(self)@ == old(self)@.after_key(key),
            action == old(self)@.action_for(key),
            final(self).scrollbar() == old(self).scrollbar(),
    {
        if self.is_processing {
            return Action::Idle;
        }
        match key {
            Key::Tab => {
                let following = self.current_focus.next();
                self.message = String::from_str(following.prompt());
                self.current_focus = following;
                Action::Idle
            },
            Key::Char(c) => {
                match self.current_focus {
                    Focus::InputFile => self.input_file.push(c),
                    Focus::StartTime => self.start_time.push(c),
                    Focus::EndTime => self.end_time.push(c),
                    Focus::OutputFile => self.output_file.push(c),
                }
                Action::Idle
            },
            Key::Backspace => {
                match self.current_focus {
                    Focus::InputFile => {
                        self.input_file.pop();
                    },
                    Focus::StartTime => {
                        self.start_time.pop();
                    },
                    Focus::EndTime => {
                        self.end_time.pop();
                    },
                    Focus::OutputFile => {
                        self.output_file.pop();
                    },
                }
                Action::Idle
            },
            Key::Enter => {
                if self.is_complete() {
                    self.is_processing = true;
                    self.message = String::from_str("Starting FFmpeg process...\n");
                    Action::Launch
                } else {
                    Action::Idle
                }
            },
            Key::Other => Action::Idle,
        }
    }

    /// Whether no field is empty, which is all that submission asks.
    pub fn is_complete(&self) -> (complete: bool)
        ensures
            complete == self@.complete(),
    {
        !self.input_file.as_str().is_empty() && !self.start_time.as_str().is_empty()
            && !self.end_time.as_str().is_empty() && !self.output_file.as_str().is_empty()
    }

    /// The name of the command that a run starts.
    pub fn program() -> (name: &'static str)
        ensures
            name@ == "ffmpeg"@,
    {
        "ffmpeg"
    }

    /// The arguments that the command is started with, built from the four
    /// fields as they stand.
    pub fn command_args(&self) -> (args: Vec<String>)
        ensures
            texts(args@) == self@.command_args(),
    {
        let mut args: Vec<String> = Vec::new();
        args.push(String::from_str("-i"));
        args.push(self.input_file.clone());
        args.push(String::from_str("-ss"));
        args.push(self.start_time.clone());
        args.push(String::from_str("-to"));
        args.push(self.end_time.clone());
        args.push(String::from_str("-c"));
        args.push(String::from_str("copy"));
        args.push(String::from_str("-progress"));
        args.push(String::from_str("pipe:1"));
        args.push(String::from_str("-nostats"));
        args.push(self.output_file.clone());
        assert(texts(args@) =~= self@.command_args());
        args
    }

    /// Appends one diagnostic line of the running command to the log and
    /// scrolls the log to its last line.
    pub fn append_line(&mut self, line: &str)
        ensures
            final(self)@ == old(self)@.with_line(line@),
            final(self).scrollbar() == old(self).scrollbar(),
    {
        self.message.append(line);
        self.message.push('\n');
        proof {
            assert(self.message@ =~= old(self).message@ + line@ + seq!['\n']);
        }
        let lines: usize = count_lines(self.message.as_str());
        self.scroll_offset = if lines > 0 {
            lines - 1
        } else {
            0
        };
    }

    /// Records that the command has exited, successfully or not.
    pub fn record_exit(&mut self, success: bool)
        ensures
            final(self)@ == old(self)@.exited(success),
            final(self).scrollbar() == old(self).scrollbar(),
    {
        if success {
            self.message.append("\nClip created successfully!");
        } else {
            self.message.append("\nError: FFmpeg process failed");
        }
    }

    /// Ends the run: the log gets a completion line, or the error that cut
    /// the run short, and the form takes keys again.
    pub fn finish_run(&mut self, result: Result<(), ClipError>)
        ensures
            final(self)@ == old(self)@.finished(result),
            final(self).scrollbar() == old(self).scrollbar(),
    {
        match result {
            Ok(_) => {
                self.message.append("\nProcess completed.");
            },
            Err(e) => {
                self.message.append("\nError: ");
                self.message.append(e.message());
                proof {
                    assert(self.message@ =~= old(self).message@ + ("\nError: "@
                        + e.spec_message()));
                }
            },
        }
        self.is_processing = false;
    }

    /// The input path as typed so far.
    pub fn input_file(&self) -> (text: &str)
        ensures
            text@ == self@.input_file,
    {
        self.input_file.as_str()
    }

    /// The start time as typed so far.
    pub fn start_time(&self) -> (text: &str)
        ensures
            text@ == self@.start_time,
    {
        self.start_time.as_str()
    }

    /// The end time as typed so far.
    pub fn end_time(&self) -> (text: &str)
        ensures
            text@ == self@.end_time,
    {
        self.end_time.as_str()
    }

    /// The output path as typed so far.
    pub fn output_file(&self) -> (text: &str)
        ensures
            text@ == self@.output_file,
    {
        self.output_file.as_str()
    }

    /// The text of the given field.
    pub fn field(&self, which: Focus) -> (text: &str)
        ensures
            text@ == self@.field(which),
    {
        match which {
            Focus::InputFile => self.input_file.as_str(),
            Focus::StartTime => self.start_time.as_str(),
            Focus::EndTime => self.end_time.as_str(),
            Focus::OutputFile => self.output_file.as_str(),
        }
    }

    /// The field that takes the keys.
    pub fn current_focus(&self) -> (focus: Focus)
        ensures
            focus == self@.focus,
    {
        self.current_focus
    }

    /// The status line while editing, the log during and after a run.
    pub fn message(&self) -> (text: &str)
        ensures
            text@ == self@.message,
    {
        self.message.as_str()
    }

    /// Whether a run is in progress.
    pub fn is_processing(&self) -> (running: bool)
        ensures
            running == self@.is_processing,
    {
        self.is_processing
    }

    /// The first line of the log that the log pane shows.
    pub fn scroll_offset(&self) -> (offset: usize)
        ensures
            offset == self@.scroll_offset,
    {
        self.scroll_offset
    }

    /// The scroll offset as the sixteen-bit row that the log pane takes:
    /// the offset modulo 65536.
    pub fn scroll_row(&self) -> (row: u16)
        ensures
            row == self@.scroll_offset % 65536,
    {
        (self.scroll_offset % 65536) as u16
    }

    /// The scrollbar state that the form carries for its renderer.
    pub fn scroll_state(&self) -> (state: &ScrollbarState)
        ensures
            *state == self.scrollbar(),
    {
        &self.scroll_state
    }

    /// How long, in milliseconds, the caller waits for a key before it
    /// redraws: 50 during a run, 100 otherwise.
    pub fn poll_interval_ms(&self) -> (millis: u64)
        ensures
            millis == if self@.is_processing { 50u64 } else { 100u64 },
    {
        if self.is_processing {
            50
        } else {
            100
        }
    }

    /// Whether a key press leaves the form: the letter `q` with the control
    /// modifier and no other, outside a run.
    pub fn is_quit(&self, key: Key, control_only: bool) -> (quit: bool)
        ensures
            quit == (key == Key::Char('q') && control_only && !self@.is_processing),
    {
        match key {
            Key::Char(c) => c == 'q' && control_only && !self.is_processing,
            _ => false,
        }
    }
}

} // verus!
