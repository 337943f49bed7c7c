//! The mathematical model of the form: its state as plain values, and its
//! transitions as functions from state to state.

use vstd::prelude::*;
use crate::focus::Focus;
use crate::key::{Action, Key};
use crate::run::ClipError;
use crate::text::{line_count, without_last};

verus! {

/// The form's state as plain values.
pub struct FormModel {
    pub input_file: Seq<char>,
    pub start_time: Seq<char>,
    pub end_time: Seq<char>,
    pub output_file: Seq<char>,
    pub focus: Focus,
    /// The status line while editing, the log during and after a run.
    pub message: Seq<char>,
    pub is_processing: bool,
    pub scroll_offset: nat,
}

/// The first line of the log of every run.
pub open spec fn banner() -> Seq<char> {
    "Starting FFmpeg process...\n"@
}

/// What the log gets when the command has exited: the verdict on its exit
/// status.
pub open spec fn exit_text(success: bool) -> Seq<char> {
    if success {
        "\nClip created successfully!"@
    } else {
        "\nError: FFmpeg process failed"@
    }
}

/// What the log gets at the very end of a run.
pub open spec fn closing_text(result: Result<(), ClipError>) -> Seq<char> {
    match result {
        Ok(_) => "\nProcess completed."@,
        Err(e) => "\nError: "@ + e.spec_message(),
    }
}

/// The given lines, each followed by a line feed, one after another.
pub open spec fn joined(lines: Seq<Seq<char>>) -> Seq<char>
    decreases lines.len(),
{
    if lines.len() == 0 {
        Seq::empty()
    } else {
        joined(lines.drop_last()) + lines.last() + seq!['\n']
    }
}

impl FormModel {
    /// The state in which the form starts.
    pub open spec fn initial() -> FormModel {
        FormModel {
            input_file: Seq::empty(),
            start_time: "00:00:00"@,
            end_time: Seq::empty(),
            output_file: Seq::empty(),
            focus: Focus::InputFile,
            message: Focus::InputFile.spec_prompt(),
            is_processing: false,
            scroll_offset: 0,
        }
    }

    /// The text of one field.
    pub open spec fn field(self, which: Focus) -> Seq<char> {
        match which {
            Focus::InputFile => self.input_file,
            Focus::StartTime => self.start_time,
            Focus::EndTime => self.end_time,
            Focus::OutputFile => self.output_file,
        }
    }

    /// The state with one field's text replaced.
    pub open spec fn with_field(self, which: Focus, text: Seq<char>) -> FormModel {
        match which {
            Focus::InputFile => FormModel { input_file: text, ..self },
            Focus::StartTime => FormModel { start_time: text, ..self },
            Focus::EndTime => FormModel { end_time: text, ..self },
            Focus::OutputFile => FormModel { output_file: text, ..self },
        }
    }

    /// Whether the form can be submitted: no field is empty.
    pub open spec fn complete(self) -> bool {
        &&& self.input_file.len() > 0
        &&& self.start_time.len() > 0
        &&& self.end_time.len() > 0
        &&& self.output_file.len() > 0
    }

    /// A character is appended to the focused field.
    pub open spec fn typed(self, c: char) -> FormModel {
        self.with_field(self.focus, self.field(self.focus).push(c))
    }

    /// The last character of the focused field is removed, if there is one.
    pub open spec fn erased(self) -> FormModel {
        self.with_field(self.focus, without_last(self.field(self.focus)))
    }

    /// The focus moves to the next field and the status line asks for it.
    pub open spec fn refocused(self) -> FormModel {
        FormModel {
            focus: self.focus.spec_next(),
            message: self.focus.spec_next().spec_prompt(),
            ..self
        }
    }

    /// A run begins: the log is reset to the banner.
    pub open spec fn started(self) -> FormModel {
        FormModel { is_processing: true, message: banner(), ..self }
    }

    /// The state after a key press. While a run is in progress every key is
    /// ignored; confirming an incomplete form is ignored too.
    pub open spec fn after_key(self, key: Key) -> FormModel {
        if self.is_processing {
            self
        } else {
            match key {
                Key::Tab => self.refocused(),
                Key::Char(c) => self.typed(c),
                Key::Backspace => self.erased(),
                Key::Enter => if self.complete() {
                    self.started()
                } else {
                    self
                },
                Key::Other => self,
            }
        }
    }

    /// What a key press asks of the caller: to launch the command exactly
    /// when a complete form is confirmed outside a run.
    pub open spec fn action_for(self, key: Key) -> Action {
        if !self.is_processing && key == Key::Enter && self.complete() {
            Action::Launch
        } else {
            Action::Idle
        }
    }

    /// The state after a sequence of key presses.
    pub open spec fn after_keys(self, keys: Seq<Key>) -> FormModel
        decreases keys.len(),
    {
        if keys.len() == 0 {
            self
        } else {
            self.after_keys(keys.drop_last()).after_key(keys.last())
        }
    }

    /// The arguments of the clipping command: the input, the two trim
    /// bounds, stream copy, machine-readable progress on the primary output
    /// without the periodic statistics, and the output.
    pub open spec fn command_args(self) -> Seq<Seq<char>> {
        seq![
            "-i"@,
            self.input_file,
            "-ss"@,
            self.start_time,
            "-to"@,
            self.end_time,
            "-c"@,
            "copy"@,
            "-progress"@,
            "pipe:1"@,
            "-nostats"@,
            self.output_file,
        ]
    }

    /// A diagnostic line is appended to the log, and the view is pinned to
    /// the log's last line.
    pub open spec fn with_line(self, line: Seq<char>) -> FormModel {
        let message = self.message + line + seq!['\n'];
        FormModel { message, scroll_offset: (line_count(message) - 1) as nat, ..self }
    }

    /// The given diagnostic lines are appended in order.
    pub open spec fn with_lines(self, lines: Seq<Seq<char>>) -> FormModel
        decreases lines.len(),
    {
        if lines.len() == 0 {
            self
        } else {
            self.with_lines(lines.drop_last()).with_line(lines.last())
        }
    }

    /// The verdict on the command's exit status is appended to the log.
    pub open spec fn exited(self, success: bool) -> FormModel {
        FormModel { message: self.message + exit_text(success), ..self }
    }

    /// The run ends: the log gets its closing text and the form takes keys
    /// again.
    pub open spec fn finished(self, result: Result<(), ClipError>) -> FormModel {
        FormModel { message: self.message + closing_text(result), is_processing: false, ..self }
    }
}

} // verus!
