//! What holds of the form over whole sequences of events.

use vstd::prelude::*;
use crate::focus::lemma_focus_cycle;
use crate::key::{Action, Key};
use crate::model::{banner, closing_text, exit_text, joined, FormModel};
use crate::run::{ClipError, RunAction, RunEnd, RunEvent, RunPhase};
use crate::text::{
    lemma_newline_count_concat, lemma_newline_count_none, line_count, newline_count, without_last,
};

verus! {

/// Whether a key edits the focused field: a character or the delete key.
pub open spec fn is_edit(key: Key) -> bool {
    key is Char || key is Backspace
}

/// What one editing key does to a text.
pub open spec fn edit_text(text: Seq<char>, key: Key) -> Seq<char> {
    match key {
        Key::Char(c) => text.push(c),
        Key::Backspace => without_last(text),
        _ => text,
    }
}

/// What a sequence of editing keys does to a text, applied in order.
pub open spec fn edited(text: Seq<char>, keys: Seq<Key>) -> Seq<char>
    decreases keys.len(),
{
    if keys.len() == 0 {
        text
    } else {
        edit_text(edited(text, keys.drop_last()), keys.last())
    }
}

/// The key that types a character.
pub open spec fn char_key(c: char) -> Key {
    Key::Char(c)
}

/// The keys that type the given characters.
pub open spec fn typing(chars: Seq<char>) -> Seq<Key> {
    Seq::new(chars.len(), |i: int| char_key(chars[i]))
}

/// The state after a whole run that began in `m`: the banner, the command's
/// lines, and the closing that the run's end calls for.
pub open spec fn after_run(m: FormModel, lines: Seq<Seq<char>>, end: RunEnd) -> FormModel {
    m.started().with_lines(lines).ended(end)
}

/// The last part of the log for each way a run can end.
pub open spec fn ending(end: RunEnd) -> Seq<char> {
    match end {
        RunEnd::Success => exit_text(true) + closing_text(Ok(())),
        RunEnd::Failure => exit_text(false) + closing_text(Ok(())),
        RunEnd::Aborted(e) => closing_text(Err(e)),
    }
}

/// Whether two states agree on everything but the log and its scroll offset.
pub open spec fn same_form(a: FormModel, b: FormModel) -> bool {
    &&& a.input_file == b.input_file
    &&& a.start_time == b.start_time
    &&& a.end_time == b.end_time
    &&& a.output_file == b.output_file
    &&& a.focus == b.focus
    &&& a.is_processing == b.is_processing
}

/// Outside a run, any sequence of characters and deletions leaves the focused
/// field holding exactly those edits applied in order to what it held, and
/// leaves everything else as it was.
pub proof fn lemma_edits_apply_in_order(m: FormModel, keys: Seq<Key>)
    requires
        !m.is_processing,
        forall|i: int| 0 <= i < keys.len() ==> is_edit(#[trigger] keys[i]),
    ensures
        m.after_keys(keys) == m.with_field(m.focus, edited(m.field(m.focus), keys)),
        m.after_keys(keys).field(m.focus) == edited(m.field(m.focus), keys),
    decreases keys.len(),
{
    if keys.len() > 0 {
        lemma_edits_apply_in_order(m, keys.drop_last());
        assert(is_edit(keys.last()));
    }
}

/// Typing characters appends them to the focused field.
pub proof fn lemma_typing_appends(m: FormModel, chars: Seq<char>)
    requires
        !m.is_processing,
    ensures
        m.after_keys(typing(chars)).field(m.focus) == m.field(m.focus) + chars,
{
    lemma_typing_edits(m.field(m.focus), chars);
    lemma_edits_apply_in_order(m, typing(chars));
}

/// A text edited by the keys that type some characters is the text followed
/// by those characters.
pub proof fn lemma_typing_edits(text: Seq<char>, chars: Seq<char>)
    ensures
        edited(text, typing(chars)) == text + chars,
    decreases chars.len(),
{
    if chars.len() == 0 {
        assert(text + chars =~= text);
    } else {
        let front = chars.drop_last();
        lemma_typing_edits(text, front);
        assert(typing(chars).drop_last() =~= typing(front));
        assert((text + front).push(chars.last()) =~= text + chars);
    }
}

/// The delete key on an empty focused field changes nothing, and after a
/// character it undoes that character.
pub proof fn lemma_backspace(m: FormModel, c: char)
    requires
        !m.is_processing,
    ensures
        m.field(m.focus).len() == 0 ==> m.after_key(Key::Backspace) == m,
        m.after_key(Key::Char(c)).after_key(Key::Backspace) == m,
{
    assert(m.field(m.focus).push(c).drop_last() =~= m.field(m.focus));
}

/// Outside a run the focus-advance key moves the focus to the next field,
/// whatever the state, and four presses bring it back; the fields are never
/// touched.
pub proof fn lemma_four_advances(m: FormModel)
    requires
        !m.is_processing,
    ensures
        m.after_key(Key::Tab).focus == m.focus.spec_next(),
        m.after_key(Key::Tab).after_key(Key::Tab).after_key(Key::Tab).after_key(Key::Tab)
            == (FormModel { message: m.focus.spec_prompt(), ..m }),
{
    lemma_focus_cycle(m.focus);
}

/// Confirming a form with an empty field changes nothing and launches
/// nothing; confirming a complete form outside a run begins one.
pub proof fn lemma_submission_guard(m: FormModel)
    ensures
        !m.complete() ==> m.after_key(Key::Enter) == m && m.action_for(Key::Enter)
            == Action::Idle,
        m.complete() && !m.is_processing ==> m.after_key(Key::Enter) == m.started()
            && m.action_for(Key::Enter) == Action::Launch,
        forall|key: Key| m.action_for(key) == Action::Launch ==> key == Key::Enter && m.complete(),
{
}

/// During a run no sequence of keys changes anything or launches anything.
pub proof fn lemma_keys_ignored_during_run(m: FormModel, keys: Seq<Key>)
    requires
        m.is_processing,
    ensures
        m.after_keys(keys) == m,
        forall|key: Key| m.action_for(key) == Action::Idle,
    decreases keys.len(),
{
    if keys.len() > 0 {
        lemma_keys_ignored_during_run(m, keys.drop_last());
    }
}

/// Appending lines touches only the log and its scroll offset, and the log
/// grows by the lines, each with its line feed, in order.
pub proof fn lemma_lines_extend_log(m: FormModel, lines: Seq<Seq<char>>)
    ensures
        same_form(m.with_lines(lines), m),
        m.with_lines(lines).message == m.message + joined(lines),
    decreases lines.len(),
{
    if lines.len() == 0 {
        assert(m.message + joined(lines) =~= m.message);
    } else {
        let front = lines.drop_last();
        lemma_lines_extend_log(m, front);
        assert(m.message + joined(front) + lines.last() + seq!['\n'] =~= m.message + (joined(
            front,
        ) + lines.last() + seq!['\n']));
    }
}

/// After a run, whatever the command wrote and however it ended, the fields
/// and the focus are what they were before it, the form takes keys again,
/// and every key then does to them what it would have done before the run.
pub proof fn lemma_editing_resumes_after_run(
    m: FormModel,
    lines: Seq<Seq<char>>,
    end: RunEnd,
    key: Key,
)
    requires
        !m.is_processing,
    ensures
        same_form(after_run(m, lines, end), m),
        same_form(after_run(m, lines, end).after_key(key), m.after_key(key)),
        after_run(m, lines, end).action_for(key) == m.action_for(key),
        key == Key::Tab || (key == Key::Enter && m.complete()) ==> after_run(
            m,
            lines,
            end,
        ).after_key(key).message == m.after_key(key).message,
{
    lemma_lines_extend_log(m.started(), lines);
}

/// The log of a finished run is the banner, then every line that the command
/// wrote, in the order in which it wrote them, then the ending: a success
/// line after a successful exit, a failure line after a failed one, the
/// error's line after an error.
pub proof fn lemma_run_log(m: FormModel, lines: Seq<Seq<char>>, end: RunEnd)
    ensures
        after_run(m, lines, end).message == banner() + joined(lines) + ending(end),
        ending(RunEnd::Success) == "\nClip created successfully!"@ + "\nProcess completed."@,
        ending(RunEnd::Failure) == "\nError: FFmpeg process failed"@ + "\nProcess completed."@,
        ending(RunEnd::Aborted(ClipError::Spawn)) == "\nError: "@
            + "Failed to spawn ffmpeg command"@,
{
    lemma_lines_extend_log(m.started(), lines);
    let body = banner() + joined(lines);
    let done = closing_text(Ok(()));
    assert(body + exit_text(true) + done =~= body + (exit_text(true) + done));
    assert(body + exit_text(false) + done =~= body + (exit_text(false) + done));
}

/// The phase that a run has reached from `phase` after a sequence of reports.
pub open spec fn phase_after(phase: RunPhase, events: Seq<RunEvent>) -> RunPhase
    decreases events.len(),
{
    if events.len() == 0 {
        phase
    } else {
        phase_after(phase, events.drop_last()).after(events.last())
    }
}

/// The form after a sequence of reports, the first of them made in `phase`.
pub open spec fn form_after(m: FormModel, phase: RunPhase, events: Seq<RunEvent>) -> FormModel
    decreases events.len(),
{
    if events.len() == 0 {
        m
    } else {
        form_after(m, phase, events.drop_last()).after_event(
            phase_after(phase, events.drop_last()),
            events.last(),
        )
    }
}

/// The lines among a sequence of reports that arrive in a phase that takes
/// lines, in the order of their arrival.
pub open spec fn lines_taken(phase: RunPhase, events: Seq<RunEvent>) -> Seq<Seq<char>>
    decreases events.len(),
{
    if events.len() == 0 {
        Seq::empty()
    } else {
        let before = lines_taken(phase, events.drop_last());
        match events.last() {
            RunEvent::Line(line) => if phase_after(phase, events.drop_last()).takes_lines() {
                before.push(line@)
            } else {
                before
            },
            _ => before,
        }
    }
}

/// Whatever the caller reports after a launch, and in whatever order, the
/// form is where the banner and the lines taken so far put it, and, once the
/// run is over, where a whole run with those lines and that end puts it. So
/// the run flag is set until the run is over and cleared from then on, and a
/// finished run never changes again.
pub proof fn lemma_run_trace(m: FormModel, events: Seq<RunEvent>)
    ensures
        form_after(m.started(), RunPhase::Starting, events) == match phase_after(
            RunPhase::Starting,
            events,
        ) {
            RunPhase::Done(end) => after_run(m, lines_taken(RunPhase::Starting, events), end),
            _ => m.started().with_lines(lines_taken(RunPhase::Starting, events)),
        },
        form_after(m.started(), RunPhase::Starting, events).is_processing == !(phase_after(
            RunPhase::Starting,
            events,
        ) is Done),
    decreases events.len(),
{
    if events.len() > 0 {
        let front = events.drop_last();
        lemma_run_trace(m, front);
        let before = lines_taken(RunPhase::Starting, front);
        lemma_lines_extend_log(m.started(), before);
        match events.last() {
            RunEvent::Line(line) => {
                assert(before.push(line@).drop_last() =~= before);
            },
            _ => {},
        }
    }
    lemma_lines_extend_log(m.started(), lines_taken(RunPhase::Starting, events));
}

/// Whether a report is a possible answer to a request.
pub open spec fn answers(action: RunAction, event: RunEvent) -> bool {
    match action {
        RunAction::Spawn => event is Spawned || event is SpawnFailed,
        RunAction::CheckStatus => event is StillRunning || event is Exited
            || event is StatusCheckFailed,
        RunAction::ReceiveLine => event is Line || event is NoLine,
        RunAction::Pause => event is Paused,
        RunAction::Wait => event is Status || event is WaitFailed,
        RunAction::Finish => false,
    }
}

/// Whether every report of a sequence answers the request of the phase in
/// which it is made, as the reports of a caller that does what it is asked do.
pub open spec fn faithful(phase: RunPhase, events: Seq<RunEvent>) -> bool
    decreases events.len(),
{
    events.len() > 0 ==> faithful(phase, events.drop_last()) && answers(
        phase_after(phase, events.drop_last()).spec_request(),
        events.last(),
    )
}

/// All the lines among a sequence of reports, in the order of their arrival.
pub open spec fn lines_in(events: Seq<RunEvent>) -> Seq<Seq<char>>
    decreases events.len(),
{
    if events.len() == 0 {
        Seq::empty()
    } else {
        match events.last() {
            RunEvent::Line(line) => lines_in(events.drop_last()).push(line@),
            _ => lines_in(events.drop_last()),
        }
    }
}

/// From a caller that does what it is asked, every line is taken: the log
/// of the run holds all the lines that the command wrote, none dropped and
/// none out of order. Every such report but a line moves the run on to
/// another phase.
pub proof fn lemma_faithful_run_takes_every_line(phase: RunPhase, events: Seq<RunEvent>)
    requires
        faithful(phase, events),
    ensures
        lines_taken(phase, events) == lines_in(events),
        events.len() > 0 && !(events.last() is Line) ==> phase_after(phase, events)
            != phase_after(phase, events.drop_last()),
    decreases events.len(),
{
    if events.len() > 0 {
        lemma_faithful_run_takes_every_line(phase, events.drop_last());
    }
}

/// Whether no line holds a line feed, as is the case for lines that were
/// split at line feeds.
pub open spec fn single_lines(lines: Seq<Seq<char>>) -> bool {
    forall|i: int, j: int|
        0 <= i < lines.len() && 0 <= j < lines[i].len() ==> (#[trigger] lines[i][j]) != '\n'
}

/// Joined single lines hold one line feed per line.
pub proof fn lemma_joined_newlines(lines: Seq<Seq<char>>)
    requires
        single_lines(lines),
    ensures
        newline_count(joined(lines)) == lines.len(),
    decreases lines.len(),
{
    if lines.len() > 0 {
        let front = lines.drop_last();
        assert(single_lines(front)) by {
            assert forall|i: int, j: int| 0 <= i < front.len() && 0 <= j < front[i].len() implies (
            #[trigger] front[i][j]) != '\n' by {
                assert(front[i][j] == lines[i][j]);
            }
        }
        lemma_joined_newlines(front);
        assert forall|j: int| 0 <= j < lines.last().len() implies lines.last()[j] != '\n' by {
            assert(lines.last()[j] == lines[lines.len() - 1][j]);
        }
        lemma_newline_count_none(lines.last());
        lemma_newline_count_concat(joined(front), lines.last());
        lemma_newline_count_concat(joined(front) + lines.last(), seq!['\n']);
        reveal_with_fuel(newline_count, 2);
        assert(seq!['\n'].drop_last() =~= Seq::<char>::empty());
    }
}

/// The banner is one line, closed by its line feed.
pub proof fn lemma_banner_is_one_line()
    ensures
        banner().len() > 0,
        banner().last() == '\n',
        newline_count(banner()) == 1,
{
    reveal_strlit("Starting FFmpeg process...\n");
    lemma_newline_count_none(banner().drop_last());
}

/// After a launch, every appended line scrolls the log by one: once the
/// command has written `n` single lines, `n` at least one, the scroll offset
/// is `n`, the number of the log's last line counted from zero. The log then
/// holds `n + 1` lines.
pub proof fn lemma_scroll_follows_lines(m: FormModel, lines: Seq<Seq<char>>)
    requires
        single_lines(lines),
        lines.len() > 0,
    ensures
        m.started().with_lines(lines).scroll_offset == lines.len(),
        line_count(m.started().with_lines(lines).message) == lines.len() + 1,
{
    let front = lines.drop_last();
    let log = banner() + joined(lines);
    lemma_lines_extend_log(m.started(), front);
    lemma_lines_extend_log(m.started(), lines);
    lemma_banner_is_one_line();
    lemma_joined_newlines(lines);
    lemma_newline_count_concat(banner(), joined(lines));
    assert(log.last() == '\n');
}

/// Where a line stands in the joined text: after all the lines before it.
pub open spec fn line_start(lines: Seq<Seq<char>>, i: int) -> int {
    joined(lines.take(i)).len() as int
}

/// Each line stands whole in the joined text, followed by a line feed, and
/// the next line starts right after that line feed: the lines keep their
/// order.
pub proof fn lemma_joined_keeps_lines(lines: Seq<Seq<char>>, i: int)
    requires
        0 <= i < lines.len(),
    ensures
        line_start(lines, i) + lines[i].len() + 1 == line_start(lines, i + 1),
        line_start(lines, i + 1) <= joined(lines).len(),
        joined(lines).subrange(
            line_start(lines, i),
            line_start(lines, i) + lines[i].len(),
        ) == lines[i],
        joined(lines)[line_start(lines, i) + lines[i].len()] == '\n',
    decreases lines.len(),
{
    let front = lines.drop_last();
    assert(lines.take(i + 1).drop_last() =~= lines.take(i));
    assert(lines.take(i + 1).last() == lines[i]);
    if i == lines.len() - 1 {
        assert(lines.take(i + 1) =~= lines);
        assert(lines.take(i) =~= front);
        assert(joined(lines).subrange(
            line_start(lines, i),
            line_start(lines, i) + lines[i].len(),
        ) =~= lines[i]);
    } else {
        lemma_joined_keeps_lines(front, i);
        assert(front.take(i) =~= lines.take(i));
        assert(front.take(i + 1) =~= lines.take(i + 1));
        assert(joined(lines).subrange(
            line_start(lines, i),
            line_start(lines, i) + lines[i].len(),
        ) =~= joined(front).subrange(
            line_start(front, i),
            line_start(front, i) + front[i].len(),
        ));
    }
}

} // verus!
