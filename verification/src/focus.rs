//! The focus pointer of the form: which of the four fields takes the keys.

use vstd::prelude::*;

verus! {

/// One of the four fields of the form.
#[derive(Clone, Copy, Debug, PartialEq, Eq, Structural)]
pub enum Focus {
    InputFile,
    StartTime,
    EndTime,
    OutputFile,
}

impl Focus {
    /// The field that takes the focus after this one; the last field hands it
    /// back to the first.
    pub open spec fn spec_next(self) -> Focus {
        match self {
            Focus::InputFile => Focus::StartTime,
            Focus::StartTime => Focus::EndTime,
            Focus::EndTime => Focus::OutputFile,
            Focus::OutputFile => Focus::InputFile,
        }
    }

    /// Position of the field in the form, counted from the top.
    pub open spec fn spec_index(self) -> nat {
        match self {
            Focus::InputFile => 0,
            Focus::StartTime => 1,
            Focus::EndTime => 2,
            Focus::OutputFile => 3,
        }
    }

    /// The status line that asks for this field's value.
    pub open spec fn spec_prompt(self) -> Seq<char> {
        match self {
            Focus::InputFile => "Enter input file path"@,
            Focus::StartTime => "Enter start time (HH:MM:SS)"@,
            Focus::EndTime => "Enter end time (HH:MM:SS)"@,
            Focus::OutputFile => "Enter output file path"@,
        }
    }

    /// The caption above this field.
    pub open spec fn spec_title(self) -> Seq<char> {
        match self {
            Focus::InputFile => "Input File"@,
            Focus::StartTime => "Start Time (HH:MM:SS)"@,
            Focus::EndTime => "End Time (HH:MM:SS)"@,
            Focus::OutputFile => "Output File"@,
        }
    }

    /// Advances the focus by one field, wrapping from the last to the first.
    #[verifier::when_used_as_spec(spec_next)]
    pub fn next(self) -> (following: Focus)
        ensures
            following == self.spec_next(),
    {
        match self {
            Focus::InputFile => Focus::StartTime,
            Focus::StartTime => Focus::EndTime,
            Focus::EndTime => Focus::OutputFile,
            Focus::OutputFile => Focus::InputFile,
        }
    }

    /// Position of the field in the form, counted from the top.
    pub fn index(self) -> (position: usize)
        ensures
            position == self.spec_index(),
            position < 4,
    {
        match self {
            Focus::InputFile => 0,
            Focus::StartTime => 1,
            Focus::EndTime => 2,
            Focus::OutputFile => 3,
        }
    }

    /// The status line that asks for this field's value.
    pub fn prompt(self) -> (line: &'static str)
        ensures
            line@ == self.spec_prompt(),
    {
        match self {
            Focus::InputFile => "Enter input file path",
            Focus::StartTime => "Enter start time (HH:MM:SS)",
            Focus::EndTime => "Enter end time (HH:MM:SS)",
            Focus::OutputFile => "Enter output file path",
        }
    }

    /// The caption above this field.
    pub fn title(self) -> (caption: &'static str)
        ensures
            caption@ == self.spec_title(),
    {
        match self {
            Focus::InputFile => "Input File",
            Focus::StartTime => "Start Time (HH:MM:SS)",
            Focus::EndTime => "End Time (HH:MM:SS)",
            Focus::OutputFile => "Output File",
        }
    }
}

/// The focus after `steps` advances from `start`.
pub open spec fn advanced(start: Focus, steps: nat) -> Focus
    decreases steps,
{
    if steps == 0 {
        start
    } else {
        advanced(start, (steps - 1) as nat).spec_next()
    }
}

/// Focus cycling is circular with period four: four advances lead back to
/// the field they started from, and fewer than four never do.
pub proof fn lemma_focus_cycle(start: Focus)
    ensures
        start.spec_next().spec_next().spec_next().spec_next() == start,
        start.spec_next() != start,
        start.spec_next().spec_next() != start,
        start.spec_next().spec_next().spec_next() != start,
{
}

/// Advancing moves one position down the form, modulo four, so any number of
/// advances lands on the field that many positions further round the cycle.
pub proof fn lemma_focus_advance(start: Focus, steps: nat)
    ensures
        advanced(start, steps).spec_index() == (start.spec_index() + steps) % 4,
        advanced(start, steps + 4) == advanced(start, steps),
    decreases steps,
{
    reveal_with_fuel(advanced, 5);
    if steps > 0 {
        lemma_focus_advance(start, (steps - 1) as nat);
    }
    lemma_focus_cycle(advanced(start, steps));
}

/// Every field is reached from every other: the cycle visits exactly the
/// four fields.
pub proof fn lemma_focus_reaches(start: Focus, target: Focus)
    ensures
        exists|steps: nat| steps < 4 && advanced(start, steps) == target,
{
    reveal_with_fuel(advanced, 4);
    let a = start.spec_index();
    let b = target.spec_index();
    let steps: nat = if b >= a {
        (b - a) as nat
    } else {
        (b + 4 - a) as nat
    };
    assert(steps < 4 && advanced(start, steps) == target);
}

} // verus!
