use vstd::prelude::*;

verus! {

/// The stages one repository fetch passes through, in order.
#[derive(Clone, Copy, Debug, PartialEq, Eq, Structural)]
pub enum CloneState {
    ReceivingObjects,
    ResolvingDeltas,
    UpdatingFiles,
    Finished,
}

/// Position of a phase in the fixed order; `Finished` is last.
pub open spec fn rank(s: CloneState) -> nat {
    match s {
        CloneState::ReceivingObjects => 0,
        CloneState::ResolvingDeltas => 1,
        CloneState::UpdatingFiles => 2,
        CloneState::Finished => 3,
    }
}

/// The phase that follows `s`; `Finished` is absorbing.
pub open spec fn next_phase(s: CloneState) -> CloneState {
    match s {
        CloneState::ReceivingObjects => CloneState::ResolvingDeltas,
        CloneState::ResolvingDeltas => CloneState::UpdatingFiles,
        CloneState::UpdatingFiles => CloneState::Finished,
        CloneState::Finished => CloneState::Finished,
    }
}

/// Display text of a phase.
pub open spec fn phase_text(s: CloneState) -> Seq<char> {
    match s {
        CloneState::ReceivingObjects => "Receiving objects"@,
        CloneState::ResolvingDeltas => "Resolving deltas"@,
        CloneState::UpdatingFiles => "Updating files"@,
        CloneState::Finished => "Finished"@,
    }
}

/// The text that introduces a progress line of a phase in the fetch tool's
/// output; a finished fetch has no progress lines left to recognise.
pub open spec fn phase_label(s: CloneState) -> Option<Seq<char>> {
    match s {
        CloneState::Finished => None,
        _ => Some(phase_text(s)),
    }
}

/// How a progress bar of a phase is drawn: a bar template and the three
/// characters for filled, current and empty cells.
pub struct PhaseStyle {
    pub template: String,
    pub progress_chars: String,
}

pub open spec fn style_template(s: CloneState) -> Seq<char> {
    match s {
        CloneState::ReceivingObjects => "[{bar:40.cyan/blue}] {pos}/{len} {msg}"@,
        CloneState::ResolvingDeltas => "[{bar:40.yellow/cyan}] {pos}/{len} {msg}"@,
        CloneState::UpdatingFiles => "[{bar:40.green/yellow}] {pos}/{len} {msg}"@,
        CloneState::Finished => "[{bar:40.green}] {pos}/{len} {msg}"@,
    }
}

pub open spec fn style_chars(s: CloneState) -> Seq<char> {
    match s {
        CloneState::ReceivingObjects => "##-"@,
        CloneState::ResolvingDeltas => "=>#"@,
        CloneState::UpdatingFiles => "->="@,
        CloneState::Finished => "***"@,
    }
}

/// Each phase has its own look: no two phases share their progress characters.
pub proof fn lemma_styles_distinct(a: CloneState, b: CloneState)
    requires
        a != b,
    ensures
        style_chars(a) != style_chars(b),
{
    reveal_strlit("##-");
    reveal_strlit("=>#");
    reveal_strlit("->=");
    reveal_strlit("***");
    assert(style_chars(a)[0] != style_chars(b)[0]);
}

impl CloneState {
    /// The phase every fetch starts in.
    pub fn new() -> (r: CloneState)
        ensures
            r == CloneState::ReceivingObjects,
    {
        CloneState::ReceivingObjects
    }

    /// The phase after this one.
    pub fn next(&self) -> (r: CloneState)
        ensures
            r == next_phase(*self),
            rank(r) >= rank(*self),
            *self != CloneState::Finished ==> rank(r) == rank(*self) + 1,
    {
        match self {
            CloneState::ReceivingObjects => CloneState::ResolvingDeltas,
            CloneState::ResolvingDeltas => CloneState::UpdatingFiles,
            CloneState::UpdatingFiles => CloneState::Finished,
            CloneState::Finished => CloneState::Finished,
        }
    }

    /// The text shown for this phase.
    pub fn text(&self) -> (r: String)
        ensures
            r@ == phase_text(*self),
    {
        match self {
            CloneState::ReceivingObjects => String::from_str("Receiving objects"),
            CloneState::ResolvingDeltas => String::from_str("Resolving deltas"),
            CloneState::UpdatingFiles => String::from_str("Updating files"),
            CloneState::Finished => String::from_str("Finished"),
        }
    }

    /// The label that starts this phase's progress lines, if any.
    pub fn label(&self) -> (r: Option<String>)
        ensures
            match r {
                Some(l) => phase_label(*self) == Some(l@),
                None => phase_label(*self) is None,
            },
    {
        match self {
            CloneState::Finished => None,
            _ => Some(self.text()),
        }
    }

    /// The visual identity of this phase.
    pub fn style(&self) -> (r: PhaseStyle)
        ensures
            r.template@ == style_template(*self),
            r.progress_chars@ == style_chars(*self),
    {
        let template = match self {
            CloneState::ReceivingObjects => "[{bar:40.cyan/blue}] {pos}/{len} {msg}",
            CloneState::ResolvingDeltas => "[{bar:40.yellow/cyan}] {pos}/{len} {msg}",
            CloneState::UpdatingFiles => "[{bar:40.green/yellow}] {pos}/{len} {msg}",
            CloneState::Finished => "[{bar:40.green}] {pos}/{len} {msg}",
        };
        let progress_chars = match self {
            CloneState::ReceivingObjects => "##-",
            CloneState::ResolvingDeltas => "=>#",
            CloneState::UpdatingFiles => "->=",
            CloneState::Finished => "***",
        };
        PhaseStyle {
            template: String::from_str(template),
            progress_chars: String::from_str(progress_chars),
        }
    }
}

} // verus!
