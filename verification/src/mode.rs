//! The control loop over run modes: which action runs, when the operator is
//! asked to press a key, and when the loop ends.

use crate::address::Address;
use vstd::prelude::*;

verus! {

/// What the operator wants done.
#[derive(Clone, Copy, Debug, PartialEq, Eq, Structural)]
pub enum RunMode {
    Mining,
    Claim,
    Exit,
    Export,
    CheckUpdate,
}

impl RunMode {
    /// Whether the action changes accounts, so that their status is shown first.
    pub open spec fn touches_accounts(self) -> bool {
        self is Mining || self is Claim || self is Exit
    }

    /// Whether the accounts' status is shown before this mode's action.
    pub fn shows_accounts_status(&self) -> (res: bool)
        ensures
            res == self.touches_accounts(),
    {
        match self {
            RunMode::Mining | RunMode::Claim | RunMode::Exit => true,
            RunMode::Export | RunMode::CheckUpdate => false,
        }
    }

    /// Whether an interactive run asks the operator to press a key once
    /// the action is done, before it asks for the next mode.
    pub open spec fn pauses(self) -> bool {
        !(self is Mining)
    }

    /// Whether an interactive run awaits a key press after this mode's action.
    pub fn pauses_after(&self) -> (res: bool)
        ensures
            res == self.pauses(),
    {
        match self {
            RunMode::Mining => false,
            _ => true,
        }
    }
}

/// The mode behind an entry of the mode menu, counted from zero.
pub open spec fn menu_entry(index: usize) -> Option<RunMode> {
    if index == 0 {
        Some(RunMode::Mining)
    } else if index == 1 {
        Some(RunMode::Claim)
    } else if index == 2 {
        Some(RunMode::Exit)
    } else if index == 3 {
        Some(RunMode::Export)
    } else {
        None
    }
}

/// Maps the operator's choice in the mode menu to a mode; the menu has four entries.
pub fn select_mode(index: usize) -> (res: Option<RunMode>)
    ensures
        res == menu_entry(index),
{
    match index {
        0 => Some(RunMode::Mining),
        1 => Some(RunMode::Claim),
        2 => Some(RunMode::Exit),
        3 => Some(RunMode::Export),
        _ => None,
    }
}

/// What to do with the stored settings when a settings file is found.
#[derive(Clone, Copy, Debug, PartialEq, Eq, Structural)]
pub enum ConfigChoice {
    /// Go on with the stored settings.
    Continue,
    /// Ask for every setting anew.
    Overwrite,
    /// Ask for changes to the stored settings.
    Modify,
    /// No file was found: ask for every setting.
    Create,
}

/// The choice behind an entry of the settings menu, counted from zero.
pub open spec fn config_entry(file_exists: bool, index: usize) -> Option<ConfigChoice> {
    if !file_exists {
        Some(ConfigChoice::Create)
    } else if index == 0 {
        Some(ConfigChoice::Continue)
    } else if index == 1 {
        Some(ConfigChoice::Overwrite)
    } else if index == 2 {
        Some(ConfigChoice::Modify)
    } else {
        None
    }
}

/// How the settings are obtained at the start of an interactive run. Without
/// a settings file they are created and `index` is not looked at; with one,
/// `index` is the operator's choice among three entries.
pub fn interactive(file_exists: bool, index: usize) -> (res: Option<ConfigChoice>)
    ensures
        res == config_entry(file_exists, index),
{
    if !file_exists {
        Some(ConfigChoice::Create)
    } else {
        match index {
            0 => Some(ConfigChoice::Continue),
            1 => Some(ConfigChoice::Overwrite),
            2 => Some(ConfigChoice::Modify),
            _ => None,
        }
    }
}

/// Where the loop stands, which is also what its driver has to do next.
#[derive(Clone, Copy, Debug, PartialEq, Eq, Structural)]
pub enum LoopPhase {
    /// Run the action of this mode to its end.
    Acting(RunMode),
    /// Wait for a key press.
    Pausing,
    /// Ask the operator for the next mode.
    Selecting,
    /// The loop has ended well.
    Finished,
    /// The loop has ended with the error of an action or of the selector.
    Failed,
}

/// What the driver reports back.
#[derive(Clone, Copy, Debug, PartialEq, Eq, Structural)]
pub enum LoopEvent {
    ActionDone,
    ActionFailed,
    KeyPressed,
    ModeChosen(RunMode),
    SelectionFailed,
}

impl LoopPhase {
    pub open spec fn ended(self) -> bool {
        self is Finished || self is Failed
    }
}

/// The phase after a pause, or after an action without one.
pub open spec fn after_pause(is_interactive: bool) -> LoopPhase {
    if is_interactive {
        LoopPhase::Selecting
    } else {
        LoopPhase::Finished
    }
}

/// The transition function of the loop. An event that does not belong to
/// the phase leaves the phase as it is.
pub open spec fn next_phase(phase: LoopPhase, event: LoopEvent, is_interactive: bool) -> LoopPhase {
    match (phase, event) {
        (LoopPhase::Acting(_), LoopEvent::ActionFailed) => LoopPhase::Failed,
        (LoopPhase::Acting(mode), LoopEvent::ActionDone) => if is_interactive && mode.pauses() {
            LoopPhase::Pausing
        } else {
            after_pause(is_interactive)
        },
        (LoopPhase::Pausing, LoopEvent::KeyPressed) => after_pause(is_interactive),
        (LoopPhase::Selecting, LoopEvent::ModeChosen(mode)) => LoopPhase::Acting(mode),
        (LoopPhase::Selecting, LoopEvent::SelectionFailed) => LoopPhase::Failed,
        _ => phase,
    }
}

/// How a run starts.
#[derive(Clone, Copy, Debug, PartialEq, Eq, Structural)]
pub struct RunPlan {
    /// Whether the operator is asked for the mode, now and after each action.
    pub is_interactive: bool,
    /// The phase in which the loop starts.
    pub phase: LoopPhase,
}

/// Why a run does not start.
#[derive(Clone, Copy, Debug, PartialEq, Eq, Structural)]
pub enum StartupError {
    /// The configured withdrawal address is not the one that the key gives.
    AddressMismatch,
}

/// The first phase of a run: a run without a given mode is interactive and
/// starts at the selector.
pub open spec fn first_phase(mode: Option<RunMode>) -> RunPlan {
    match mode {
        Some(mode) => RunPlan { is_interactive: false, phase: LoopPhase::Acting(mode) },
        None => RunPlan { is_interactive: true, phase: LoopPhase::Selecting },
    }
}

/// Checks the withdrawal address once, before the loop, and says how the
/// loop starts.
pub fn run(mode: Option<RunMode>, configured: &Address, derived: &Address) -> (res: Result<
    RunPlan,
    StartupError,
>)
    ensures
        configured@ == derived@ ==> res == Ok::<RunPlan, StartupError>(first_phase(mode)),
        configured@ != derived@ ==> res == Err::<RunPlan, StartupError>(
            StartupError::AddressMismatch,
        ),
{
    if !configured.same_as(derived) {
        return Err(StartupError::AddressMismatch);
    }
    match mode {
        Some(mode) => Ok(RunPlan { is_interactive: false, phase: LoopPhase::Acting(mode) }),
        None => Ok(RunPlan { is_interactive: true, phase: LoopPhase::Selecting }),
    }
}

/// One step of the loop: the phase that follows `phase` on `event`.
pub fn mode_loop(phase: LoopPhase, event: LoopEvent, is_interactive: bool) -> (res: LoopPhase)
    ensures
        res == next_phase(phase, event, is_interactive),
        !is_interactive && !(phase is Selecting) ==> !(res is Selecting),
        !is_interactive && !(phase is Pausing) ==> !(res is Pausing),
        !is_interactive && phase is Acting && event is ActionDone ==> res == LoopPhase::Finished,
        phase.ended() ==> res == phase,
{
    match (phase, event) {
        (LoopPhase::Acting(_), LoopEvent::ActionFailed) => LoopPhase::Failed,
        (LoopPhase::Acting(mode), LoopEvent::ActionDone) => {
            if !is_interactive {
                LoopPhase::Finished
            } else if mode.pauses_after() {
                LoopPhase::Pausing
            } else {
                LoopPhase::Selecting
            }
        },
        (LoopPhase::Pausing, LoopEvent::KeyPressed) => {
            if is_interactive {
                LoopPhase::Selecting
            } else {
                LoopPhase::Finished
            }
        },
        (LoopPhase::Selecting, LoopEvent::ModeChosen(mode)) => LoopPhase::Acting(mode),
        (LoopPhase::Selecting, LoopEvent::SelectionFailed) => LoopPhase::Failed,
        _ => phase,
    }
}

/// The phase reached from `phase` by a sequence of events.
pub open spec fn phase_after(phase: LoopPhase, events: Seq<LoopEvent>, is_interactive: bool) -> LoopPhase
    decreases events.len(),
{
    if events.len() == 0 {
        phase
    } else {
        next_phase(phase_after(phase, events.drop_last(), is_interactive), events.last(), is_interactive)
    }
}

/// A run with a given mode ends as soon as its one action is done,
/// whatever the mode: it goes on to `Finished`, with no pause and no
/// selector in between.
pub proof fn lemma_one_action_then_done(mode: RunMode)
    ensures
        first_phase(Some(mode)) == (RunPlan { is_interactive: false, phase: LoopPhase::Acting(mode) }),
        next_phase(LoopPhase::Acting(mode), LoopEvent::ActionDone, false) == LoopPhase::Finished,
{
}

/// A run with a given mode never asks for another mode, never waits for a
/// key and never starts a second action, whatever events it is fed.
pub proof fn lemma_never_reprompts(mode: RunMode, events: Seq<LoopEvent>)
    ensures
        !(phase_after(LoopPhase::Acting(mode), events, false) is Selecting),
        !(phase_after(LoopPhase::Acting(mode), events, false) is Pausing),
        phase_after(LoopPhase::Acting(mode), events, false) matches LoopPhase::Acting(other)
            ==> other == mode,
        phase_after(LoopPhase::Acting(mode), events, false) is Acting ==> forall|i: int|
            0 <= i < events.len() ==> !(#[trigger] events[i] is ActionDone) && !(events[i] is ActionFailed),
    decreases events.len(),
{
    if events.len() > 0 {
        lemma_never_reprompts(mode, events.drop_last());
        let before = phase_after(LoopPhase::Acting(mode), events.drop_last(), false);
        if phase_after(LoopPhase::Acting(mode), events, false) is Acting {
            assert(before is Acting);
            assert forall|i: int| 0 <= i < events.len() implies !(#[trigger] events[i] is ActionDone)
                && !(events[i] is ActionFailed) by {
                if i < events.len() - 1 {
                    assert(events[i] == events.drop_last()[i]);
                }
            }
        }
    }
}

/// An ended loop stays ended.
pub proof fn lemma_ended_stays(phase: LoopPhase, event: LoopEvent, is_interactive: bool)
    requires
        phase.ended(),
    ensures
        next_phase(phase, event, is_interactive) == phase,
{
}

} // verus!
