use vstd::prelude::*;

verus! {

/// One stage of the wizard, in the order in which they are first visited.
#[derive(Clone, Copy, Debug, PartialEq, Eq, Structural)]
pub enum Step {
    ProfileSelection,
    HostConfig,
    HostNamePrompt,
    Done,
}

/// The number of steps.
pub const STEP_COUNT: usize = 4;

/// The step that stands at position `i` of the ordered step set.
pub open spec fn step_at(i: int) -> Step
    recommends
        0 <= i < STEP_COUNT,
{
    if i == 0 {
        Step::ProfileSelection
    } else if i == 1 {
        Step::HostConfig
    } else if i == 2 {
        Step::HostNamePrompt
    } else {
        Step::Done
    }
}

/// The position of a step in the ordered step set.
pub open spec fn position_of(s: Step) -> int {
    match s {
        Step::ProfileSelection => 0,
        Step::HostConfig => 1,
        Step::HostNamePrompt => 2,
        Step::Done => 3,
    }
}

/// The name of a step, shown in the title bar.
pub open spec fn title_of(s: Step) -> Seq<char> {
    match s {
        Step::ProfileSelection => "Profile Selection"@,
        Step::HostConfig => "Host Configuration"@,
        Step::HostNamePrompt => "Enter Host Name"@,
        Step::Done => "Done"@,
    }
}

/// The caption of the panel that shows a step's content.
pub open spec fn panel_title_of(s: Step) -> Seq<char> {
    match s {
        Step::ProfileSelection => "Select Profile"@,
        Step::HostConfig => "Select Host"@,
        Step::HostNamePrompt => "New Host"@,
        Step::Done => "Summary"@,
    }
}

impl Step {
    /// Every step, in order.
    pub fn all() -> (r: &'static [Step])
        ensures
            r@.len() == STEP_COUNT,
            forall|i: int| 0 <= i < STEP_COUNT ==> r@[i] == step_at(i),
    {
        &[Step::ProfileSelection, Step::HostConfig, Step::HostNamePrompt, Step::Done]
    }

    /// The position of this step in `Step::all()`.
    pub fn position(&self) -> (r: usize)
        ensures
            r as int == position_of(*self),
            r < STEP_COUNT,
            step_at(r as int) == *self,
    {
        match self {
            Step::ProfileSelection => 0,
            Step::HostConfig => 1,
            Step::HostNamePrompt => 2,
            Step::Done => 3,
        }
    }

    /// The name of this step, shown in the title bar.
    pub fn title(&self) -> (r: &'static str)
        ensures
            r@ == title_of(*self),
    {
        match self {
            Step::ProfileSelection => "Profile Selection",
            Step::HostConfig => "Host Configuration",
            Step::HostNamePrompt => "Enter Host Name",
            Step::Done => "Done",
        }
    }

    /// The caption of the panel that shows this step's content.
    pub fn panel_title(&self) -> (r: &'static str)
        ensures
            r@ == panel_title_of(*self),
    {
        match self {
            Step::ProfileSelection => "Select Profile",
            Step::HostConfig => "Select Host",
            Step::HostNamePrompt => "New Host",
            Step::Done => "Summary",
        }
    }
}

} // verus!
