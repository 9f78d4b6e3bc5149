use vstd::prelude::*;

use crate::key::{is_quit_key, Key};
use crate::step::{position_of, step_at, Step, STEP_COUNT};

verus! {

/// The wizard's state as mathematical values.
pub struct WizardView {
    pub step: Step,
    pub profiles: Seq<Seq<char>>,
    pub profile_idx: int,
    /// The host entries; the last one stands for "create a new host".
    pub hosts: Seq<Seq<char>>,
    pub host_idx: int,
    pub host_is_new: bool,
    pub host_name: Seq<char>,
}

/// Shown in the summary for a new host whose name was left empty.
pub open spec fn unnamed_host() -> Seq<char> {
    "<unnamed host>"@
}

impl WizardView {
    /// The state in which the wizard starts.
    pub open spec fn initial(profiles: Seq<Seq<char>>, hosts: Seq<Seq<char>>) -> WizardView {
        WizardView {
            step: Step::ProfileSelection,
            profiles,
            profile_idx: 0,
            hosts,
            host_idx: 0,
            host_is_new: false,
            host_name: Seq::empty(),
        }
    }

    /// Both highlighted entries are valid indices into their lists.
    pub open spec fn wf(self) -> bool {
        &&& 0 <= self.profile_idx < self.profiles.len()
        &&& 0 <= self.host_idx < self.hosts.len()
    }

    /// The highlighted host entry is the one that creates a new host.
    pub open spec fn sentinel_highlighted(self) -> bool {
        self.host_idx == self.hosts.len() - 1
    }

    /// The step after the current one in step order; the last step stays.
    pub open spec fn stepped_forward(self) -> WizardView {
        if position_of(self.step) + 1 < STEP_COUNT {
            WizardView { step: step_at(position_of(self.step) + 1), ..self }
        } else {
            self
        }
    }

    /// The step before the current one in step order; the first step stays.
    pub open spec fn stepped_back(self) -> WizardView {
        if position_of(self.step) > 0 {
            WizardView { step: step_at(position_of(self.step) - 1), ..self }
        } else {
            self
        }
    }

    /// Moves the highlight of the current step's list one entry up, stopping at the top.
    pub open spec fn moved_up(self) -> WizardView {
        match self.step {
            Step::ProfileSelection => if self.profile_idx > 0 {
                WizardView { profile_idx: self.profile_idx - 1, ..self }
            } else {
                self
            },
            Step::HostConfig => if self.host_idx > 0 {
                WizardView { host_idx: self.host_idx - 1, ..self }
            } else {
                self
            },
            _ => self,
        }
    }

    /// Moves the highlight of the current step's list one entry down, stopping at the bottom.
    pub open spec fn moved_down(self) -> WizardView {
        match self.step {
            Step::ProfileSelection => if self.profile_idx + 1 < self.profiles.len() {
                WizardView { profile_idx: self.profile_idx + 1, ..self }
            } else {
                self
            },
            Step::HostConfig => if self.host_idx + 1 < self.hosts.len() {
                WizardView { host_idx: self.host_idx + 1, ..self }
            } else {
                self
            },
            _ => self,
        }
    }

    /// Goes on from the current step.
    pub open spec fn advanced(self) -> WizardView {
        match self.step {
            Step::ProfileSelection => WizardView { step: Step::HostConfig, ..self },
            Step::HostConfig => if self.sentinel_highlighted() {
                WizardView {
                    step: Step::HostNamePrompt,
                    host_is_new: true,
                    host_name: Seq::empty(),
                    ..self
                }
            } else {
                WizardView { step: Step::Done, host_is_new: false, ..self }
            },
            Step::HostNamePrompt => WizardView { step: Step::Done, ..self },
            Step::Done => self,
        }
    }

    /// Goes back from the current step; from `Done` the way back depends on
    /// whether a new host was chosen.
    pub open spec fn retreated(self) -> WizardView {
        match self.step {
            Step::ProfileSelection => self,
            Step::HostConfig => WizardView { step: Step::ProfileSelection, ..self },
            Step::HostNamePrompt => WizardView { step: Step::HostConfig, ..self },
            Step::Done => if self.host_is_new {
                WizardView { step: Step::HostNamePrompt, ..self }
            } else {
                WizardView { step: Step::HostConfig, ..self }
            },
        }
    }

    /// Adds a character to the new host's name while it is being entered.
    pub open spec fn with_char(self, c: char) -> WizardView {
        if self.step == Step::HostNamePrompt {
            WizardView { host_name: self.host_name.push(c), ..self }
        } else {
            self
        }
    }

    /// Removes the last character of the new host's name while it is being
    /// entered; an empty name stays empty.
    pub open spec fn without_last_char(self) -> WizardView {
        if self.step == Step::HostNamePrompt && self.host_name.len() > 0 {
            WizardView { host_name: self.host_name.drop_last(), ..self }
        } else {
            self
        }
    }

    /// The host that the summary names.
    pub open spec fn host_label(self) -> Seq<char> {
        if self.host_is_new {
            if self.host_name.len() == 0 {
                unnamed_host()
            } else {
                self.host_name
            }
        } else {
            self.hosts[self.host_idx]
        }
    }

    /// The effect of one key press, following each step's key bindings.
    pub open spec fn on_key(self, k: Key) -> WizardView {
        if is_quit_key(k) {
            self
        } else {
            match self.step {
                Step::ProfileSelection | Step::HostConfig => match k {
                    Key::Up => self.moved_up(),
                    Key::Down => self.moved_down(),
                    Key::Right | Key::Enter => self.advanced(),
                    Key::Left => self.retreated(),
                    _ => self,
                },
                Step::HostNamePrompt => match k {
                    Key::Enter => self.advanced(),
                    Key::Backspace => self.without_last_char(),
                    Key::Char(c) => self.with_char(c),
                    Key::Esc | Key::Left => self.retreated(),
                    _ => self,
                },
                Step::Done => match k {
                    Key::Left => self.retreated(),
                    _ => self,
                },
            }
        }
    }

    /// The state after the input loop has handled `keys` in order; the loop
    /// stops at the first quit key.
    pub open spec fn run(self, keys: Seq<Key>) -> WizardView
        decreases keys.len(),
    {
        if keys.len() == 0 {
            self
        } else if is_quit_key(keys[0]) {
            self
        } else {
            self.on_key(keys[0]).run(keys.drop_first())
        }
    }

    /// Types `cs` into the new host's name, one character at a time.
    pub open spec fn typed(self, cs: Seq<char>) -> WizardView
        decreases cs.len(),
    {
        if cs.len() == 0 {
            self
        } else {
            self.typed(cs.drop_last()).with_char(cs.last())
        }
    }

    /// Presses backspace `n` times.
    pub open spec fn erased(self, n: nat) -> WizardView
        decreases n,
    {
        if n == 0 {
            self
        } else {
            self.without_last_char().erased((n - 1) as nat)
        }
    }
}

} // verus!
