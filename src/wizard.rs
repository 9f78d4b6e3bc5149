use vstd::prelude::*;
use vstd::string::*;

use crate::frame::{list_lines_of, list_text, prompt_text_of, summary_text_of};
use crate::key::{is_quit_key, Flow, Key};
use crate::model::WizardView;
use crate::step::{step_at, Step, STEP_COUNT};

verus! {

/// The text of each entry of a list of labels.
pub open spec fn texts(labels: Seq<&'static str>) -> Seq<Seq<char>> {
    labels.map_values(|s: &'static str| s@)
}

/// Relies on `String::push`: the character is appended at the end.
#[verifier::external_body]
fn push_char(s: &mut String, c: char)
    ensures
        final(s)@ == old(s)@.push(c),
{
    s.push(c)
}

/// Relies on `String::pop`: the last character is removed and returned, and
/// an empty string is left as it is.
#[verifier::external_body]
fn pop_char(s: &mut String) -> (r: Option<char>)
    ensures
        old(s)@.len() == 0 ==> r.is_none() && final(s)@ == old(s)@,
        old(s)@.len() > 0 ==> r == Some(old(s)@.last()) && final(s)@ == old(s)@.drop_last(),
{
    s.pop()
}

/// The wizard's state: the current step, the highlighted entry of each list,
/// and the name typed for a new host.
pub struct App {
    step_idx: usize,
    profile_idx: usize,
    host_idx: usize,
    host_is_new: bool,
    host_name: String,
    profiles: Vec<&'static str>,
    hosts: Vec<&'static str>,
}

impl View for App {
    type V = WizardView;

    closed spec fn view(&self) -> WizardView {
        WizardView {
            step: step_at(self.step_idx as int),
            profiles: texts(self.profiles@),
            profile_idx: self.profile_idx as int,
            hosts: texts(self.hosts@),
            host_idx: self.host_idx as int,
            host_is_new: self.host_is_new,
            host_name: self.host_name@,
        }
    }
}

impl App {
    /// The step index names a step and both highlights lie inside their lists.
    pub closed spec fn wf(&self) -> bool {
        &&& self.step_idx < STEP_COUNT
        &&& self.profile_idx < self.profiles@.len()
        &&& self.host_idx < self.hosts@.len()
        &&& self@.wf()
    }

    /// The wizard at its first step, over the given profile and host entries;
    /// the last host entry stands for "create a new host".
    pub fn with_choices(profiles: Vec<&'static str>, hosts: Vec<&'static str>) -> (r: App)
        requires
            profiles@.len() > 0,
            hosts@.len() > 0,
        ensures
            r.wf(),
            r@ == WizardView::initial(texts(profiles@), texts(hosts@)),
    {
        let r = App {
            step_idx: 0,
            profile_idx: 0,
            host_idx: 0,
            host_is_new: false,
            host_name: String::new(),
            profiles,
            hosts,
        };
        assert(r@ == WizardView::initial(texts(r.profiles@), texts(r.hosts@)));
        r
    }

    /// The wizard at its first step, over the built-in profiles and hosts.
    pub fn new() -> (r: App)
        ensures
            r.wf(),
            r@ == WizardView::initial(
                seq!["desktop (nix-dots)"@, "server (nixos-server)"@],
                seq!["carbon"@, "helium"@, "Create new host..."@],
            ),
    {
        let profiles = vec!["desktop (nix-dots)", "server (nixos-server)"];
        let hosts = vec!["carbon", "helium", "Create new host..."];
        assert(texts(profiles@) =~= seq!["desktop (nix-dots)"@, "server (nixos-server)"@]);
        assert(texts(hosts@) =~= seq!["carbon"@, "helium"@, "Create new host..."@]);
        App::with_choices(profiles, hosts)
    }

    /// The step shown now.
    pub fn current_step(&self) -> (r: Step)
        requires
            self.wf(),
        ensures
            r == self@.step,
    {
        Step::all()[self.step_idx]
    }

    /// Goes to the next step in step order, if there is one.
    pub fn next_step(&mut self)
        requires
            old(self).wf(),
        ensures
            final(self).wf(),
            final(self)@ == old(self)@.stepped_forward(),
    {
        if self.step_idx + 1 < Step::all().len() {
            self.step_idx += 1;
        }
    }

    /// Goes to the previous step in step order, if there is one.
    pub fn prev_step(&mut self)
        requires
            old(self).wf(),
        ensures
            final(self).wf(),
            final(self)@ == old(self)@.stepped_back(),
    {
        if self.step_idx > 0 {
            self.step_idx -= 1;
        }
    }

    /// Jumps to the given step.
    fn go_to(&mut self, s: Step)
        requires
            old(self).wf(),
        ensures
            final(self).wf(),
            final(self)@ == (WizardView { step: s, ..old(self)@ }),
    {
        self.step_idx = s.position();
    }

    /// Moves the highlight of the current step's list one entry up; at the
    /// top, and at a step without a list, nothing changes.
    pub fn move_selection_up(&mut self)
        requires
            old(self).wf(),
        ensures
            final(self).wf(),
            final(self)@ == old(self)@.moved_up(),
    {
        match self.current_step() {
            Step::ProfileSelection => {
                if self.profile_idx > 0 {
                    self.profile_idx -= 1;
                }
            },
            Step::HostConfig => {
                if self.host_idx > 0 {
                    self.host_idx -= 1;
                }
            },
            _ => {},
        }
    }

    /// Moves the highlight of the current step's list one entry down; at the
    /// bottom, and at a step without a list, nothing changes.
    pub fn move_selection_down(&mut self)
        requires
            old(self).wf(),
        ensures
            final(self).wf(),
            final(self)@ == old(self)@.moved_down(),
    {
        match self.current_step() {
            Step::ProfileSelection => {
                if self.profile_idx < self.profiles.len() - 1 {
                    self.profile_idx += 1;
                }
            },
            Step::HostConfig => {
                if self.host_idx < self.hosts.len() - 1 {
                    self.host_idx += 1;
                }
            },
            _ => {},
        }
    }

    /// Goes on from the current step: from the host list to the name prompt
    /// when the new-host entry is highlighted, else straight to the summary.
    pub fn advance(&mut self)
        requires
            old(self).wf(),
        ensures
            final(self).wf(),
            final(self)@ == old(self)@.advanced(),
    {
        match self.current_step() {
            Step::ProfileSelection => self.next_step(),
            Step::HostConfig => {
                if self.host_idx == self.hosts.len() - 1 {
                    self.host_is_new = true;
                    self.host_name = String::new();
                    self.go_to(Step::HostNamePrompt);
                } else {
                    self.host_is_new = false;
                    self.go_to(Step::Done);
                }
            },
            Step::HostNamePrompt => self.go_to(Step::Done),
            Step::Done => {},
        }
    }

    /// Goes back from the current step: from the summary to the name prompt
    /// when a new host was chosen, else to the host list.
    pub fn retreat(&mut self)
        requires
            old(self).wf(),
        ensures
            final(self).wf(),
            final(self)@ == old(self)@.retreated(),
    {
        match self.current_step() {
            Step::Done => {
                if self.host_is_new {
                    self.go_to(Step::HostNamePrompt);
                } else {
                    self.go_to(Step::HostConfig);
                }
            },
            _ => self.prev_step(),
        }
    }

    /// Appends a character to the new host's name; only the name prompt
    /// takes text.
    pub fn append_char(&mut self, c: char)
        requires
            old(self).wf(),
        ensures
            final(self).wf(),
            final(self)@ == old(self)@.with_char(c),
    {
        if self.step_idx == Step::HostNamePrompt.position() {
            push_char(&mut self.host_name, c);
        }
    }

    /// Deletes the last character of the new host's name; only the name
    /// prompt takes text, and an empty name stays empty.
    pub fn backspace(&mut self)
        requires
            old(self).wf(),
        ensures
            final(self).wf(),
            final(self)@ == old(self)@.without_last_char(),
            old(self)@.host_name.len() == 0 ==> final(self)@ == old(self)@,
    {
        if self.step_idx == Step::HostNamePrompt.position() {
            pop_char(&mut self.host_name);
        }
    }

    /// The host that the summary names: the typed name (or a placeholder when
    /// it is empty) for a new host, else the highlighted host entry.
    pub fn summary_host_label(&self) -> (r: &str)
        requires
            self.wf(),
        ensures
            r@ == self@.host_label(),
    {
        if self.host_is_new {
            if self.host_name.as_str().is_empty() {
                "<unnamed host>"
            } else {
                self.host_name.as_str()
            }
        } else {
            self.hosts[self.host_idx]
        }
    }

    /// Handles one key press by the current step's key bindings, and says
    /// whether the input loop goes on; the quit key changes nothing.
    pub fn handle_key(&mut self, key: Key) -> (r: Flow)
        requires
            old(self).wf(),
        ensures
            final(self).wf(),
            final(self)@ == old(self)@.on_key(key),
            r == (if is_quit_key(key) { Flow::Quit } else { Flow::Continue }),
            is_quit_key(key) ==> *final(self) == *old(self),
    {
        if key.is_quit() {
            return Flow::Quit;
        }
        match self.current_step() {
            Step::ProfileSelection | Step::HostConfig => match key {
                Key::Up => self.move_selection_up(),
                Key::Down => self.move_selection_down(),
                Key::Right | Key::Enter => self.advance(),
                Key::Left => self.retreat(),
                _ => {},
            },
            Step::HostNamePrompt => match key {
                Key::Enter => self.advance(),
                Key::Backspace => self.backspace(),
                Key::Char(c) => self.append_char(c),
                Key::Esc | Key::Left => self.retreat(),
                _ => {},
            },
            Step::Done => match key {
                Key::Left => self.retreat(),
                _ => {},
            },
        }
        Flow::Continue
    }

    /// The index of the highlighted profile entry.
    pub fn profile_idx(&self) -> (r: usize)
        ensures
            r as int == self@.profile_idx,
    {
        self.profile_idx
    }

    /// The index of the highlighted host entry.
    pub fn host_idx(&self) -> (r: usize)
        ensures
            r as int == self@.host_idx,
    {
        self.host_idx
    }

    /// Whether the new-host entry was chosen.
    pub fn host_is_new(&self) -> (r: bool)
        ensures
            r == self@.host_is_new,
    {
        self.host_is_new
    }

    /// The name typed for a new host.
    pub fn host_name(&self) -> (r: &str)
        ensures
            r@ == self@.host_name,
    {
        self.host_name.as_str()
    }

    /// The profile entries.
    pub fn profiles(&self) -> (r: &[&'static str])
        ensures
            texts(r@) == self@.profiles,
    {
        self.profiles.as_slice()
    }

    /// The host entries; the last one stands for "create a new host".
    pub fn hosts(&self) -> (r: &[&'static str])
        ensures
            texts(r@) == self@.hosts,
    {
        self.hosts.as_slice()
    }
}

impl App {
    /// The lines of the list that the current step shows, if it shows one.
    pub fn list_lines(&self) -> (r: Vec<String>)
        requires
            self.wf(),
        ensures
            r@.map_values(|s: String| s@) == list_lines_of(self@),
    {
        match self.current_step() {
            Step::ProfileSelection => list_text(self.profiles(), self.profile_idx()),
            Step::HostConfig => list_text(self.hosts(), self.host_idx()),
            _ => {
                let r: Vec<String> = Vec::new();
                assert(r@.map_values(|s: String| s@) =~= Seq::<Seq<char>>::empty());
                r
            },
        }
    }

    /// The name prompt's text, echoing the name typed so far.
    pub fn prompt_text(&self) -> (r: String)
        ensures
            r@ == prompt_text_of(self@.host_name),
    {
        let mut r = "Enter new host name (type and press Enter):\n".to_owned();
        r.append(self.host_name());
        r
    }

    /// The two-line summary of the chosen profile and host.
    pub fn summary_text(&self) -> (r: String)
        requires
            self.wf(),
        ensures
            r@ == summary_text_of(self@),
    {
        let profiles = self.profiles();
        let mut r = "Profile: ".to_owned();
        r.append(profiles[self.profile_idx()]);
        r.append("\nHost: ");
        r.append(self.summary_host_label());
        r
    }
}

} // verus!
