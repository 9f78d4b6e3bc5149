use vstd::prelude::*;
use vstd::string::*;

use crate::model::WizardView;
use crate::step::Step;
use crate::wizard::texts;

verus! {

/// A list entry as shown: a marker for the highlighted entry, blanks for the others.
pub open spec fn item_line(label: Seq<char>, selected: bool) -> Seq<char> {
    (if selected {
        "> "@
    } else {
        "  "@
    }) + label
}

/// The lines of a list whose entry `selected` is highlighted.
pub open spec fn list_of(labels: Seq<Seq<char>>, selected: int) -> Seq<Seq<char>> {
    Seq::new(labels.len(), |i: int| item_line(labels[i], i == selected))
}

/// The list that a step shows; steps without a list show no lines.
pub open spec fn list_lines_of(v: WizardView) -> Seq<Seq<char>> {
    match v.step {
        Step::ProfileSelection => list_of(v.profiles, v.profile_idx),
        Step::HostConfig => list_of(v.hosts, v.host_idx),
        _ => Seq::empty(),
    }
}

/// The name prompt's text, echoing the name typed so far.
pub open spec fn prompt_text_of(name: Seq<char>) -> Seq<char> {
    "Enter new host name (type and press Enter):\n"@ + name
}

/// The two-line summary: the chosen profile and the chosen host.
pub open spec fn summary_text_of(v: WizardView) -> Seq<char> {
    "Profile: "@ + v.profiles[v.profile_idx] + "\nHost: "@ + v.host_label()
}

/// The text of one list entry.
pub fn item_text(label: &str, selected: bool) -> (r: String)
    ensures
        r@ == item_line(label@, selected),
{
    let mut r = if selected {
        "> ".to_owned()
    } else {
        "  ".to_owned()
    };
    r.append(label);
    r
}

/// The lines of a list whose entry `selected` is highlighted.
pub fn list_text(labels: &[&'static str], selected: usize) -> (r: Vec<String>)
    ensures
        r@.map_values(|s: String| s@) == list_of(texts(labels@), selected as int),
{
    let mut r: Vec<String> = Vec::new();
    let mut i: usize = 0;
    while i < labels.len()
        invariant
            i <= labels@.len(),
            r@.len() == i,
            forall|j: int|
                0 <= j < i ==> #[trigger] r@[j]@ == item_line(labels@[j]@, j == selected as int),
        decreases labels@.len() - i,
    {
        r.push(item_text(labels[i], i == selected));
        i += 1;
    }
    assert(r@.map_values(|s: String| s@) =~= list_of(texts(labels@), selected as int));
    r
}

} // verus!
