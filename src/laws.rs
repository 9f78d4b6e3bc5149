use vstd::prelude::*;

use crate::key::{is_quit_key, Key};
use crate::model::WizardView;
use crate::step::Step;

verus! {

/// The way a state was reached is recorded consistently: the name prompt is
/// open only after the new-host entry was chosen, and at the summary a new
/// host was chosen exactly when the new-host entry is highlighted.
pub open spec fn route_consistent(v: WizardView) -> bool {
    &&& v.step == Step::HostNamePrompt ==> v.host_is_new && v.sentinel_highlighted()
    &&& v.step == Step::Done ==> (v.host_is_new <==> v.sentinel_highlighted())
}

/// One key press keeps both highlights in bounds and keeps the recorded
/// route consistent.
pub proof fn lemma_on_key_keeps_invariants(v: WizardView, k: Key)
    requires
        v.wf(),
    ensures
        v.on_key(k).wf(),
        route_consistent(v) ==> route_consistent(v.on_key(k)),
{
}

/// Whatever keys are pressed, the highlighted profile and host entries stay
/// valid indices into their lists.
pub proof fn lemma_keys_keep_highlights_in_bounds(v: WizardView, keys: Seq<Key>)
    requires
        v.wf(),
    ensures
        v.run(keys).wf(),
    decreases keys.len(),
{
    if keys.len() > 0 && !is_quit_key(keys[0]) {
        lemma_on_key_keeps_invariants(v, keys[0]);
        lemma_keys_keep_highlights_in_bounds(v.on_key(keys[0]), keys.drop_first());
    }
}

/// Moving the highlight up or down never leaves the list.
pub proof fn lemma_moves_stay_in_bounds(v: WizardView)
    requires
        v.wf(),
    ensures
        v.moved_up().wf(),
        v.moved_down().wf(),
{
}

/// Advancing from the profile list reaches the host list, and retreating
/// from there gives back the state exactly.
pub proof fn lemma_retreat_undoes_advance(v: WizardView)
    requires
        v.step == Step::ProfileSelection,
    ensures
        v.advanced().step == Step::HostConfig,
        v.advanced().retreated() == v,
{
}

/// Advancing from the host list goes to the name prompt, with a new host
/// and an empty name, when the new-host entry is highlighted; from any other
/// entry it goes straight to the summary, with no new host.
pub proof fn lemma_host_choice_routes(v: WizardView)
    requires
        v.step == Step::HostConfig,
    ensures
        v.sentinel_highlighted() ==> v.advanced().step == Step::HostNamePrompt
            && v.advanced().host_is_new && v.advanced().host_name.len() == 0,
        !v.sentinel_highlighted() ==> v.advanced().step == Step::Done
            && !v.advanced().host_is_new,
{
}

/// Retreating from the summary goes to the name prompt exactly when a new
/// host was chosen, and to the host list otherwise.
pub proof fn lemma_done_goes_back_by_route(v: WizardView)
    requires
        v.step == Step::Done,
    ensures
        v.retreated().step == (if v.host_is_new {
            Step::HostNamePrompt
        } else {
            Step::HostConfig
        }),
{
}

proof fn lemma_run_keeps_route(v: WizardView, keys: Seq<Key>)
    requires
        v.wf(),
        route_consistent(v),
    ensures
        v.run(keys).wf(),
        route_consistent(v.run(keys)),
    decreases keys.len(),
{
    if keys.len() > 0 && !is_quit_key(keys[0]) {
        lemma_on_key_keeps_invariants(v, keys[0]);
        lemma_run_keeps_route(v.on_key(keys[0]), keys.drop_first());
    }
}

/// However often the summary has been left and entered again, each time it
/// is shown, going back follows the host choice (the name prompt for a new
/// host, else the host list), and going back and then forward again returns
/// to the very same state.
pub proof fn lemma_done_reentry(profiles: Seq<Seq<char>>, hosts: Seq<Seq<char>>, keys: Seq<Key>)
    requires
        profiles.len() > 0,
        hosts.len() > 0,
    ensures
        ({
            let w = WizardView::initial(profiles, hosts).run(keys);
            w.step == Step::Done ==> {
                &&& w.host_is_new <==> w.sentinel_highlighted()
                &&& w.retreated().step == (if w.host_is_new {
                    Step::HostNamePrompt
                } else {
                    Step::HostConfig
                })
                &&& w.retreated().advanced() == w
            }
        }),
{
    lemma_run_keeps_route(WizardView::initial(profiles, hosts), keys);
}

proof fn lemma_typed_appends(v: WizardView, cs: Seq<char>)
    requires
        v.step == Step::HostNamePrompt,
    ensures
        v.typed(cs) == (WizardView { host_name: v.host_name + cs, ..v }),
    decreases cs.len(),
{
    if cs.len() > 0 {
        lemma_typed_appends(v, cs.drop_last());
        assert((v.host_name + cs.drop_last()).push(cs.last()) =~= v.host_name + cs);
    }
}

proof fn lemma_erased_truncates(v: WizardView, n: nat)
    requires
        v.step == Step::HostNamePrompt,
        n <= v.host_name.len(),
    ensures
        v.erased(n) == (WizardView {
            host_name: v.host_name.subrange(0, v.host_name.len() - n),
            ..v
        }),
    decreases n,
{
    if n == 0 {
        assert(v.host_name.subrange(0, v.host_name.len() as int) =~= v.host_name);
    } else {
        let w = v.without_last_char();
        lemma_erased_truncates(w, (n - 1) as nat);
        assert(w.host_name.subrange(0, w.host_name.len() - (n - 1)) =~= v.host_name.subrange(
            0,
            v.host_name.len() - n,
        ));
    }
}

/// At the name prompt, typing some characters and then pressing backspace as
/// many times gives back the state exactly.
pub proof fn lemma_erase_undoes_typing(v: WizardView, cs: Seq<char>)
    requires
        v.step == Step::HostNamePrompt,
    ensures
        v.typed(cs).erased(cs.len()) == v,
{
    lemma_typed_appends(v, cs);
    let t = v.typed(cs);
    lemma_erased_truncates(t, cs.len());
    assert(t.host_name.subrange(0, t.host_name.len() - cs.len()) =~= v.host_name);
}

/// Backspace on an empty name leaves the state as it is, however often it
/// is pressed.
pub proof fn lemma_erase_empty_name(v: WizardView, n: nat)
    requires
        v.host_name.len() == 0,
    ensures
        v.erased(n) == v,
    decreases n,
{
    if n > 0 {
        lemma_erase_empty_name(v, (n - 1) as nat);
    }
}

/// The quit key changes nothing at any step, and the input loop handles no
/// key after it.
pub proof fn lemma_quit_key_stops(v: WizardView, keys: Seq<Key>)
    requires
        keys.len() > 0,
        is_quit_key(keys[0]),
    ensures
        v.on_key(keys[0]) == v,
        v.run(keys) == v,
{
}

} // verus!
