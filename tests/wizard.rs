use host_wizard::key::{Flow, Key};
use host_wizard::step::Step;
use host_wizard::wizard::App;

fn press(app: &mut App, keys: &[Key]) {
    for k in keys {
        assert_eq!(app.handle_key(*k), Flow::Continue);
    }
}

fn snapshot(app: &App) -> (Step, usize, usize, bool, String) {
    (
        app.current_step(),
        app.profile_idx(),
        app.host_idx(),
        app.host_is_new(),
        app.host_name().to_string(),
    )
}

#[test]
fn starts_at_profile_selection() {
    let app = App::new();
    assert_eq!(snapshot(&app), (Step::ProfileSelection, 0, 0, false, String::new()));
    assert_eq!(app.profiles(), &["desktop (nix-dots)", "server (nixos-server)"]);
    assert_eq!(app.hosts(), &["carbon", "helium", "Create new host..."]);
}

#[test]
fn new_host_scenario() {
    let mut app = App::new();
    press(&mut app, &[Key::Down]);
    assert_eq!(app.profile_idx(), 1);
    press(&mut app, &[Key::Enter]);
    assert_eq!(app.current_step(), Step::HostConfig);
    press(&mut app, &[Key::Down, Key::Down]);
    assert_eq!(app.host_idx(), 2);
    press(&mut app, &[Key::Enter]);
    assert!(app.host_is_new());
    assert_eq!(app.current_step(), Step::HostNamePrompt);
    press(&mut app, &[Key::Char('h'), Key::Char('i')]);
    assert_eq!(app.host_name(), "hi");
    press(&mut app, &[Key::Enter]);
    assert_eq!(app.current_step(), Step::Done);
    assert_eq!(app.summary_host_label(), "hi");
    assert_eq!(app.summary_text(), "Profile: server (nixos-server)\nHost: hi");
}

#[test]
fn existing_host_scenario() {
    let mut app = App::new();
    press(&mut app, &[Key::Enter]);
    assert_eq!(app.current_step(), Step::HostConfig);
    press(&mut app, &[Key::Enter]);
    assert!(!app.host_is_new());
    assert_eq!(app.current_step(), Step::Done);
    assert_eq!(app.summary_host_label(), app.hosts()[0]);
    assert_eq!(app.summary_host_label(), "carbon");
    assert_eq!(app.summary_text(), "Profile: desktop (nix-dots)\nHost: carbon");
}

#[test]
fn quit_key_changes_nothing_at_every_step() {
    let paths: [&[Key]; 5] = [
        &[],
        &[Key::Down, Key::Right],
        &[Key::Enter, Key::Up, Key::Up, Key::Enter, Key::Char('x')],
        &[Key::Enter, Key::Down, Key::Enter],
        &[Key::Enter, Key::Up, Key::Enter, Key::Char('a'), Key::Enter],
    ];
    for path in paths {
        let mut app = App::new();
        press(&mut app, path);
        let before = snapshot(&app);
        assert_eq!(app.handle_key(Key::Char('q')), Flow::Quit);
        assert_eq!(snapshot(&app), before);
    }
}

#[test]
fn quit_key_is_not_typed_into_the_name() {
    let mut app = App::new();
    press(&mut app, &[Key::Right, Key::Down, Key::Down, Key::Right, Key::Char('a')]);
    assert_eq!(app.current_step(), Step::HostNamePrompt);
    assert_eq!(app.handle_key(Key::Char('q')), Flow::Quit);
    assert_eq!(app.host_name(), "a");
}

#[test]
fn moves_clamp_at_both_ends() {
    let mut app = App::new();
    press(&mut app, &[Key::Up, Key::Up]);
    assert_eq!(app.profile_idx(), 0);
    press(&mut app, &[Key::Down, Key::Down, Key::Down, Key::Down]);
    assert_eq!(app.profile_idx(), 1);
    press(&mut app, &[Key::Right]);
    press(&mut app, &[Key::Up]);
    assert_eq!(app.host_idx(), 0);
    press(&mut app, &[Key::Down, Key::Down, Key::Down, Key::Down, Key::Down]);
    assert_eq!(app.host_idx(), 2);
    press(&mut app, &[Key::Up]);
    assert_eq!(app.host_idx(), 1);
    assert_eq!(app.profile_idx(), 1);
}

#[test]
fn moves_outside_lists_change_nothing() {
    let mut app = App::new();
    press(&mut app, &[Key::Enter, Key::Enter]);
    let before = snapshot(&app);
    app.move_selection_down();
    app.move_selection_up();
    assert_eq!(snapshot(&app), before);
}

#[test]
fn retreat_undoes_advance_from_profiles() {
    let mut app = App::new();
    press(&mut app, &[Key::Down]);
    let before = snapshot(&app);
    app.advance();
    assert_eq!(app.current_step(), Step::HostConfig);
    app.retreat();
    assert_eq!(snapshot(&app), before);
}

#[test]
fn retreat_at_first_step_is_a_no_op() {
    let mut app = App::new();
    press(&mut app, &[Key::Left]);
    assert_eq!(snapshot(&app), (Step::ProfileSelection, 0, 0, false, String::new()));
}

#[test]
fn left_from_done_follows_the_host_choice() {
    let mut app = App::new();
    press(&mut app, &[Key::Enter, Key::Down, Key::Enter]);
    assert_eq!(app.current_step(), Step::Done);
    press(&mut app, &[Key::Left]);
    assert_eq!(app.current_step(), Step::HostConfig);

    let mut app = App::new();
    press(&mut app, &[Key::Enter, Key::Down, Key::Down, Key::Enter, Key::Enter]);
    assert_eq!(app.current_step(), Step::Done);
    for _ in 0..3 {
        press(&mut app, &[Key::Left]);
        assert_eq!(app.current_step(), Step::HostNamePrompt);
        press(&mut app, &[Key::Enter]);
        assert_eq!(app.current_step(), Step::Done);
    }
}

#[test]
fn choosing_an_existing_host_after_a_new_one_clears_the_flag() {
    let mut app = App::new();
    press(&mut app, &[Key::Enter, Key::Down, Key::Down, Key::Enter, Key::Esc, Key::Up, Key::Enter]);
    assert!(!app.host_is_new());
    assert_eq!(app.current_step(), Step::Done);
    press(&mut app, &[Key::Left]);
    assert_eq!(app.current_step(), Step::HostConfig);
}

#[test]
fn forward_keys_do_nothing_at_done() {
    let mut app = App::new();
    press(&mut app, &[Key::Enter, Key::Enter]);
    let before = snapshot(&app);
    press(&mut app, &[Key::Right, Key::Enter, Key::Up, Key::Down, Key::Char('z'), Key::Backspace]);
    assert_eq!(snapshot(&app), before);
}

#[test]
fn typing_then_erasing_restores_the_name() {
    let mut app = App::new();
    press(&mut app, &[Key::Enter, Key::Down, Key::Down, Key::Enter, Key::Char('a')]);
    press(&mut app, &[Key::Char('b'), Key::Char('c'), Key::Char('é')]);
    assert_eq!(app.host_name(), "abcé");
    press(&mut app, &[Key::Backspace, Key::Backspace, Key::Backspace]);
    assert_eq!(app.host_name(), "a");
}

#[test]
fn backspace_on_empty_name_keeps_it_empty() {
    let mut app = App::new();
    press(&mut app, &[Key::Enter, Key::Down, Key::Down, Key::Enter]);
    press(&mut app, &[Key::Backspace, Key::Backspace]);
    assert_eq!(app.host_name(), "");
    assert_eq!(app.current_step(), Step::HostNamePrompt);
}

#[test]
fn reentering_the_prompt_from_the_host_list_clears_the_name() {
    let mut app = App::new();
    press(&mut app, &[Key::Enter, Key::Down, Key::Down, Key::Enter, Key::Char('x'), Key::Left]);
    assert_eq!(app.current_step(), Step::HostConfig);
    assert_eq!(app.host_name(), "x");
    press(&mut app, &[Key::Enter]);
    assert_eq!(app.host_name(), "");
}

#[test]
fn empty_new_host_name_shows_a_placeholder() {
    let mut app = App::new();
    press(&mut app, &[Key::Enter, Key::Down, Key::Down, Key::Enter, Key::Enter]);
    assert_eq!(app.current_step(), Step::Done);
    assert_eq!(app.summary_host_label(), "<unnamed host>");
}

#[test]
fn text_only_enters_at_the_prompt() {
    let mut app = App::new();
    app.append_char('x');
    app.backspace();
    assert_eq!(app.host_name(), "");
    press(&mut app, &[Key::Right, Key::Down, Key::Down, Key::Right]);
    app.append_char('x');
    assert_eq!(app.host_name(), "x");
    press(&mut app, &[Key::Right]);
    assert_eq!(app.current_step(), Step::HostNamePrompt);
}

#[test]
fn linear_step_moves_stop_at_the_ends() {
    let mut app = App::new();
    app.prev_step();
    assert_eq!(app.current_step(), Step::ProfileSelection);
    for _ in 0..5 {
        app.next_step();
    }
    assert_eq!(app.current_step(), Step::Done);
    app.prev_step();
    assert_eq!(app.current_step(), Step::HostNamePrompt);
}

#[test]
fn custom_choices_with_only_the_new_host_entry() {
    let mut app = App::with_choices(vec!["only"], vec!["New..."]);
    press(&mut app, &[Key::Down, Key::Enter, Key::Down, Key::Enter]);
    assert_eq!(app.current_step(), Step::HostNamePrompt);
    assert!(app.host_is_new());
}
