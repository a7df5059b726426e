use crunch::app::{AppState, Command, Key, KeyPress};
use crunch::chain::EffectChain;
use crunch::types::{EffectKind, PedalFocus, Screen};

fn press(key: Key) -> KeyPress {
    KeyPress { key, ctrl: false }
}

fn open_pedalboard(state: &mut AppState) {
    assert_eq!(state.handle_key(press(Key::Enter), 0, 0), Command::Nothing);
    assert_eq!(state.handle_key(press(Key::Enter), 0, 0), Command::Nothing);
    let cmd = state.handle_key(press(Key::Enter), 0, 0);
    assert_eq!(cmd, Command::OpenPedalboard { input: state.selected_input, output: state.selected_output });
    state.pedalboard_opened();
}

#[test]
fn starts_on_main_menu_with_default_devices() {
    let state = AppState::new(3, 2, Some(2), None);
    assert_eq!(state.screen, Screen::MainMenu);
    assert_eq!(state.menu_index, 0);
    assert_eq!(state.selected_input, 2);
    assert_eq!(state.selected_output, 0);
    assert_eq!(state.pedal_focus, PedalFocus::Params);
    assert!(!state.running);
    assert!(!state.streams_open);
}

#[test]
fn q_and_control_c_quit_everywhere() {
    let mut state = AppState::new(1, 1, None, None);
    assert_eq!(state.handle_key(press(Key::Char('q')), 0, 0), Command::Quit);
    assert_eq!(state.handle_key(KeyPress { key: Key::Char('c'), ctrl: true }, 0, 0), Command::Quit);
    assert_eq!(state.handle_key(press(Key::Char('c')), 0, 0), Command::Nothing);
    open_pedalboard(&mut state);
    assert_eq!(state.handle_key(press(Key::Char('q')), 0, 0), Command::Quit);
    assert_eq!(state.screen, Screen::Pedalboard);
}

#[test]
fn main_menu_navigation() {
    let mut state = AppState::new(1, 1, None, None);
    state.handle_key(press(Key::Up), 0, 0);
    assert_eq!(state.menu_index, 0);
    state.handle_key(press(Key::Down), 0, 0);
    state.handle_key(press(Key::Down), 0, 0);
    assert_eq!(state.menu_index, 1);
    assert_eq!(state.handle_key(press(Key::Enter), 0, 0), Command::Quit);
    state.handle_key(press(Key::Up), 0, 0);
    assert_eq!(state.handle_key(press(Key::Enter), 0, 0), Command::Nothing);
    assert_eq!(state.screen, Screen::InputDeviceSelect);
    let mut other = AppState::new(1, 1, None, None);
    assert_eq!(other.handle_key(press(Key::Esc), 0, 0), Command::Quit);
}

#[test]
fn device_lists_clamp_and_go_back() {
    let mut state = AppState::new(2, 3, None, Some(1));
    state.handle_key(press(Key::Enter), 0, 0);
    state.handle_key(press(Key::Down), 0, 0);
    state.handle_key(press(Key::Down), 0, 0);
    assert_eq!(state.selected_input, 1);
    state.handle_key(press(Key::Up), 0, 0);
    assert_eq!(state.selected_input, 0);
    state.handle_key(press(Key::Enter), 0, 0);
    assert_eq!(state.screen, Screen::OutputDeviceSelect);
    state.handle_key(press(Key::Down), 0, 0);
    state.handle_key(press(Key::Down), 0, 0);
    assert_eq!(state.selected_output, 2);
    state.handle_key(press(Key::Esc), 0, 0);
    assert_eq!(state.screen, Screen::InputDeviceSelect);
    state.handle_key(press(Key::Esc), 0, 0);
    assert_eq!(state.screen, Screen::MainMenu);
}

#[test]
fn no_devices_blocks_enter() {
    let mut state = AppState::new(0, 0, None, None);
    state.handle_key(press(Key::Enter), 0, 0);
    assert_eq!(state.screen, Screen::InputDeviceSelect);
    state.handle_key(press(Key::Down), 0, 0);
    assert_eq!(state.selected_input, 0);
    assert_eq!(state.handle_key(press(Key::Enter), 0, 0), Command::Nothing);
    assert_eq!(state.screen, Screen::InputDeviceSelect);
}

#[test]
fn play_and_stop_toggle() {
    let mut state = AppState::new(1, 1, Some(0), Some(0));
    open_pedalboard(&mut state);
    assert_eq!(state.screen, Screen::Pedalboard);
    assert_eq!(state.handle_key(press(Key::Char(' ')), 0, 0), Command::StartAudio);
    assert!(state.running);
    assert_eq!(state.handle_key(press(Key::Char(' ')), 0, 0), Command::StopAudio);
    assert!(!state.running);
}

#[test]
fn escape_closes_streams() {
    let mut state = AppState::new(1, 1, None, None);
    open_pedalboard(&mut state);
    state.handle_key(press(Key::Char(' ')), 0, 0);
    assert_eq!(state.handle_key(press(Key::Esc), 0, 0), Command::CloseStreams);
    assert_eq!(state.screen, Screen::MainMenu);
    assert!(!state.running);
    assert!(!state.streams_open);
}

#[test]
fn add_and_remove_effects() {
    let mut state = AppState::new(1, 1, None, None);
    let mut chain: EffectChain<EffectKind> = EffectChain::new();
    open_pedalboard(&mut state);
    state.handle_key(press(Key::Char('a')), 0, 0);
    assert_eq!(state.screen, Screen::AddEffect);
    state.handle_key(press(Key::Down), 0, 0);
    state.handle_key(press(Key::Down), 0, 0);
    let cmd = state.handle_key(press(Key::Enter), 0, 0);
    assert_eq!(cmd, Command::AddEffect(EffectKind::Fuzz));
    assert_eq!(state.screen, Screen::Pedalboard);
    state.add_effect(&mut chain, EffectKind::Fuzz);
    assert_eq!(state.selected_effect, 0);
    state.handle_key(press(Key::Char('a')), 1, 2);
    for _ in 0..10 {
        state.handle_key(press(Key::Down), 1, 2);
    }
    assert_eq!(state.selected_add_effect, 4);
    assert_eq!(state.handle_key(press(Key::Enter), 1, 2), Command::AddEffect(EffectKind::Delay));
    state.add_effect(&mut chain, EffectKind::Delay);
    assert_eq!(state.selected_effect, 1);
    assert_eq!(state.pedal_focus, PedalFocus::Params);
    assert_eq!(state.handle_key(press(Key::Char('d')), 2, 4), Command::RemoveSelectedEffect);
    state.remove_selected_effect(&mut chain);
    assert_eq!(chain.effects(), &[EffectKind::Fuzz]);
    assert_eq!(state.selected_effect, 0);
    assert_eq!(state.handle_key(press(Key::Delete), 1, 2), Command::RemoveSelectedEffect);
    state.remove_selected_effect(&mut chain);
    assert!(chain.effects().is_empty());
    assert_eq!(state.selected_effect, 0);
    state.remove_selected_effect(&mut chain);
    assert!(chain.effects().is_empty());
}

#[test]
fn escape_from_add_dialog_returns_to_pedalboard() {
    let mut state = AppState::new(1, 1, None, None);
    open_pedalboard(&mut state);
    state.handle_key(press(Key::Char('a')), 0, 0);
    assert_eq!(state.handle_key(press(Key::Esc), 0, 0), Command::Nothing);
    assert_eq!(state.screen, Screen::Pedalboard);
}

#[test]
fn focus_and_selection_moves() {
    let mut state = AppState::new(1, 1, None, None);
    open_pedalboard(&mut state);
    state.handle_key(press(Key::Down), 3, 4);
    assert_eq!(state.selected_param, 1);
    state.handle_key(press(Key::Tab), 3, 4);
    assert_eq!(state.pedal_focus, PedalFocus::Effects);
    state.handle_key(press(Key::Down), 3, 4);
    state.handle_key(press(Key::Down), 3, 4);
    state.handle_key(press(Key::Down), 3, 4);
    assert_eq!(state.selected_effect, 2);
    assert_eq!(state.selected_param, 0);
    state.handle_key(press(Key::Up), 3, 4);
    assert_eq!(state.selected_effect, 1);
    state.handle_key(press(Key::BackTab), 3, 4);
    assert_eq!(state.pedal_focus, PedalFocus::Params);
    assert_eq!(
        state.handle_key(press(Key::Right), 3, 4),
        Command::AdjustParam { effect: 1, param: 0, increase: true }
    );
    assert_eq!(
        state.handle_key(press(Key::Left), 3, 4),
        Command::AdjustParam { effect: 1, param: 0, increase: false }
    );
}

#[test]
fn space_without_streams_does_nothing() {
    let mut state = AppState::new(1, 1, None, None);
    state.screen = Screen::Pedalboard;
    assert_eq!(state.handle_key(press(Key::Char(' ')), 0, 0), Command::Nothing);
    assert!(!state.running);
}

#[test]
fn toggling_focus_twice_restores_it() {
    let mut state = AppState::new(1, 1, None, None);
    let before = state.pedal_focus;
    state.toggle_focus();
    assert_ne!(state.pedal_focus, before);
    state.toggle_focus();
    assert_eq!(state.pedal_focus, before);
}

#[test]
fn opened_devices_are_the_selected_ones() {
    let mut state = AppState::new(4, 3, Some(3), Some(2));
    state.handle_key(press(Key::Enter), 0, 0);
    state.handle_key(press(Key::Enter), 0, 0);
    let cmd = state.handle_key(press(Key::Enter), 0, 0);
    assert_eq!(cmd, Command::OpenPedalboard { input: 3, output: 2 });
    assert_eq!(state.screen, Screen::OutputDeviceSelect);
    state.pedalboard_opened();
    assert_eq!(state.screen, Screen::Pedalboard);
    assert!(state.streams_open);
    assert!(!state.running);
}

#[test]
fn stop_audio_clears_running() {
    let mut state = AppState::new(1, 1, None, None);
    open_pedalboard(&mut state);
    state.handle_key(press(Key::Char(' ')), 0, 0);
    state.stop_audio();
    assert!(!state.running);
    assert!(state.streams_open);
}

#[test]
fn removing_keeps_selection_on_the_chain() {
    let mut state = AppState::new(1, 1, None, None);
    let mut chain = EffectChain::new().apply(1).apply(2).apply(3);
    state.selected_effect = 7;
    state.remove_selected_effect(&mut chain);
    assert_eq!(chain.effects(), &[1, 2, 3]);
    assert_eq!(state.selected_effect, 2);
    state.selected_param = 5;
    state.remove_selected_effect(&mut chain);
    assert_eq!(chain.effects(), &[1, 2]);
    assert_eq!(state.selected_effect, 1);
    assert_eq!(state.selected_param, 0);
}
