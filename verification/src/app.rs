use vstd::prelude::*;
use crate::chain::EffectChain;
use crate::types::{
    EffectKind, PedalFocus, Screen, EFFECT_KIND_COUNT, MENU_LEN, effect_kind_at,
    effect_kind_at_spec,
};
use crate::widgets::{move_index, move_index_spec, next_index, next_index_spec};

verus! {

/// A key as the terminal UI reads it.
#[derive(Clone, Copy, PartialEq, Eq, Structural, Debug)]
pub enum Key {
    Char(char),
    Up,
    Down,
    Left,
    Right,
    Enter,
    Esc,
    Tab,
    BackTab,
    Delete,
    Other,
}

/// A key press: the key and whether Control was held.
#[derive(Clone, Copy, PartialEq, Eq, Structural, Debug)]
pub struct KeyPress {
    pub key: Key,
    pub ctrl: bool,
}

/// The outside work that a key press asks of the program around the state machine.
#[derive(Clone, Copy, PartialEq, Eq, Structural, Debug)]
pub enum Command {
    /// Nothing beyond the change of state.
    Nothing,
    /// Leave the program (stopping audio first if it runs).
    Quit,
    /// Build the audio streams for the selected input and output devices, then report
    /// success with `AppState::pedalboard_opened`.
    OpenPedalboard { input: usize, output: usize },
    /// Start the built streams.
    StartAudio,
    /// Pause the built streams.
    StopAudio,
    /// Pause the streams and drop them.
    CloseStreams,
    /// Build an effect of this kind and add it with `AppState::add_effect`.
    AddEffect(EffectKind),
    /// Remove the selected effect with `AppState::remove_selected_effect`.
    RemoveSelectedEffect,
    /// Step parameter `param` of effect `effect` up or down by its step.
    AdjustParam { effect: usize, param: usize, increase: bool },
}

/// The navigation state of the terminal UI.
#[derive(Clone, Copy, PartialEq, Eq, Structural, Debug)]
pub struct AppState {
    pub screen: Screen,
    pub menu_index: usize,
    pub input_count: usize,
    pub output_count: usize,
    pub default_input: Option<usize>,
    pub default_output: Option<usize>,
    pub selected_input: usize,
    pub selected_output: usize,
    pub selected_effect: usize,
    pub selected_param: usize,
    pub selected_add_effect: usize,
    pub pedal_focus: PedalFocus,
    pub streams_open: bool,
    pub running: bool,
}

/// `x - 1`, stopping at zero.
pub open spec fn dec(x: usize) -> usize {
    if x == 0 {
        0
    } else {
        (x - 1) as usize
    }
}

/// Whether `index` selects an item of a list of `count` items (0 when the list is empty).
pub open spec fn selects(index: usize, count: usize) -> bool {
    if count == 0 {
        index == 0
    } else {
        index < count
    }
}

/// Whether an optional index points into a list of `count` items.
pub open spec fn points_into(index: Option<usize>, count: usize) -> bool {
    match index {
        Some(i) => i < count,
        None => true,
    }
}

/// Whether the key press leaves the program from any screen: `q`, or Control-C.
pub open spec fn is_quit_key(k: KeyPress) -> bool {
    k.key == Key::Char('q') || (k.key == Key::Char('c') && k.ctrl)
}

impl AppState {
    /// The invariant that every state reachable from `new` keeps.
    pub open spec fn wf(self) -> bool {
        &&& self.menu_index < MENU_LEN
        &&& self.selected_add_effect < EFFECT_KIND_COUNT
        &&& selects(self.selected_input, self.input_count)
        &&& selects(self.selected_output, self.output_count)
        &&& points_into(self.default_input, self.input_count)
        &&& points_into(self.default_output, self.output_count)
        &&& self.running ==> self.streams_open
        &&& (self.screen == Screen::OutputDeviceSelect ==> self.input_count > 0)
        &&& (self.streams_open ==> self.input_count > 0 && self.output_count > 0)
    }

    /// The state after a key press on the main menu, and the work it asks for.
    pub open spec fn main_menu_step(self, key: Key) -> (AppState, Command) {
        match key {
            Key::Up => (AppState { menu_index: dec(self.menu_index), ..self }, Command::Nothing),
            Key::Down => (
                AppState { menu_index: next_index_spec(self.menu_index as int, MENU_LEN as int) as usize, ..self },
                Command::Nothing,
            ),
            Key::Enter => if self.menu_index == 0 {
                (AppState { screen: Screen::InputDeviceSelect, ..self }, Command::Nothing)
            } else {
                (self, Command::Quit)
            },
            Key::Esc => (self, Command::Quit),
            _ => (self, Command::Nothing),
        }
    }

    /// The state after a key press on the input device list.
    pub open spec fn input_select_step(self, key: Key) -> (AppState, Command) {
        match key {
            Key::Up => (AppState { selected_input: dec(self.selected_input), ..self }, Command::Nothing),
            Key::Down => (
                AppState {
                    selected_input: next_index_spec(self.selected_input as int, self.input_count as int) as usize,
                    ..self
                },
                Command::Nothing,
            ),
            Key::Enter => if self.input_count > 0 {
                (AppState { screen: Screen::OutputDeviceSelect, ..self }, Command::Nothing)
            } else {
                (self, Command::Nothing)
            },
            Key::Esc => (AppState { screen: Screen::MainMenu, ..self }, Command::Nothing),
            _ => (self, Command::Nothing),
        }
    }

    /// The state after a key press on the output device list.
    pub open spec fn output_select_step(self, key: Key) -> (AppState, Command) {
        match key {
            Key::Up => (AppState { selected_output: dec(self.selected_output), ..self }, Command::Nothing),
            Key::Down => (
                AppState {
                    selected_output: next_index_spec(self.selected_output as int, self.output_count as int) as usize,
                    ..self
                },
                Command::Nothing,
            ),
            Key::Enter => if self.output_count > 0 {
                (self, Command::OpenPedalboard { input: self.selected_input, output: self.selected_output })
            } else {
                (self, Command::Nothing)
            },
            Key::Esc => (AppState { screen: Screen::InputDeviceSelect, ..self }, Command::Nothing),
            _ => (self, Command::Nothing),
        }
    }

    /// The state after moving the pedalboard selection by `amount`, in the focused pane.
    pub open spec fn moved_selection(self, amount: int, effect_count: usize, param_count: usize) -> AppState {
        match self.pedal_focus {
            PedalFocus::Effects => AppState {
                selected_effect: move_index_spec(self.selected_effect as int, effect_count as int, amount) as usize,
                selected_param: 0,
                ..self
            },
            PedalFocus::Params => AppState {
                selected_param: move_index_spec(self.selected_param as int, param_count as int, amount) as usize,
                ..self
            },
        }
    }

    /// The other pane of the pedalboard screen.
    pub open spec fn other_focus(focus: PedalFocus) -> PedalFocus {
        match focus {
            PedalFocus::Effects => PedalFocus::Params,
            PedalFocus::Params => PedalFocus::Effects,
        }
    }

    /// The state after a key press on the pedalboard screen. `effect_count` is the length of
    /// the effect chain, `param_count` the number of parameters of the selected effect.
    pub open spec fn pedalboard_step(self, key: Key, effect_count: usize, param_count: usize) -> (AppState, Command) {
        match key {
            Key::Char(' ') => if self.running {
                (AppState { running: false, ..self }, Command::StopAudio)
            } else if self.streams_open {
                (AppState { running: true, ..self }, Command::StartAudio)
            } else {
                (self, Command::Nothing)
            },
            Key::Char('a') => (AppState { screen: Screen::AddEffect, ..self }, Command::Nothing),
            Key::Char('d') | Key::Delete => (self, Command::RemoveSelectedEffect),
            Key::Tab | Key::BackTab => (
                AppState { pedal_focus: Self::other_focus(self.pedal_focus), ..self },
                Command::Nothing,
            ),
            Key::Up => (self.moved_selection(-1, effect_count, param_count), Command::Nothing),
            Key::Down => (self.moved_selection(1, effect_count, param_count), Command::Nothing),
            Key::Left => (
                self,
                Command::AdjustParam { effect: self.selected_effect, param: self.selected_param, increase: false },
            ),
            Key::Right => (
                self,
                Command::AdjustParam { effect: self.selected_effect, param: self.selected_param, increase: true },
            ),
            Key::Esc => (
                AppState { running: false, streams_open: false, screen: Screen::MainMenu, ..self },
                Command::CloseStreams,
            ),
            _ => (self, Command::Nothing),
        }
    }

    /// The state after a key press in the "add effect" dialog.
    pub open spec fn add_effect_step(self, key: Key) -> (AppState, Command) {
        match key {
            Key::Up => (AppState { selected_add_effect: dec(self.selected_add_effect), ..self }, Command::Nothing),
            Key::Down => (
                AppState {
                    selected_add_effect: next_index_spec(self.selected_add_effect as int, EFFECT_KIND_COUNT as int) as usize,
                    ..self
                },
                Command::Nothing,
            ),
            Key::Enter => (
                AppState { screen: Screen::Pedalboard, ..self },
                Command::AddEffect(effect_kind_at_spec(self.selected_add_effect as nat)),
            ),
            Key::Esc => (AppState { screen: Screen::Pedalboard, ..self }, Command::Nothing),
            _ => (self, Command::Nothing),
        }
    }

    /// The state after a key press, and the work it asks for.
    pub open spec fn step(self, k: KeyPress, effect_count: usize, param_count: usize) -> (AppState, Command) {
        if is_quit_key(k) {
            (self, Command::Quit)
        } else {
            match self.screen {
                Screen::MainMenu => self.main_menu_step(k.key),
                Screen::InputDeviceSelect => self.input_select_step(k.key),
                Screen::OutputDeviceSelect => self.output_select_step(k.key),
                Screen::Pedalboard => self.pedalboard_step(k.key, effect_count, param_count),
                Screen::AddEffect => self.add_effect_step(k.key),
            }
        }
    }

    /// The state of a freshly started UI over `input_count` input and `output_count` output
    /// devices: the main menu, with each device list on its default device (or the first).
    pub fn new(
        input_count: usize,
        output_count: usize,
        default_input: Option<usize>,
        default_output: Option<usize>,
    ) -> (r: Self)
        requires
            points_into(default_input, input_count),
            points_into(default_output, output_count),
        ensures
            r.wf(),
            r.screen == Screen::MainMenu,
            r.menu_index == 0,
            r.input_count == input_count,
            r.output_count == output_count,
            r.default_input == default_input,
            r.default_output == default_output,
            r.selected_input == (match default_input { Some(i) => i, None => 0 }),
            r.selected_output == (match default_output { Some(i) => i, None => 0 }),
            r.selected_effect == 0,
            r.selected_param == 0,
            r.selected_add_effect == 0,
            r.pedal_focus == PedalFocus::Params,
            !r.streams_open,
            !r.running,
    {
        let selected_input = match default_input {
            Some(i) => i,
            None => 0,
        };
        let selected_output = match default_output {
            Some(i) => i,
            None => 0,
        };
        AppState {
            screen: Screen::MainMenu,
            menu_index: 0,
            input_count,
            output_count,
            default_input,
            default_output,
            selected_input,
            selected_output,
            selected_effect: 0,
            selected_param: 0,
            selected_add_effect: 0,
            pedal_focus: PedalFocus::Params,
            streams_open: false,
            running: false,
        }
    }

    /// Handles one key press: updates the navigation state and returns the outside work to
    /// do. `effect_count` is the length of the effect chain and `param_count` the number of
    /// parameters of the selected effect (0 when no effect is selected).
    pub fn handle_key(&mut self, k: KeyPress, effect_count: usize, param_count: usize) -> (r: Command)
        requires
            old(self).wf(),
        ensures
            final(self).wf(),
            (*final(self), r) == old(self).step(k, effect_count, param_count),
    {
        let quit = match k.key {
            Key::Char(c) => c == 'q' || (c == 'c' && k.ctrl),
            _ => false,
        };
        if quit {
            return Command::Quit;
        }
        match self.screen {
            Screen::MainMenu => self.handle_main_menu_key(k.key),
            Screen::InputDeviceSelect => self.handle_input_select_key(k.key),
            Screen::OutputDeviceSelect => self.handle_output_select_key(k.key),
            Screen::Pedalboard => self.handle_pedalboard_key(k.key, effect_count, param_count),
            Screen::AddEffect => self.handle_add_effect_key(k.key),
        }
    }

    fn handle_main_menu_key(&mut self, key: Key) -> (r: Command)
        requires
            old(self).wf(),
        ensures
            final(self).wf(),
            (*final(self), r) == old(self).main_menu_step(key),
    {
        match key {
            Key::Up => {
                self.menu_index = if self.menu_index == 0 { 0 } else { self.menu_index - 1 };
                Command::Nothing
            },
            Key::Down => {
                self.menu_index = next_index(self.menu_index, MENU_LEN);
                Command::Nothing
            },
            Key::Enter => {
                if self.menu_index == 0 {
                    self.screen = Screen::InputDeviceSelect;
                    Command::Nothing
                } else {
                    Command::Quit
                }
            },
            Key::Esc => Command::Quit,
            _ => Command::Nothing,
        }
    }

    fn handle_input_select_key(&mut self, key: Key) -> (r: Command)
        requires
            old(self).wf(),
        ensures
            final(self).wf(),
            (*final(self), r) == old(self).input_select_step(key),
    {
        match key {
            Key::Up => {
                self.selected_input = if self.selected_input == 0 { 0 } else { self.selected_input - 1 };
            },
            Key::Down => {
                self.selected_input = next_index(self.selected_input, self.input_count);
            },
            Key::Enter => {
                if self.input_count > 0 {
                    self.screen = Screen::OutputDeviceSelect;
                }
            },
            Key::Esc => {
                self.screen = Screen::MainMenu;
            },
            _ => {},
        }
        Command::Nothing
    }

    fn handle_output_select_key(&mut self, key: Key) -> (r: Command)
        requires
            old(self).wf(),
        ensures
            final(self).wf(),
            (*final(self), r) == old(self).output_select_step(key),
    {
        match key {
            Key::Up => {
                self.selected_output = if self.selected_output == 0 { 0 } else { self.selected_output - 1 };
                Command::Nothing
            },
            Key::Down => {
                self.selected_output = next_index(self.selected_output, self.output_count);
                Command::Nothing
            },
            Key::Enter => {
                if self.output_count > 0 {
                    Command::OpenPedalboard { input: self.selected_input, output: self.selected_output }
                } else {
                    Command::Nothing
                }
            },
            Key::Esc => {
                self.screen = Screen::InputDeviceSelect;
                Command::Nothing
            },
            _ => Command::Nothing,
        }
    }

    fn handle_pedalboard_key(&mut self, key: Key, effect_count: usize, param_count: usize) -> (r: Command)
        requires
            old(self).wf(),
        ensures
            final(self).wf(),
            (*final(self), r) == old(self).pedalboard_step(key, effect_count, param_count),
    {
        match key {
            Key::Char(' ') => {
                if self.running {
                    self.running = false;
                    Command::StopAudio
                } else if self.streams_open {
                    self.running = true;
                    Command::StartAudio
                } else {
                    Command::Nothing
                }
            },
            Key::Char('a') => {
                self.screen = Screen::AddEffect;
                Command::Nothing
            },
            Key::Char('d') | Key::Delete => Command::RemoveSelectedEffect,
            Key::Tab | Key::BackTab => {
                self.toggle_focus();
                Command::Nothing
            },
            Key::Up => {
                self.move_pedal_selection(-1, effect_count, param_count);
                Command::Nothing
            },
            Key::Down => {
                self.move_pedal_selection(1, effect_count, param_count);
                Command::Nothing
            },
            Key::Left => Command::AdjustParam {
                effect: self.selected_effect,
                param: self.selected_param,
                increase: false,
            },
            Key::Right => Command::AdjustParam {
                effect: self.selected_effect,
                param: self.selected_param,
                increase: true,
            },
            Key::Esc => {
                self.running = false;
                self.streams_open = false;
                self.screen = Screen::MainMenu;
                Command::CloseStreams
            },
            _ => Command::Nothing,
        }
    }

    fn handle_add_effect_key(&mut self, key: Key) -> (r: Command)
        requires
            old(self).wf(),
        ensures
            final(self).wf(),
            (*final(self), r) == old(self).add_effect_step(key),
    {
        match key {
            Key::Up => {
                self.selected_add_effect = if self.selected_add_effect == 0 {
                    0
                } else {
                    self.selected_add_effect - 1
                };
                Command::Nothing
            },
            Key::Down => {
                self.selected_add_effect = next_index(self.selected_add_effect, EFFECT_KIND_COUNT);
                Command::Nothing
            },
            Key::Enter => {
                let kind = effect_kind_at(self.selected_add_effect);
                self.screen = Screen::Pedalboard;
                Command::AddEffect(kind)
            },
            Key::Esc => {
                self.screen = Screen::Pedalboard;
                Command::Nothing
            },
            _ => Command::Nothing,
        }
    }

    /// Switches the pedalboard's arrow keys between the effect list and the parameters.
    pub fn toggle_focus(&mut self)
        ensures
            *final(self) == (AppState { pedal_focus: Self::other_focus(old(self).pedal_focus), ..*old(self) }),
    {
        self.pedal_focus = match self.pedal_focus {
            PedalFocus::Effects => PedalFocus::Params,
            PedalFocus::Params => PedalFocus::Effects,
        };
    }

    /// Moves the selection of the focused pedalboard pane by `amount`; moving in the effect
    /// list selects the first parameter of the newly selected effect.
    pub fn move_pedal_selection(&mut self, amount: isize, effect_count: usize, param_count: usize)
        ensures
            *final(self) == old(self).moved_selection(amount as int, effect_count, param_count),
    {
        match self.pedal_focus {
            PedalFocus::Effects => {
                self.selected_effect = move_index(self.selected_effect, effect_count, amount);
                self.selected_param = 0;
            },
            PedalFocus::Params => {
                self.selected_param = move_index(self.selected_param, param_count, amount);
            },
        }
    }

    /// Records that the streams for the selected devices were built: the pedalboard shows,
    /// with audio stopped.
    pub fn pedalboard_opened(&mut self)
        requires
            old(self).wf(),
            old(self).input_count > 0,
            old(self).output_count > 0,
        ensures
            final(self).wf(),
            *final(self) == (AppState {
                streams_open: true,
                running: false,
                screen: Screen::Pedalboard,
                ..*old(self)
            }),
    {
        self.streams_open = true;
        self.running = false;
        self.screen = Screen::Pedalboard;
    }

    /// Records that the audio was stopped.
    pub fn stop_audio(&mut self)
        requires
            old(self).wf(),
        ensures
            final(self).wf(),
            *final(self) == (AppState { running: false, ..*old(self) }),
    {
        self.running = false;
    }

    /// Appends `effect` to the chain and selects it, focusing its parameters.
    pub fn add_effect<E>(&mut self, chain: &mut EffectChain<E>, effect: E)
        requires
            old(self).wf(),
        ensures
            final(self).wf(),
            final(chain)@ == old(chain)@.push(effect),
            *final(self) == (AppState {
                selected_effect: old(chain)@.len() as usize,
                selected_param: 0,
                pedal_focus: PedalFocus::Params,
                ..*old(self)
            }),
    {
        chain.push_effect(effect);
        let len = chain.effects().len();
        self.selected_effect = if len == 0 { 0 } else { len - 1 };
        self.selected_param = 0;
        self.pedal_focus = PedalFocus::Params;
    }

    /// Removes the selected effect from the chain (nothing, when the selection is past its
    /// end) and keeps the selection on the chain.
    pub fn remove_selected_effect<E>(&mut self, chain: &mut EffectChain<E>)
        requires
            old(self).wf(),
        ensures
            final(self).wf(),
            old(self).selected_effect < old(chain)@.len() ==> final(chain)@ == old(chain)@.remove(
                old(self).selected_effect as int,
            ),
            old(self).selected_effect >= old(chain)@.len() ==> final(chain)@ == old(chain)@,
            *final(self) == (AppState {
                selected_effect: if old(self).selected_effect as int <= final(chain)@.len() - 1 {
                    old(self).selected_effect
                } else {
                    dec(final(chain)@.len() as usize)
                },
                selected_param: 0,
                ..*old(self)
            }),
            final(chain)@.len() == 0 ==> final(self).selected_effect == 0,
            final(chain)@.len() > 0 ==> final(self).selected_effect < final(chain)@.len(),
    {
        chain.remove_effect(self.selected_effect);
        let len = chain.effects().len();
        let last = if len == 0 { 0 } else { len - 1 };
        if self.selected_effect > last {
            self.selected_effect = last;
        }
        self.selected_param = 0;
    }
}

/// `q` and Control-C leave the program from every screen, without changing the state.
pub proof fn lemma_quit_key_quits(s: AppState, k: KeyPress, effect_count: usize, param_count: usize)
    requires
        is_quit_key(k),
    ensures
        s.step(k, effect_count, param_count) == (s, Command::Quit),
{
}

/// The devices that opening the pedalboard asks for are always on the device lists.
pub proof fn lemma_open_pedalboard_indices_valid(
    s: AppState,
    k: KeyPress,
    effect_count: usize,
    param_count: usize,
    input: usize,
    output: usize,
)
    requires
        s.wf(),
        s.step(k, effect_count, param_count).1 == (Command::OpenPedalboard { input, output }),
    ensures
        input < s.input_count,
        output < s.output_count,
{
}

/// Switching the pedalboard focus twice gives back the focus one started from.
pub proof fn lemma_focus_toggle_twice(focus: PedalFocus)
    ensures
        AppState::other_focus(AppState::other_focus(focus)) == focus,
{
}

/// Every key press keeps the state within the invariant, so the selections always point
/// into their lists and audio only runs on open streams.
pub proof fn lemma_step_keeps_invariant(s: AppState, k: KeyPress, effect_count: usize, param_count: usize)
    requires
        s.wf(),
    ensures
        s.step(k, effect_count, param_count).0.wf(),
{
}

/// Esc on the pedalboard always stops the audio, drops the streams and returns to the main
/// menu.
pub proof fn lemma_escape_from_pedalboard(s: AppState, effect_count: usize, param_count: usize)
    requires
        s.screen == Screen::Pedalboard,
    ensures
        s.step(KeyPress { key: Key::Esc, ctrl: false }, effect_count, param_count) == (
            AppState { running: false, streams_open: false, screen: Screen::MainMenu, ..s },
            Command::CloseStreams,
        ),
{
}

/// On the input device list, Up moves the input selection one entry up (staying on the
/// first entry) and Down one entry down (staying on the last); nothing else changes.
pub proof fn lemma_input_list_moves(s: AppState, ctrl: bool, effect_count: usize, param_count: usize)
    requires
        s.screen == Screen::InputDeviceSelect,
    ensures
        s.step(KeyPress { key: Key::Up, ctrl }, effect_count, param_count) == (
            AppState {
                selected_input: if s.selected_input == 0 { 0 } else { (s.selected_input - 1) as usize },
                ..s
            },
            Command::Nothing,
        ),
        s.input_count > 0 && s.selected_input + 1 < s.input_count ==> s.step(
            KeyPress { key: Key::Down, ctrl },
            effect_count,
            param_count,
        ) == (AppState { selected_input: (s.selected_input + 1) as usize, ..s }, Command::Nothing),
        s.input_count > 0 && s.selected_input + 1 >= s.input_count ==> s.step(
            KeyPress { key: Key::Down, ctrl },
            effect_count,
            param_count,
        ) == (AppState { selected_input: (s.input_count - 1) as usize, ..s }, Command::Nothing),
{
}

/// On the output device list, Up moves the output selection one entry up (staying on the
/// first entry) and Down one entry down (staying on the last); the input selection and
/// every other field stay as they were.
pub proof fn lemma_output_list_moves(s: AppState, ctrl: bool, effect_count: usize, param_count: usize)
    requires
        s.screen == Screen::OutputDeviceSelect,
    ensures
        s.step(KeyPress { key: Key::Up, ctrl }, effect_count, param_count) == (
            AppState {
                selected_output: if s.selected_output == 0 { 0 } else { (s.selected_output - 1) as usize },
                ..s
            },
            Command::Nothing,
        ),
        s.step(KeyPress { key: Key::Up, ctrl }, effect_count, param_count).0.selected_input == s.selected_input,
        s.output_count > 0 && s.selected_output + 1 < s.output_count ==> s.step(
            KeyPress { key: Key::Down, ctrl },
            effect_count,
            param_count,
        ) == (AppState { selected_output: (s.selected_output + 1) as usize, ..s }, Command::Nothing),
        s.output_count > 0 && s.selected_output + 1 >= s.output_count ==> s.step(
            KeyPress { key: Key::Down, ctrl },
            effect_count,
            param_count,
        ) == (AppState { selected_output: (s.output_count - 1) as usize, ..s }, Command::Nothing),
{
}

/// Enter on the output device list opens the pedalboard on exactly the selected input and
/// output devices (when there is an output device), without changing the state yet.
pub proof fn lemma_output_list_enter_opens_selected(s: AppState, ctrl: bool, effect_count: usize, param_count: usize)
    requires
        s.screen == Screen::OutputDeviceSelect,
        s.output_count > 0,
    ensures
        s.step(KeyPress { key: Key::Enter, ctrl }, effect_count, param_count) == (
            s,
            Command::OpenPedalboard { input: s.selected_input, output: s.selected_output },
        ),
{
}

/// In the main menu, Up and Down move between the entries, staying on the first and last.
pub proof fn lemma_main_menu_moves(s: AppState, ctrl: bool, effect_count: usize, param_count: usize)
    requires
        s.screen == Screen::MainMenu,
    ensures
        s.step(KeyPress { key: Key::Up, ctrl }, effect_count, param_count) == (
            AppState { menu_index: if s.menu_index == 0 { 0 } else { (s.menu_index - 1) as usize }, ..s },
            Command::Nothing,
        ),
        s.step(KeyPress { key: Key::Down, ctrl }, effect_count, param_count) == (
            AppState { menu_index: if s.menu_index + 1 < MENU_LEN { (s.menu_index + 1) as usize } else { (MENU_LEN - 1) as usize }, ..s },
            Command::Nothing,
        ),
{
}

/// In the add-effect dialog, Up moves the selection one kind up (staying on the first),
/// Down one kind down (staying on the last), and Enter adds the selected kind and returns
/// to the pedalboard.
pub proof fn lemma_add_dialog_moves(s: AppState, ctrl: bool, effect_count: usize, param_count: usize)
    requires
        s.screen == Screen::AddEffect,
    ensures
        s.step(KeyPress { key: Key::Up, ctrl }, effect_count, param_count) == (
            AppState {
                selected_add_effect: if s.selected_add_effect == 0 { 0 } else { (s.selected_add_effect - 1) as usize },
                ..s
            },
            Command::Nothing,
        ),
        s.step(KeyPress { key: Key::Down, ctrl }, effect_count, param_count) == (
            AppState {
                selected_add_effect: if s.selected_add_effect + 1 < EFFECT_KIND_COUNT {
                    (s.selected_add_effect + 1) as usize
                } else {
                    (EFFECT_KIND_COUNT - 1) as usize
                },
                ..s
            },
            Command::Nothing,
        ),
        s.selected_add_effect < EFFECT_KIND_COUNT ==> s.step(KeyPress { key: Key::Enter, ctrl }, effect_count, param_count)
            == (
            AppState { screen: Screen::Pedalboard, ..s },
            Command::AddEffect(effect_kind_at_spec(s.selected_add_effect as nat)),
        ),
        s.selected_add_effect < EFFECT_KIND_COUNT ==> effect_kind_at_spec(s.selected_add_effect as nat).index()
            == s.selected_add_effect,
{
}

/// On the pedalboard with the parameters focused, Up and Down move the parameter selection
/// within the selected effect's `param_count` parameters, one step at a time, whatever the
/// number of effects; the effect selection stays.
pub proof fn lemma_param_pane_moves(s: AppState, ctrl: bool, effect_count: usize, param_count: usize)
    requires
        s.screen == Screen::Pedalboard,
        s.pedal_focus == PedalFocus::Params,
    ensures
        s.step(KeyPress { key: Key::Down, ctrl }, effect_count, param_count).1 == Command::Nothing,
        s.step(KeyPress { key: Key::Up, ctrl }, effect_count, param_count).1 == Command::Nothing,
        s.step(KeyPress { key: Key::Down, ctrl }, effect_count, param_count).0 == (AppState {
            selected_param: s.step(KeyPress { key: Key::Down, ctrl }, effect_count, param_count).0.selected_param,
            ..s
        }),
        s.step(KeyPress { key: Key::Up, ctrl }, effect_count, param_count).0 == (AppState {
            selected_param: s.step(KeyPress { key: Key::Up, ctrl }, effect_count, param_count).0.selected_param,
            ..s
        }),
        s.selected_param + 1 < param_count ==> s.step(KeyPress { key: Key::Down, ctrl }, effect_count, param_count).0.selected_param
            == s.selected_param + 1,
        param_count > 0 && s.selected_param + 1 >= param_count ==> s.step(
            KeyPress { key: Key::Down, ctrl },
            effect_count,
            param_count,
        ).0.selected_param == param_count - 1,
        0 < s.selected_param < param_count ==> s.step(KeyPress { key: Key::Up, ctrl }, effect_count, param_count).0.selected_param
            == s.selected_param - 1,
        s.selected_param == 0 ==> s.step(KeyPress { key: Key::Up, ctrl }, effect_count, param_count).0.selected_param
            == 0,
        param_count > 0 ==> s.step(KeyPress { key: Key::Up, ctrl }, effect_count, param_count).0.selected_param
            < param_count,
        param_count > 0 ==> s.step(KeyPress { key: Key::Down, ctrl }, effect_count, param_count).0.selected_param
            < param_count,
        param_count == 0 ==> s.step(KeyPress { key: Key::Up, ctrl }, effect_count, param_count).0.selected_param
            == 0,
        param_count == 0 ==> s.step(KeyPress { key: Key::Down, ctrl }, effect_count, param_count).0.selected_param
            == 0,
        s.step(KeyPress { key: Key::Up, ctrl }, effect_count, param_count).0.selected_param <= s.selected_param,
{
}

/// On the pedalboard with the effect list focused, Up and Down move the effect selection
/// within the `effect_count` effects, one step at a time, and select the new effect's first
/// parameter.
pub proof fn lemma_effect_pane_moves(s: AppState, ctrl: bool, effect_count: usize, param_count: usize)
    requires
        s.screen == Screen::Pedalboard,
        s.pedal_focus == PedalFocus::Effects,
    ensures
        s.step(KeyPress { key: Key::Down, ctrl }, effect_count, param_count).0 == (AppState {
            selected_effect: s.step(KeyPress { key: Key::Down, ctrl }, effect_count, param_count).0.selected_effect,
            selected_param: 0,
            ..s
        }),
        s.step(KeyPress { key: Key::Up, ctrl }, effect_count, param_count).0 == (AppState {
            selected_effect: s.step(KeyPress { key: Key::Up, ctrl }, effect_count, param_count).0.selected_effect,
            selected_param: 0,
            ..s
        }),
        s.selected_effect + 1 < effect_count ==> s.step(KeyPress { key: Key::Down, ctrl }, effect_count, param_count).0.selected_effect
            == s.selected_effect + 1,
        0 < s.selected_effect < effect_count ==> s.step(KeyPress { key: Key::Up, ctrl }, effect_count, param_count).0.selected_effect
            == s.selected_effect - 1,
        effect_count > 0 ==> s.step(KeyPress { key: Key::Down, ctrl }, effect_count, param_count).0.selected_effect
            < effect_count,
        effect_count > 0 ==> s.step(KeyPress { key: Key::Up, ctrl }, effect_count, param_count).0.selected_effect
            < effect_count,
        s.step(KeyPress { key: Key::Up, ctrl }, effect_count, param_count).0.selected_effect <= s.selected_effect,
{
}

/// On the pedalboard, Left and Right ask to step exactly the selected parameter of the
/// selected effect, down and up respectively, and change no state.
pub proof fn lemma_left_right_adjust_selected_param(s: AppState, ctrl: bool, effect_count: usize, param_count: usize)
    requires
        s.screen == Screen::Pedalboard,
    ensures
        s.step(KeyPress { key: Key::Right, ctrl }, effect_count, param_count) == (
            s,
            Command::AdjustParam { effect: s.selected_effect, param: s.selected_param, increase: true },
        ),
        s.step(KeyPress { key: Key::Left, ctrl }, effect_count, param_count) == (
            s,
            Command::AdjustParam { effect: s.selected_effect, param: s.selected_param, increase: false },
        ),
{
}

/// On the pedalboard, Space stops running audio, starts open but stopped streams, and does
/// nothing without streams.
pub proof fn lemma_space_toggles_audio(s: AppState, ctrl: bool, effect_count: usize, param_count: usize)
    requires
        s.screen == Screen::Pedalboard,
    ensures
        s.running ==> s.step(KeyPress { key: Key::Char(' '), ctrl }, effect_count, param_count) == (
            AppState { running: false, ..s },
            Command::StopAudio,
        ),
        !s.running && s.streams_open ==> s.step(KeyPress { key: Key::Char(' '), ctrl }, effect_count, param_count) == (
            AppState { running: true, ..s },
            Command::StartAudio,
        ),
        !s.running && !s.streams_open ==> s.step(KeyPress { key: Key::Char(' '), ctrl }, effect_count, param_count)
            == (s, Command::Nothing),
{
}

/// The keys that change screens: Enter on the main menu's first entry opens the input list
/// and on the other entry quits; Esc quits from the menu, goes back one list from the device
/// lists and closes the add-effect dialog; Enter on a non-empty input list goes on to the
/// output list; `a` on the pedalboard opens the add-effect dialog.
pub proof fn lemma_screen_changes(s: AppState, ctrl: bool, effect_count: usize, param_count: usize)
    ensures
        s.screen == Screen::MainMenu && s.menu_index == 0 ==> s.step(KeyPress { key: Key::Enter, ctrl }, effect_count, param_count)
            == (AppState { screen: Screen::InputDeviceSelect, ..s }, Command::Nothing),
        s.screen == Screen::MainMenu && s.menu_index != 0 ==> s.step(KeyPress { key: Key::Enter, ctrl }, effect_count, param_count)
            == (s, Command::Quit),
        s.screen == Screen::MainMenu ==> s.step(KeyPress { key: Key::Esc, ctrl }, effect_count, param_count) == (
            s,
            Command::Quit,
        ),
        s.screen == Screen::InputDeviceSelect ==> s.step(KeyPress { key: Key::Esc, ctrl }, effect_count, param_count)
            == (AppState { screen: Screen::MainMenu, ..s }, Command::Nothing),
        s.screen == Screen::InputDeviceSelect && s.input_count > 0 ==> s.step(KeyPress { key: Key::Enter, ctrl }, effect_count, param_count)
            == (AppState { screen: Screen::OutputDeviceSelect, ..s }, Command::Nothing),
        s.screen == Screen::InputDeviceSelect && s.input_count == 0 ==> s.step(KeyPress { key: Key::Enter, ctrl }, effect_count, param_count)
            == (s, Command::Nothing),
        s.screen == Screen::OutputDeviceSelect ==> s.step(KeyPress { key: Key::Esc, ctrl }, effect_count, param_count)
            == (AppState { screen: Screen::InputDeviceSelect, ..s }, Command::Nothing),
        s.screen == Screen::OutputDeviceSelect && s.output_count == 0 ==> s.step(KeyPress { key: Key::Enter, ctrl }, effect_count, param_count)
            == (s, Command::Nothing),
        s.screen == Screen::AddEffect ==> s.step(KeyPress { key: Key::Esc, ctrl }, effect_count, param_count) == (
            AppState { screen: Screen::Pedalboard, ..s },
            Command::Nothing,
        ),
        s.screen == Screen::Pedalboard ==> s.step(KeyPress { key: Key::Char('a'), ctrl }, effect_count, param_count)
            == (AppState { screen: Screen::AddEffect, ..s }, Command::Nothing),
{
}

/// On the pedalboard, `d` and Delete ask to remove the selected effect, and Tab and
/// Shift-Tab switch the focused pane, changing nothing else.
pub proof fn lemma_pedalboard_edit_keys(s: AppState, ctrl: bool, effect_count: usize, param_count: usize)
    requires
        s.screen == Screen::Pedalboard,
    ensures
        s.step(KeyPress { key: Key::Char('d'), ctrl }, effect_count, param_count) == (s, Command::RemoveSelectedEffect),
        s.step(KeyPress { key: Key::Delete, ctrl }, effect_count, param_count) == (s, Command::RemoveSelectedEffect),
        s.step(KeyPress { key: Key::Tab, ctrl }, effect_count, param_count).1 == Command::Nothing,
        s.step(KeyPress { key: Key::BackTab, ctrl }, effect_count, param_count).1 == Command::Nothing,
        s.step(KeyPress { key: Key::Tab, ctrl }, effect_count, param_count).0 == (AppState {
            pedal_focus: if s.pedal_focus == PedalFocus::Effects { PedalFocus::Params } else { PedalFocus::Effects },
            ..s
        }),
        s.step(KeyPress { key: Key::BackTab, ctrl }, effect_count, param_count).0 == (AppState {
            pedal_focus: if s.pedal_focus == PedalFocus::Effects { PedalFocus::Params } else { PedalFocus::Effects },
            ..s
        }),
{
}

} // verus!
