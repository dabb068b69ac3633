//! The overlay's state and the decisions it takes each frame: the
//! notification queue, the show/hide toggle, key binding, hotkeys and the
//! values it reads from and writes to the game.
use vstd::prelude::*;
use crate::config::{load_outcome, Config, ConfigSource};
use crate::keys::{get_key_name, key_name, VK_ESCAPE, VK_LBUTTON, VK_RSHIFT};

verus! {

/// At most this many notifications are kept.
pub const MAX_NOTIFICATIONS: usize = 3;

/// A notification is shown for this long (nanoseconds).
pub const NOTIFICATION_LIFETIME_NANOS: u64 = 3_000_000_000;

/// The overlay cannot be toggled again until more than this many whole
/// milliseconds have passed since the last toggle.
pub const TOGGLE_DEBOUNCE_MILLIS: u64 = 300;

/// A message shown for a while; `created_at` is a monotonic timestamp in
/// nanoseconds.
pub struct Notification {
    pub message: String,
    pub created_at: u64,
}

/// A notification as a value.
pub struct NotificationView {
    pub message: Seq<char>,
    pub created_at: u64,
}

impl View for Notification {
    type V = NotificationView;

    open spec fn view(&self) -> NotificationView {
        NotificationView { message: self.message@, created_at: self.created_at }
    }
}

/// The state of the overlay. The game values (`height`, vertical velocity,
/// time) and the two values the hotkeys write are `f32` values, held by
/// their bit patterns (`f32::to_bits`). Timestamps are monotonic, in
/// nanoseconds.
pub struct Tool {
    notifications: Vec<Notification>,
    show_gui: bool,
    last_toggle_time: u64,
    height_val: u32,
    y_velocity_val: u32,
    time_val: u32,
    y_velocity_up_val: u32,
    y_velocity_down_val: u32,
    time_locked: bool,
    notifications_enabled: bool,
    key_y_velocity_up: i32,
    key_y_velocity_down: i32,
    waiting_for_key_up: bool,
    waiting_for_key_down: bool,
    was_up_pressed: bool,
    was_down_pressed: bool,
    unity_player_base: Option<usize>,
    game_assembly_base: Option<usize>,
}

/// The state of the overlay as a value.
pub struct ToolView {
    pub notifications: Seq<NotificationView>,
    pub show_gui: bool,
    pub last_toggle_time: u64,
    pub height_val: u32,
    pub y_velocity_val: u32,
    pub time_val: u32,
    pub y_velocity_up_val: u32,
    pub y_velocity_down_val: u32,
    pub time_locked: bool,
    pub notifications_enabled: bool,
    pub key_y_velocity_up: i32,
    pub key_y_velocity_down: i32,
    pub waiting_for_key_up: bool,
    pub waiting_for_key_down: bool,
    pub was_up_pressed: bool,
    pub was_down_pressed: bool,
    pub unity_player_base: Option<usize>,
    pub game_assembly_base: Option<usize>,
}

impl View for Tool {
    type V = ToolView;

    closed spec fn view(&self) -> ToolView {
        ToolView {
            notifications: self.notifications@.map_values(|n: Notification| n@),
            show_gui: self.show_gui,
            last_toggle_time: self.last_toggle_time,
            height_val: self.height_val,
            y_velocity_val: self.y_velocity_val,
            time_val: self.time_val,
            y_velocity_up_val: self.y_velocity_up_val,
            y_velocity_down_val: self.y_velocity_down_val,
            time_locked: self.time_locked,
            notifications_enabled: self.notifications_enabled,
            key_y_velocity_up: self.key_y_velocity_up,
            key_y_velocity_down: self.key_y_velocity_down,
            waiting_for_key_up: self.waiting_for_key_up,
            waiting_for_key_down: self.waiting_for_key_down,
            was_up_pressed: self.was_up_pressed,
            was_down_pressed: self.was_down_pressed,
            unity_player_base: self.unity_player_base,
            game_assembly_base: self.game_assembly_base,
        }
    }
}

/// The newest `MAX_NOTIFICATIONS` of `ns` (all of them where there are
/// no more), oldest first.
pub open spec fn newest(ns: Seq<NotificationView>) -> Seq<NotificationView> {
    if ns.len() > MAX_NOTIFICATIONS {
        ns.skip(ns.len() - MAX_NOTIFICATIONS)
    } else {
        ns
    }
}

/// The state right after the overlay is loaded with `config` at `now`.
pub open spec fn initial_view(config: Config, now: u64) -> ToolView {
    ToolView {
        notifications: seq![
            NotificationView { message: "Tool injected successfully!"@, created_at: now },
        ],
        show_gui: false,
        last_toggle_time: now,
        height_val: 0,
        y_velocity_val: 0,
        time_val: 0,
        y_velocity_up_val: config.y_velocity_up_bits,
        y_velocity_down_val: config.y_velocity_down_bits,
        time_locked: false,
        notifications_enabled: config.notifications_enabled,
        key_y_velocity_up: config.key_y_velocity_up,
        key_y_velocity_down: config.key_y_velocity_down,
        waiting_for_key_up: false,
        waiting_for_key_down: false,
        was_up_pressed: false,
        was_down_pressed: false,
        unity_player_base: None,
        game_assembly_base: None,
    }
}

impl ToolView {
    /// Adds a notification, where notifications are enabled, keeping the
    /// newest ones.
    pub open spec fn notify(self, message: Seq<char>, now: u64) -> ToolView {
        if self.notifications_enabled {
            ToolView {
                notifications: newest(
                    self.notifications.push(NotificationView { message, created_at: now }),
                ),
                ..self
            }
        } else {
            self
        }
    }

    /// The settings that this state saves.
    pub open spec fn config(self) -> Config {
        Config {
            key_y_velocity_up: self.key_y_velocity_up,
            key_y_velocity_down: self.key_y_velocity_down,
            y_velocity_up_bits: self.y_velocity_up_val,
            y_velocity_down_bits: self.y_velocity_down_val,
            notifications_enabled: self.notifications_enabled,
        }
    }
}


/// A key may be bound to an action: it is one of the codes scanned for a
/// binding (1 to 254) and neither the toggle key, Escape nor the left
/// mouse button.
pub open spec fn bindable(vk: i32) -> bool {
    1 <= vk <= 254 && vk != VK_RSHIFT && vk != VK_ESCAPE && vk != VK_LBUTTON
}

/// The first key of `pressed` that may be bound.
pub open spec fn first_bindable(pressed: Seq<i32>) -> Option<i32>
    decreases pressed.len(),
{
    if pressed.len() == 0 {
        None
    } else if bindable(pressed[0]) {
        Some(pressed[0])
    } else {
        first_bindable(pressed.drop_first())
    }
}

/// Whole milliseconds from `since` to `now`, zero where `now` is earlier.
pub open spec fn elapsed_millis(since: u64, now: u64) -> int {
    if now >= since {
        (now - since) as int / 1_000_000
    } else {
        0
    }
}

/// A notification created at `created_at` is still shown at `now`.
pub open spec fn is_fresh(n: NotificationView, now: u64) -> bool {
    now < n.created_at || now - n.created_at < NOTIFICATION_LIFETIME_NANOS
}

/// The notifications of `ns` still shown at `now`, in order.
pub open spec fn fresh_only(ns: Seq<NotificationView>, now: u64) -> Seq<NotificationView> {
    ns.filter(|n: NotificationView| is_fresh(n, now))
}

/// A value that a hotkey writes to the game, and whether the write is
/// silent (no notification).
#[derive(Clone, Copy, Debug, PartialEq, Eq, Structural)]
pub struct HotkeyWrite {
    pub value: u32,
    pub silent: bool,
}

/// What the caller has to do after the keys of a frame were handled.
#[derive(Clone, Copy, Debug, PartialEq, Eq, Structural)]
pub enum KeyAction {
    /// Nothing.
    Nothing,
    /// A key was bound: save the settings.
    SaveConfig,
    /// Write the vertical velocity: first `up`, then `down`, where given.
    Write { up: Option<HotkeyWrite>, down: Option<HotkeyWrite> },
}

/// Where a game value lives: the module offset of the root pointer and the
/// offsets of the chain. Identifiers: 0 height, 1 vertical velocity, 2 time.
pub open spec fn spec_value_chain(id: u8) -> Option<(usize, Seq<usize>)> {
    if id == 0 {
        Some((0x023D5308usize, seq![0xB8usize, 0x18, 0x50, 0x20, 0x1C0]))
    } else if id == 1 {
        Some((0x023D5308usize, seq![0xB8usize, 0x18, 0x50, 0x20, 0xC8]))
    } else if id == 2 {
        Some((0x023C2D80usize, seq![0xB8usize, 0x28, 0x120, 0x10, 0x28, 0x220, 0x8BC]))
    } else {
        None
    }
}

/// Returns where the game value `id` lives (see `spec_value_chain`).
pub fn value_chain(id: u8) -> (r: Option<(usize, Vec<usize>)>)
    ensures
        match spec_value_chain(id) {
            Some((base, offs)) => r matches Some((b, o)) && b == base && o@ == offs,
            None => r is None,
        },
{
    if id == 0 {
        let v: Vec<usize> = vec![0xB8, 0x18, 0x50, 0x20, 0x1C0];
        assert(v@ =~= seq![0xB8usize, 0x18, 0x50, 0x20, 0x1C0]);
        Some((0x023D5308, v))
    } else if id == 1 {
        let v: Vec<usize> = vec![0xB8, 0x18, 0x50, 0x20, 0xC8];
        assert(v@ =~= seq![0xB8usize, 0x18, 0x50, 0x20, 0xC8]);
        Some((0x023D5308, v))
    } else if id == 2 {
        let v: Vec<usize> = vec![0xB8, 0x28, 0x120, 0x10, 0x28, 0x220, 0x8BC];
        assert(v@ =~= seq![0xB8usize, 0x28, 0x120, 0x10, 0x28, 0x220, 0x8BC]);
        Some((0x023C2D80, v))
    } else {
        None
    }
}

/// What the overlay observes at the start of a frame, besides the keys
/// held while a binding is awaited.
#[derive(Clone, Copy, Debug, PartialEq, Eq, Structural)]
pub struct FrameInput {
    /// The game window is in the foreground.
    pub focused: bool,
    /// The toggle key (right Shift) is held.
    pub toggle_down: bool,
    /// The interface takes the keyboard or the mouse.
    pub ui_wants_input: bool,
    /// The key of the up action is held.
    pub up_down: bool,
    /// The key of the down action is held.
    pub down_down: bool,
    /// Monotonic time, in nanoseconds.
    pub now: u64,
}

/// What the caller has to do after a frame's input was handled.
#[derive(Clone, Copy, Debug, PartialEq, Eq, Structural)]
pub struct FrameActions {
    /// The overlay was just opened: read the game values again.
    pub refresh: bool,
    /// What the keys ask for.
    pub keys: KeyAction,
}

/// What the user did with a control of the overlay window.
#[derive(Clone, Copy, Debug, PartialEq, Eq, Structural)]
pub enum UiEvent {
    /// The notifications checkbox now holds `enabled`; `clicked` tells
    /// whether it was clicked this frame.
    NotificationsCheckbox { enabled: bool, clicked: bool },
    /// The binding button of the up action was clicked.
    BindUpClicked,
    /// The binding button of the down action was clicked.
    BindDownClicked,
    /// The input of the up value now holds `value`; `edited` tells whether
    /// it was edited this frame.
    UpValueInput { value: u32, edited: bool },
    /// The input of the down value now holds `value`; `edited` tells
    /// whether it was edited this frame.
    DownValueInput { value: u32, edited: bool },
    /// The time controls: the time input now holds `value` (`edited`
    /// tells whether it was edited this frame), the lock checkbox holds
    /// `locked`, and `set_clicked` tells whether the set button was clicked.
    TimeControls { value: u32, edited: bool, locked: bool, set_clicked: bool },
}

/// What the caller has to do after a control was handled.
#[derive(Clone, Copy, Debug, PartialEq, Eq, Structural)]
pub enum UiAction {
    /// Nothing.
    Nothing,
    /// Save the settings.
    SaveConfig,
    /// Write the time value, loudly: `after_edit` for the edited input,
    /// then `after_set` for the set button, where given.
    WriteTime { after_edit: Option<u32>, after_set: Option<u32> },
}

impl ToolView {
    /// A press of the toggle key at `now`: the overlay is shown or hidden
    /// where more than `TOGGLE_DEBOUNCE_MILLIS` whole milliseconds passed
    /// since the last toggle.
    pub open spec fn toggle(self, pressed: bool, now: u64) -> ToolView {
        if pressed && elapsed_millis(self.last_toggle_time, now) > TOGGLE_DEBOUNCE_MILLIS {
            ToolView { show_gui: !self.show_gui, last_toggle_time: now, ..self }
        } else {
            self
        }
    }

    /// Handles the keys held in a focused frame in which the interface
    /// does not take the input: binds the first bindable key of `pressed`
    /// while a binding is awaited, else runs the two hotkeys.
    pub open spec fn handle_keys(self, pressed: Seq<i32>, up_down: bool, down_down: bool, now: u64) -> (ToolView, KeyAction) {
        if self.waiting_for_key_up {
            match first_bindable(pressed) {
                Some(vk) => (
                    ToolView { key_y_velocity_up: vk, waiting_for_key_up: false, ..self }.notify(
                        "Bound UP action to "@ + key_name(vk),
                        now,
                    ),
                    KeyAction::SaveConfig,
                ),
                None => (self, KeyAction::Nothing),
            }
        } else if self.waiting_for_key_down {
            match first_bindable(pressed) {
                Some(vk) => (
                    ToolView { key_y_velocity_down: vk, waiting_for_key_down: false, ..self }.notify(
                        "Bound DOWN action to "@ + key_name(vk),
                        now,
                    ),
                    KeyAction::SaveConfig,
                ),
                None => (self, KeyAction::Nothing),
            }
        } else {
            (
                ToolView { was_up_pressed: up_down, was_down_pressed: down_down, ..self },
                KeyAction::Write {
                    up: if up_down {
                        Some(HotkeyWrite { value: self.y_velocity_up_val, silent: self.was_up_pressed })
                    } else {
                        None
                    },
                    down: if down_down {
                        Some(HotkeyWrite { value: self.y_velocity_down_val, silent: self.was_down_pressed })
                    } else {
                        None
                    },
                },
            )
        }
    }

    /// A frame: nothing happens unless the game window has the focus; then
    /// the toggle key is handled, and, unless the interface takes the
    /// input, the keys (`pressed` being the keys held, in scan order).
    pub open spec fn frame(self, input: FrameInput, pressed: Seq<i32>) -> (ToolView, FrameActions) {
        if !input.focused {
            (self, FrameActions { refresh: false, keys: KeyAction::Nothing })
        } else {
            let t = self.toggle(input.toggle_down, input.now);
            let refresh = t.show_gui && !self.show_gui;
            if input.ui_wants_input {
                (t, FrameActions { refresh, keys: KeyAction::Nothing })
            } else {
                let (k, a) = t.handle_keys(pressed, input.up_down, input.down_down, input.now);
                (k, FrameActions { refresh, keys: a })
            }
        }
    }

    /// The effect of a control of the overlay window.
    pub open spec fn ui(self, event: UiEvent) -> (ToolView, UiAction) {
        match event {
            UiEvent::NotificationsCheckbox { enabled, clicked } => (
                ToolView { notifications_enabled: enabled, ..self },
                if clicked { UiAction::SaveConfig } else { UiAction::Nothing },
            ),
            UiEvent::BindUpClicked => (
                ToolView { waiting_for_key_up: true, waiting_for_key_down: false, ..self },
                UiAction::Nothing,
            ),
            UiEvent::BindDownClicked => (
                ToolView { waiting_for_key_down: true, waiting_for_key_up: false, ..self },
                UiAction::Nothing,
            ),
            UiEvent::UpValueInput { value, edited } => (
                ToolView { y_velocity_up_val: value, ..self },
                if edited { UiAction::SaveConfig } else { UiAction::Nothing },
            ),
            UiEvent::DownValueInput { value, edited } => (
                ToolView { y_velocity_down_val: value, ..self },
                if edited { UiAction::SaveConfig } else { UiAction::Nothing },
            ),
            UiEvent::TimeControls { value, edited, locked, set_clicked } => (
                ToolView {
                    time_val: if edited || locked || set_clicked { value } else { self.time_val },
                    time_locked: locked,
                    ..self
                },
                if edited || set_clicked {
                    UiAction::WriteTime {
                        after_edit: if edited { Some(value) } else { None },
                        after_set: if set_clicked { Some(value) } else { None },
                    }
                } else {
                    UiAction::Nothing
                },
            ),
        }
    }

    /// Takes the module base addresses a lookup found, for each one not
    /// known yet.
    pub open spec fn with_bases(self, unity_player: Option<usize>, game_assembly: Option<usize>) -> ToolView {
        ToolView {
            unity_player_base: if self.unity_player_base is None { unity_player } else { self.unity_player_base },
            game_assembly_base: if self.game_assembly_base is None { game_assembly } else { self.game_assembly_base },
            ..self
        }
    }

    /// The outcome of a write to the game: unless silent, a notification
    /// of the new value (given as text) or of the failure.
    pub open spec fn record_write(self, success: bool, silent: bool, value_text: Seq<char>, now: u64) -> ToolView {
        if silent {
            self
        } else if success {
            self.notify("Updated value to "@ + value_text, now)
        } else {
            self.notify("Failed to write memory!"@, now)
        }
    }
}

impl Tool {
    #[verifier::type_invariant]
    spec fn inv(self) -> bool {
        self.notifications.len() <= MAX_NOTIFICATIONS
    }

    /// The overlay as loaded with `config` at `now`, with a notification
    /// that it was injected.
    pub fn new(config: &Config, now: u64) -> (t: Tool)
        ensures
            t@ == initial_view(*config, now),
    {
        let mut notifications: Vec<Notification> = Vec::new();
        proof {
            reveal_strlit("Tool injected successfully!");
        }
        notifications.push(
            Notification { message: String::from_str("Tool injected successfully!"), created_at: now },
        );
        let t = Tool {
            notifications,
            show_gui: false,
            last_toggle_time: now,
            height_val: 0,
            y_velocity_val: 0,
            time_val: 0,
            y_velocity_up_val: config.y_velocity_up_bits,
            y_velocity_down_val: config.y_velocity_down_bits,
            time_locked: false,
            notifications_enabled: config.notifications_enabled,
            key_y_velocity_up: config.key_y_velocity_up,
            key_y_velocity_down: config.key_y_velocity_down,
            waiting_for_key_up: false,
            waiting_for_key_down: false,
            was_up_pressed: false,
            was_down_pressed: false,
            unity_player_base: None,
            game_assembly_base: None,
        };
        assert(t@.notifications =~= initial_view(*config, now).notifications);
        t
    }

    /// Shows `message` from `now` on, where notifications are enabled;
    /// only the newest `MAX_NOTIFICATIONS` notifications are kept.
    pub fn add_notification(&mut self, message: &str, now: u64)
        ensures
            final(self)@ == old(self)@.notify(message@, now),
            final(self)@.notifications.len() <= MAX_NOTIFICATIONS,
    {
        proof {
            use_type_invariant(&*self);
        }
        if !self.notifications_enabled {
            return;
        }
        let mut ns: Vec<Notification> = Vec::new();
        std::mem::swap(&mut ns, &mut self.notifications);
        ns.push(Notification { message: String::from_str(message), created_at: now });
        let ghost full = ns@;
        while ns.len() > MAX_NOTIFICATIONS
            invariant
                full.len() <= MAX_NOTIFICATIONS + 1,
                ns.len() <= full.len(),
                ns.len() >= MAX_NOTIFICATIONS || ns.len() == full.len(),
                ns@ =~= full.skip(full.len() - ns.len()),
            decreases ns.len(),
        {
            ns.remove(0);
        }
        proof {
            let f = |n: Notification| n@;
            let old_ns = old(self)@.notifications;
            let added = old_ns.push(NotificationView { message: message@, created_at: now });
            assert(full.map_values(f) =~= added);
            assert(ns@.map_values(f) =~= newest(added));
        }
        self.notifications = ns;
    }


    /// Takes the module base addresses that a lookup found, for each one
    /// not known yet; a known base is kept.
    pub fn update_bases(&mut self, unity_player: Option<usize>, game_assembly: Option<usize>)
        ensures
            final(self)@ == old(self)@.with_bases(unity_player, game_assembly),
    {
        proof {
            use_type_invariant(&*self);
        }
        if self.unity_player_base.is_none() {
            self.unity_player_base = unity_player;
        }
        if self.game_assembly_base.is_none() {
            self.game_assembly_base = game_assembly;
        }
    }

    /// Takes the values read from the game; a value that could not be read
    /// keeps its previous reading.
    pub fn read_values(&mut self, height: Option<u32>, y_velocity: Option<u32>, time: Option<u32>)
        ensures
            final(self)@ == (ToolView {
                height_val: match height { Some(v) => v, None => old(self)@.height_val },
                y_velocity_val: match y_velocity { Some(v) => v, None => old(self)@.y_velocity_val },
                time_val: match time { Some(v) => v, None => old(self)@.time_val },
                ..old(self)@
            }),
    {
        proof {
            use_type_invariant(&*self);
        }
        if let Some(v) = height {
            self.height_val = v;
        }
        if let Some(v) = y_velocity {
            self.y_velocity_val = v;
        }
        if let Some(v) = time {
            self.time_val = v;
        }
    }

    /// A frame in which the game window has the focus and the toggle key
    /// is `pressed` (or not) at `now`. Returns whether the overlay was just
    /// opened, in which case the game values are to be read again.
    fn toggle_gui(&mut self, pressed: bool, now: u64) -> (opened: bool)
        ensures
            final(self)@ == old(self)@.toggle(pressed, now),
            opened == (final(self)@.show_gui && !old(self)@.show_gui),
    {
        proof {
            use_type_invariant(&*self);
        }
        if pressed {
            let elapsed: u64 = if now >= self.last_toggle_time {
                (now - self.last_toggle_time) / 1_000_000
            } else {
                0
            };
            if elapsed > TOGGLE_DEBOUNCE_MILLIS {
                self.show_gui = !self.show_gui;
                self.last_toggle_time = now;
                return self.show_gui;
            }
        }
        false
    }

    /// Binds the key awaited by the up action (`up`) or the down action to
    /// the first bindable key of `pressed`, if any.
    fn bind_first(&mut self, pressed: &Vec<i32>, up: bool, now: u64) -> (bound: bool)
        requires
            up ==> old(self)@.waiting_for_key_up,
            !up ==> !old(self)@.waiting_for_key_up && old(self)@.waiting_for_key_down,
        ensures
            (final(self)@, if bound { KeyAction::SaveConfig } else { KeyAction::Nothing })
                == old(self)@.handle_keys(pressed@, false, false, now),
            final(self)@.notifications.len() <= MAX_NOTIFICATIONS,
    {
        proof {
            use_type_invariant(&*self);
        }
        let mut i: usize = 0;
        assert(pressed@.skip(0) =~= pressed@);
        while i < pressed.len()
            invariant
                i <= pressed.len(),
                self.notifications.len() <= MAX_NOTIFICATIONS,
                up ==> old(self)@.waiting_for_key_up,
                !up ==> !old(self)@.waiting_for_key_up && old(self)@.waiting_for_key_down,
                first_bindable(pressed@) == first_bindable(pressed@.skip(i as int)),
                self@ == old(self)@,
            decreases pressed.len() - i,
        {
            let vk = pressed[i];
            assert(pressed@.skip(i as int)[0] == vk);
            if 1 <= vk && vk <= 254 && vk != VK_RSHIFT && vk != VK_ESCAPE && vk != VK_LBUTTON {
                let name = get_key_name(vk);
                let msg = if up {
                    self.key_y_velocity_up = vk;
                    self.waiting_for_key_up = false;
                    String::from_str("Bound UP action to ").concat(name.as_str())
                } else {
                    self.key_y_velocity_down = vk;
                    self.waiting_for_key_down = false;
                    String::from_str("Bound DOWN action to ").concat(name.as_str())
                };
                self.add_notification(msg.as_str(), now);
                return true;
            }
            assert(pressed@.skip(i as int).drop_first() =~= pressed@.skip(i + 1));
            i = i + 1;
        }
        assert(pressed@.skip(i as int) =~= Seq::<i32>::empty());
        false
    }

    /// Handles the keys held in a frame in which the game window has the
    /// focus and the interface does not take the input: `pressed` lists
    /// the keys held, in the order in which they are to be tried for a
    /// binding; `up_down` and `down_down` tell whether the two hotkeys are
    /// held. Returns what the caller must do next.
    fn handle_keys(&mut self, pressed: &Vec<i32>, up_down: bool, down_down: bool, now: u64) -> (action: KeyAction)
        ensures
            (final(self)@, action) == old(self)@.handle_keys(pressed@, up_down, down_down, now),
            final(self)@.notifications.len() <= MAX_NOTIFICATIONS,
    {
        proof {
            use_type_invariant(&*self);
        }
        if self.waiting_for_key_up || self.waiting_for_key_down {
            let up = self.waiting_for_key_up;
            if self.bind_first(pressed, up, now) {
                KeyAction::SaveConfig
            } else {
                KeyAction::Nothing
            }
        } else {
            let up = if up_down {
                Some(HotkeyWrite { value: self.y_velocity_up_val, silent: self.was_up_pressed })
            } else {
                None
            };
            self.was_up_pressed = up_down;
            let down = if down_down {
                Some(HotkeyWrite { value: self.y_velocity_down_val, silent: self.was_down_pressed })
            } else {
                None
            };
            self.was_down_pressed = down_down;
            KeyAction::Write { up, down }
        }
    }

    /// The time value to write again this frame, where time is locked.
    pub fn time_lock_value(&self) -> (r: Option<u32>)
        ensures
            r == (if self@.time_locked { Some(self@.time_val) } else { None }),
    {
        if self.time_locked {
            Some(self.time_val)
        } else {
            None
        }
    }

    /// Records the outcome of a write to the game; `value_text` is the
    /// written value as it is to be shown.
    pub fn record_write(&mut self, success: bool, silent: bool, value_text: &str, now: u64)
        ensures
            final(self)@ == old(self)@.record_write(success, silent, value_text@, now),
            final(self)@.notifications.len() <= MAX_NOTIFICATIONS,
    {
        proof {
            use_type_invariant(&*self);
        }
        if silent {
            return;
        }
        if success {
            let msg = String::from_str("Updated value to ").concat(value_text);
            self.add_notification(msg.as_str(), now);
        } else {
            self.add_notification("Failed to write memory!", now);
        }
    }

    /// Drops the notifications that are no longer shown at `now`.
    pub fn expire_notifications(&mut self, now: u64)
        ensures
            final(self)@ == (ToolView {
                notifications: fresh_only(old(self)@.notifications, now),
                ..old(self)@
            }),
    {
        proof {
            use_type_invariant(&*self);
        }
        let mut ns: Vec<Notification> = Vec::new();
        std::mem::swap(&mut ns, &mut self.notifications);
        let ghost all = ns@.map_values(|n: Notification| n@);
        let mut kept: Vec<Notification> = Vec::new();
        let mut i: usize = 0;
        while i < ns.len()
            invariant
                all == ns@.map_values(|n: Notification| n@),
                all.len() <= MAX_NOTIFICATIONS,
                i <= ns.len(),
                kept@.map_values(|n: Notification| n@) =~= fresh_only(all.take(i as int), now),
                kept.len() <= i,
            decreases ns.len() - i,
        {
            let created_at = ns[i].created_at;
            let ghost pre = all.take(i + 1);
            assert(pre.drop_last() =~= all.take(i as int));
            assert(pre.last() == ns@[i as int]@);
            reveal(Seq::filter);
            assert(fresh_only(pre, now) == if is_fresh(pre.last(), now) {
                fresh_only(pre.drop_last(), now).push(pre.last())
            } else {
                fresh_only(pre.drop_last(), now)
            });
            if now < created_at || now - created_at < NOTIFICATION_LIFETIME_NANOS {
                let message = ns[i].message.clone();
                kept.push(Notification { message, created_at });
            }
            proof {
                all.take(i as int).lemma_filter_len(|n: NotificationView| is_fresh(n, now));
            }
            i = i + 1;
        }
        assert(all.take(all.len() as int) =~= all);
        proof {
            all.lemma_filter_len(|n: NotificationView| is_fresh(n, now));
        }
        self.notifications = kept;
    }

    /// Whether a key for an action is awaited, so that the held keys must
    /// be scanned.
    pub fn awaiting_binding(&self) -> (r: bool)
        ensures
            r == (self@.waiting_for_key_up || self@.waiting_for_key_down),
    {
        self.waiting_for_key_up || self.waiting_for_key_down
    }

    /// Handles the input of a frame; `pressed` lists the keys held, in the
    /// order in which they are tried for a binding.
    pub fn handle_frame(&mut self, input: FrameInput, pressed: &Vec<i32>) -> (actions: FrameActions)
        ensures
            (final(self)@, actions) == old(self)@.frame(input, pressed@),
            final(self)@.notifications.len() <= MAX_NOTIFICATIONS,
    {
        proof {
            use_type_invariant(&*self);
        }
        if !input.focused {
            return FrameActions { refresh: false, keys: KeyAction::Nothing };
        }
        let refresh = self.toggle_gui(input.toggle_down, input.now);
        if input.ui_wants_input {
            proof {
                use_type_invariant(&*self);
            }
            return FrameActions { refresh, keys: KeyAction::Nothing };
        }
        let keys = self.handle_keys(pressed, input.up_down, input.down_down, input.now);
        FrameActions { refresh, keys }
    }

    /// Handles what the user did with a control of the overlay window.
    pub fn handle_ui(&mut self, event: UiEvent) -> (action: UiAction)
        ensures
            (final(self)@, action) == old(self)@.ui(event),
    {
        proof {
            use_type_invariant(&*self);
        }
        match event {
            UiEvent::NotificationsCheckbox { enabled, clicked } => {
                self.notifications_enabled = enabled;
                if clicked {
                    UiAction::SaveConfig
                } else {
                    UiAction::Nothing
                }
            },
            UiEvent::BindUpClicked => {
                self.waiting_for_key_up = true;
                self.waiting_for_key_down = false;
                UiAction::Nothing
            },
            UiEvent::BindDownClicked => {
                self.waiting_for_key_down = true;
                self.waiting_for_key_up = false;
                UiAction::Nothing
            },
            UiEvent::UpValueInput { value, edited } => {
                self.y_velocity_up_val = value;
                if edited {
                    UiAction::SaveConfig
                } else {
                    UiAction::Nothing
                }
            },
            UiEvent::DownValueInput { value, edited } => {
                self.y_velocity_down_val = value;
                if edited {
                    UiAction::SaveConfig
                } else {
                    UiAction::Nothing
                }
            },
            UiEvent::TimeControls { value, edited, locked, set_clicked } => {
                if edited {
                    self.time_val = value;
                }
                self.time_locked = locked;
                if locked {
                    self.time_val = value;
                }
                if set_clicked {
                    self.time_val = value;
                }
                if edited || set_clicked {
                    UiAction::WriteTime {
                        after_edit: if edited { Some(value) } else { None },
                        after_set: if set_clicked { Some(value) } else { None },
                    }
                } else {
                    UiAction::Nothing
                }
            },
        }
    }

    /// The number of notifications kept.
    pub fn notification_count(&self) -> (r: usize)
        ensures
            r == self@.notifications.len(),
            r <= MAX_NOTIFICATIONS,
    {
        proof {
            use_type_invariant(self);
        }
        self.notifications.len()
    }

    /// The `i`-th kept notification, oldest first: its message and when it
    /// was created.
    pub fn notification(&self, i: usize) -> (r: (&str, u64))
        requires
            i < self@.notifications.len(),
        ensures
            r.0@ == self@.notifications[i as int].message,
            r.1 == self@.notifications[i as int].created_at,
    {
        (self.notifications[i].message.as_str(), self.notifications[i].created_at)
    }

    /// Whether the overlay window is shown.
    pub fn show_gui(&self) -> (r: bool)
        ensures
            r == self@.show_gui,
    {
        self.show_gui
    }

    /// The last height read from the game.
    pub fn height_val(&self) -> (r: u32)
        ensures
            r == self@.height_val,
    {
        self.height_val
    }

    /// The last vertical velocity read from the game.
    pub fn y_velocity_val(&self) -> (r: u32)
        ensures
            r == self@.y_velocity_val,
    {
        self.y_velocity_val
    }

    /// The time value.
    pub fn time_val(&self) -> (r: u32)
        ensures
            r == self@.time_val,
    {
        self.time_val
    }

    /// The value the up hotkey writes.
    pub fn y_velocity_up_val(&self) -> (r: u32)
        ensures
            r == self@.y_velocity_up_val,
    {
        self.y_velocity_up_val
    }

    /// The value the down hotkey writes.
    pub fn y_velocity_down_val(&self) -> (r: u32)
        ensures
            r == self@.y_velocity_down_val,
    {
        self.y_velocity_down_val
    }

    /// Whether time is locked.
    pub fn time_locked(&self) -> (r: bool)
        ensures
            r == self@.time_locked,
    {
        self.time_locked
    }

    /// Whether notifications are shown.
    pub fn notifications_enabled(&self) -> (r: bool)
        ensures
            r == self@.notifications_enabled,
    {
        self.notifications_enabled
    }

    /// The key of the up action.
    pub fn key_y_velocity_up(&self) -> (r: i32)
        ensures
            r == self@.key_y_velocity_up,
    {
        self.key_y_velocity_up
    }

    /// The key of the down action.
    pub fn key_y_velocity_down(&self) -> (r: i32)
        ensures
            r == self@.key_y_velocity_down,
    {
        self.key_y_velocity_down
    }

    /// Whether a key for the up action is awaited.
    pub fn waiting_for_key_up(&self) -> (r: bool)
        ensures
            r == self@.waiting_for_key_up,
    {
        self.waiting_for_key_up
    }

    /// Whether a key for the down action is awaited.
    pub fn waiting_for_key_down(&self) -> (r: bool)
        ensures
            r == self@.waiting_for_key_down,
    {
        self.waiting_for_key_down
    }

    /// The base address of the engine module, once found.
    pub fn unity_player_base(&self) -> (r: Option<usize>)
        ensures
            r == self@.unity_player_base,
    {
        self.unity_player_base
    }

    /// The base address of the game code module, once found.
    pub fn game_assembly_base(&self) -> (r: Option<usize>)
        ensures
            r == self@.game_assembly_base,
    {
        self.game_assembly_base
    }

    /// The settings that this state saves.
    pub fn current_config(&self) -> (c: Config)
        ensures
            c == self@.config(),
    {
        Config {
            key_y_velocity_up: self.key_y_velocity_up,
            key_y_velocity_down: self.key_y_velocity_down,
            y_velocity_up_bits: self.y_velocity_up_val,
            y_velocity_down_bits: self.y_velocity_down_val,
            notifications_enabled: self.notifications_enabled,
        }
    }
}


/// The caption of a binding button: a prompt while its key is awaited.
pub fn binding_label(waiting: bool) -> (r: &'static str)
    ensures
        r@ == (if waiting { "Press any key..."@ } else { "Bind Key"@ }),
{
    if waiting {
        "Press any key..."
    } else {
        "Bind Key"
    }
}


/// Settings saved from any state and loaded back give an overlay that
/// saves the same settings: the keys, the two hotkey values and whether
/// notifications are shown survive a restart.
pub proof fn lemma_config_round_trip(v: ToolView, now: u64)
    ensures
        initial_view(load_outcome(ConfigSource::Parsed(v.config())).0, now).config() == v.config(),
{
}

/// Adding a notification never leaves more than `MAX_NOTIFICATIONS`; where
/// notifications are enabled the new one is the last and the others are
/// the newest of the earlier ones, in order; where they are disabled
/// nothing changes.
pub proof fn lemma_notify_keeps_newest(v: ToolView, message: Seq<char>, now: u64)
    requires
        v.notifications.len() <= MAX_NOTIFICATIONS,
    ensures
        v.notify(message, now).notifications.len() <= MAX_NOTIFICATIONS,
        v.notifications_enabled ==> v.notify(message, now).notifications.last()
            == (NotificationView { message, created_at: now }),
        v.notifications_enabled ==> {
            let all = v.notifications.push(NotificationView { message, created_at: now });
            let kept = v.notify(message, now).notifications;
            forall|i: int| 0 <= i < kept.len() ==> #[trigger] kept[i] == all[all.len() - kept.len() + i]
        },
        !v.notifications_enabled ==> v.notify(message, now) == v,
{
}

/// Two accepted presses of the toggle key bring the overlay back to where
/// it was.
pub proof fn lemma_toggle_twice(v: ToolView, t1: u64, t2: u64)
    requires
        elapsed_millis(v.last_toggle_time, t1) > TOGGLE_DEBOUNCE_MILLIS,
        elapsed_millis(t1, t2) > TOGGLE_DEBOUNCE_MILLIS,
    ensures
        v.toggle(true, t1).show_gui != v.show_gui,
        v.toggle(true, t1).toggle(true, t2).show_gui == v.show_gui,
{
}

/// A press of the toggle key within `TOGGLE_DEBOUNCE_MILLIS` of an
/// accepted one changes nothing.
pub proof fn lemma_toggle_debounced(v: ToolView, t1: u64, t2: u64)
    requires
        elapsed_millis(v.last_toggle_time, t1) > TOGGLE_DEBOUNCE_MILLIS,
        elapsed_millis(t1, t2) <= TOGGLE_DEBOUNCE_MILLIS,
    ensures
        v.toggle(true, t1).toggle(true, t2) == v.toggle(true, t1),
{
}

/// A hotkey held over two frames in which the game window has the focus
/// and the interface does not take the input writes its value in both; the
/// write of the second frame is silent, and that of the first is silent
/// only if the key was already held before.
pub proof fn lemma_held_hotkey_is_silent(
    v: ToolView,
    i1: FrameInput,
    i2: FrameInput,
    p1: Seq<i32>,
    p2: Seq<i32>,
    up: bool,
)
    requires
        !v.waiting_for_key_up,
        !v.waiting_for_key_down,
        i1.focused && !i1.ui_wants_input && i2.focused && !i2.ui_wants_input,
        up ==> i1.up_down && i2.up_down,
        !up ==> i1.down_down && i2.down_down,
    ensures
        ({
            let (a, first) = v.frame(i1, p1);
            let (_, second) = a.frame(i2, p2);
            let (first_write, second_write, was) = if up {
                (first.keys->up, second.keys->up, v.was_up_pressed)
            } else {
                (first.keys->down, second.keys->down, v.was_down_pressed)
            };
            &&& first.keys is Write && second.keys is Write
            &&& first_write == Some(HotkeyWrite {
                value: if up { v.y_velocity_up_val } else { v.y_velocity_down_val },
                silent: was,
            })
            &&& second_write matches Some(w) && w.silent
        }),
{
}

/// The first bindable key of a list is bindable and is the list's element
/// at the returned index, after only keys that may not be bound; where
/// there is none, no key of the list is bindable.
pub proof fn lemma_first_bindable(pressed: Seq<i32>) -> (j: int)
    ensures
        first_bindable(pressed) matches Some(vk) ==> 0 <= j < pressed.len() && pressed[j] == vk
            && bindable(vk) && pressed.contains(vk)
            && forall|i: int| 0 <= i < j ==> !bindable(#[trigger] pressed[i]),
        first_bindable(pressed) is None ==> forall|i: int| 0 <= i < pressed.len() ==> !bindable(#[trigger] pressed[i]),
    decreases pressed.len(),
{
    if pressed.len() == 0 {
        0
    } else if bindable(pressed[0]) {
        assert(pressed.contains(pressed[0]));
        0
    } else {
        let k = lemma_first_bindable(pressed.drop_first());
        if let Some(vk) = first_bindable(pressed) {
            assert(pressed[k + 1] == vk);
            assert(pressed.contains(vk));
            assert forall|i: int| 0 <= i < k + 1 implies !bindable(#[trigger] pressed[i]) by {
                if i > 0 {
                    assert(pressed[i] == pressed.drop_first()[i - 1]);
                }
            }
        } else {
            assert forall|i: int| 0 <= i < pressed.len() implies !bindable(#[trigger] pressed[i]) by {
                if i > 0 {
                    assert(pressed[i] == pressed.drop_first()[i - 1]);
                }
            }
        }
        k + 1
    }
}

/// A frame only ever binds an action to a key that was held and that
/// is neither the toggle key, Escape nor the left mouse button.
pub proof fn lemma_binding_never_reserved(v: ToolView, input: FrameInput, pressed: Seq<i32>)
    ensures
        ({
            let w = v.frame(input, pressed).0;
            &&& w.key_y_velocity_up != v.key_y_velocity_up ==> 1 <= w.key_y_velocity_up <= 254
                && w.key_y_velocity_up != 0xA1 && w.key_y_velocity_up != 0x1B && w.key_y_velocity_up != 0x01
            &&& w.key_y_velocity_down != v.key_y_velocity_down ==> 1 <= w.key_y_velocity_down <= 254
                && w.key_y_velocity_down != 0xA1 && w.key_y_velocity_down != 0x1B
                && w.key_y_velocity_down != 0x01
        }),
        ({
            let w = v.frame(input, pressed).0;
            &&& w.key_y_velocity_up != v.key_y_velocity_up ==> pressed.contains(w.key_y_velocity_up)
                && w.key_y_velocity_up != VK_RSHIFT && w.key_y_velocity_up != VK_ESCAPE
                && w.key_y_velocity_up != VK_LBUTTON
            &&& w.key_y_velocity_down != v.key_y_velocity_down ==> pressed.contains(w.key_y_velocity_down)
                && w.key_y_velocity_down != VK_RSHIFT && w.key_y_velocity_down != VK_ESCAPE
                && w.key_y_velocity_down != VK_LBUTTON
        }),
{
    lemma_first_bindable(pressed);
}

/// After expiry every notification left is still shown, and every one that
/// is still shown is left.
pub proof fn lemma_expiry_keeps_fresh(ns: Seq<NotificationView>, now: u64)
    ensures
        forall|i: int| 0 <= i < fresh_only(ns, now).len() ==> is_fresh(#[trigger] fresh_only(ns, now)[i], now),
        forall|i: int| 0 <= i < ns.len() && is_fresh(#[trigger] ns[i], now) ==> fresh_only(ns, now).contains(ns[i]),
{
    let p = |n: NotificationView| is_fresh(n, now);
    assert forall|i: int| 0 <= i < fresh_only(ns, now).len() implies is_fresh(#[trigger] fresh_only(ns, now)[i], now) by {
        ns.lemma_filter_pred(p, i);
    }
    assert forall|i: int| 0 <= i < ns.len() && is_fresh(#[trigger] ns[i], now) implies fresh_only(ns, now).contains(ns[i]) by {
        ns.lemma_filter_contains(p, i);
    }
}


/// Whether the overlay is shown, and when it was last toggled, are the same
/// in both states.
pub open spec fn keeps_toggle(a: ToolView, b: ToolView) -> bool {
    a.show_gui == b.show_gui && a.last_toggle_time == b.last_toggle_time
}

/// The module base addresses are the same in both states.
pub open spec fn keeps_bases(a: ToolView, b: ToolView) -> bool {
    a.unity_player_base == b.unity_player_base && a.game_assembly_base == b.game_assembly_base
}

/// Every operation but the frame keeps whether the overlay is shown and
/// when it was last toggled, and every operation but `with_bases` keeps
/// the module base addresses.
pub proof fn lemma_operations_keep_toggle_and_bases(
    v: ToolView,
    input: FrameInput,
    pressed: Seq<i32>,
    event: UiEvent,
    message: Seq<char>,
    success: bool,
    silent: bool,
    now: u64,
    height: Option<u32>,
    y_velocity: Option<u32>,
    time: Option<u32>,
    unity_player: Option<usize>,
    game_assembly: Option<usize>,
)
    ensures
        keeps_bases(v, v.frame(input, pressed).0),
        keeps_toggle(v, v.ui(event).0) && keeps_bases(v, v.ui(event).0),
        keeps_toggle(v, v.notify(message, now)) && keeps_bases(v, v.notify(message, now)),
        keeps_toggle(v, v.record_write(success, silent, message, now))
            && keeps_bases(v, v.record_write(success, silent, message, now)),
        ({
            let w = ToolView { notifications: fresh_only(v.notifications, now), ..v };
            keeps_toggle(v, w) && keeps_bases(v, w)
        }),
        ({
            let w = ToolView {
                height_val: match height { Some(x) => x, None => v.height_val },
                y_velocity_val: match y_velocity { Some(x) => x, None => v.y_velocity_val },
                time_val: match time { Some(x) => x, None => v.time_val },
                ..v
            };
            keeps_toggle(v, w) && keeps_bases(v, w)
        }),
        keeps_toggle(v, v.with_bases(unity_player, game_assembly)),
{
}

/// A frame changes whether the overlay is shown only when the game window
/// has the focus, the toggle key is held and more than
/// `TOGGLE_DEBOUNCE_MILLIS` whole milliseconds passed since the last
/// toggle; it then records the frame's time as that of the last toggle.
/// Otherwise it keeps the time of the last toggle.
pub proof fn lemma_frame_toggle(v: ToolView, input: FrameInput, pressed: Seq<i32>)
    ensures
        ({
            let w = v.frame(input, pressed).0;
            &&& w.show_gui != v.show_gui ==> input.focused && input.toggle_down
                && elapsed_millis(v.last_toggle_time, input.now) > TOGGLE_DEBOUNCE_MILLIS
                && w.last_toggle_time == input.now
            &&& w.show_gui == v.show_gui ==> w.last_toggle_time == v.last_toggle_time
        }),
{
}

/// Step `m` of a run is a frame with input `inputs[m]`, or keeps the
/// toggle state.
pub open spec fn frame_or_keeps(states: Seq<ToolView>, inputs: Seq<FrameInput>, pressed: Seq<Seq<i32>>, m: int) -> bool {
    states[m + 1] == states[m].frame(inputs[m], pressed[m]).0 || keeps_toggle(states[m], states[m + 1])
}

/// Step `m` of a run keeps whether the overlay is shown.
pub open spec fn shown_kept(states: Seq<ToolView>, m: int) -> bool {
    states[m + 1].show_gui == states[m].show_gui
}

proof fn lemma_last_toggle_holds(
    states: Seq<ToolView>,
    inputs: Seq<FrameInput>,
    pressed: Seq<Seq<i32>>,
    i: int,
    k: int,
)
    requires
        states.len() == inputs.len() + 1,
        pressed.len() == inputs.len(),
        forall|m: int| 0 <= m < inputs.len() ==> #[trigger] frame_or_keeps(states, inputs, pressed, m),
        0 <= i < k <= inputs.len(),
        states[i + 1].show_gui != states[i].show_gui,
        forall|m: int| i < m < k ==> #[trigger] shown_kept(states, m),
    ensures
        states[k].last_toggle_time == inputs[i].now,
    decreases k - i,
{
    lemma_frame_toggle(states[k - 1], inputs[k - 1], pressed[k - 1]);
    if k > i + 1 {
        assert(shown_kept(states, k - 1));
        lemma_last_toggle_holds(states, inputs, pressed, i, k - 1);
    }
    assert(frame_or_keeps(states, inputs, pressed, k - 1));
}

/// Over any run of the overlay, in which each step is a frame or an
/// operation that keeps the toggle state, two successive changes of
/// whether the overlay is shown happen in focused frames with the toggle
/// key held, more than `TOGGLE_DEBOUNCE_MILLIS` whole milliseconds apart:
/// holding the toggle key does not make the overlay flicker.
pub proof fn lemma_toggles_debounced(
    states: Seq<ToolView>,
    inputs: Seq<FrameInput>,
    pressed: Seq<Seq<i32>>,
    i: int,
    j: int,
)
    requires
        states.len() == inputs.len() + 1,
        pressed.len() == inputs.len(),
        forall|m: int| 0 <= m < inputs.len() ==> #[trigger] frame_or_keeps(states, inputs, pressed, m),
        0 <= i < j < inputs.len(),
        states[i + 1].show_gui != states[i].show_gui,
        states[j + 1].show_gui != states[j].show_gui,
        forall|m: int| i < m < j ==> #[trigger] shown_kept(states, m),
    ensures
        inputs[i].focused && inputs[i].toggle_down,
        inputs[j].focused && inputs[j].toggle_down,
        elapsed_millis(inputs[i].now, inputs[j].now) > TOGGLE_DEBOUNCE_MILLIS,
{
    lemma_frame_toggle(states[i], inputs[i], pressed[i]);
    lemma_frame_toggle(states[j], inputs[j], pressed[j]);
    assert(frame_or_keeps(states, inputs, pressed, i));
    assert(frame_or_keeps(states, inputs, pressed, j));
    lemma_last_toggle_holds(states, inputs, pressed, i, j);
}

/// Step `m` of a run takes the bases `found[m]` through `with_bases`, or
/// keeps the bases.
pub open spec fn bases_step(states: Seq<ToolView>, found: Seq<(Option<usize>, Option<usize>)>, m: int) -> bool {
    states[m + 1] == states[m].with_bases(found[m].0, found[m].1) || keeps_bases(states[m], states[m + 1])
}

/// Over any run of the overlay, in which each step takes found module
/// bases through `with_bases` or keeps the bases, a base once known is
/// never cleared or replaced.
pub proof fn lemma_bases_never_replaced(
    states: Seq<ToolView>,
    found: Seq<(Option<usize>, Option<usize>)>,
    k: int,
)
    requires
        states.len() == found.len() + 1,
        forall|m: int| 0 <= m < found.len() ==> #[trigger] bases_step(states, found, m),
        0 <= k < states.len(),
    ensures
        states[0].unity_player_base is Some ==> states[k].unity_player_base == states[0].unity_player_base,
        states[0].game_assembly_base is Some ==> states[k].game_assembly_base == states[0].game_assembly_base,
    decreases k,
{
    if k > 0 {
        lemma_bases_never_replaced(states, found, k - 1);
        assert(bases_step(states, found, k - 1));
    }
}

/// The overlay never awaits keys for both actions at once: no operation
/// leads from a state that does not to one that does, and the initial
/// state does not.
pub proof fn lemma_binding_exclusive(
    v: ToolView,
    input: FrameInput,
    pressed: Seq<i32>,
    event: UiEvent,
    config: Config,
    now: u64,
)
    requires
        !(v.waiting_for_key_up && v.waiting_for_key_down),
    ensures
        !(initial_view(config, now).waiting_for_key_up && initial_view(config, now).waiting_for_key_down),
        !(v.frame(input, pressed).0.waiting_for_key_up && v.frame(input, pressed).0.waiting_for_key_down),
        !(v.ui(event).0.waiting_for_key_up && v.ui(event).0.waiting_for_key_down),
{
}


/// While a key is awaited for an action, a focused frame in which the
/// interface does not take the input binds the action to the first held
/// key that is a code from 1 to 254 other than right Shift (`0xA1`),
/// Escape (`0x1B`) and the left mouse button (`0x01`): every earlier held
/// key is one of those excluded ones. The binding is then no longer
/// awaited, the settings are to be saved, and the other action keeps its
/// key. Where no held key qualifies, nothing changes.
pub proof fn lemma_binding_takes_first_allowed_key(v: ToolView, input: FrameInput, pressed: Seq<i32>)
    requires
        input.focused,
        !input.ui_wants_input,
        v.waiting_for_key_up || v.waiting_for_key_down,
    ensures
        ({
            let (w, actions) = v.frame(input, pressed);
            let allowed = |k: i32| 1 <= k <= 254 && k != 0xA1 && k != 0x1B && k != 0x01;
            let bound = if v.waiting_for_key_up { w.key_y_velocity_up } else { w.key_y_velocity_down };
            &&& (exists|j: int| 0 <= j < pressed.len() && allowed(#[trigger] pressed[j])) ==> {
                &&& actions.keys == KeyAction::SaveConfig
                &&& exists|j: int| 0 <= j < pressed.len() && #[trigger] pressed[j] == bound && allowed(bound)
                    && forall|i: int| 0 <= i < j ==> !allowed(#[trigger] pressed[i])
                &&& v.waiting_for_key_up ==> !w.waiting_for_key_up
                    && w.key_y_velocity_down == v.key_y_velocity_down
                &&& !v.waiting_for_key_up ==> !w.waiting_for_key_down
                    && w.key_y_velocity_up == v.key_y_velocity_up
                &&& v.notifications_enabled ==> w.notifications.last().message == (if v.waiting_for_key_up {
                    "Bound UP action to "@
                } else {
                    "Bound DOWN action to "@
                }) + key_name(bound)
            }
            &&& !(exists|j: int| 0 <= j < pressed.len() && allowed(#[trigger] pressed[j])) ==> {
                &&& actions.keys == KeyAction::Nothing
                &&& w == v.toggle(input.toggle_down, input.now)
            }
        }),
{
    let allowed = |k: i32| 1 <= k <= 254 && k != 0xA1 && k != 0x1B && k != 0x01;
    let j = lemma_first_bindable(pressed);
    assert forall|k: i32| bindable(k) == allowed(k) by {}
    let (w, actions) = v.frame(input, pressed);
    if let Some(vk) = first_bindable(pressed) {
        assert(pressed[j] == vk);
        assert(allowed(pressed[j]));
        if v.waiting_for_key_up {
            assert(w.key_y_velocity_up == vk);
        } else {
            assert(w.key_y_velocity_down == vk);
        }
    } else {
        assert(!(exists|i: int| 0 <= i < pressed.len() && allowed(#[trigger] pressed[i])));
    }
}

/// Every code from 1 to 254 other than right Shift, Escape and the left
/// mouse button can be bound: while a key is awaited, a focused frame in
/// which it is the only held key binds the awaited action to it.
pub proof fn lemma_every_allowed_key_binds(v: ToolView, input: FrameInput, vk: i32)
    requires
        input.focused,
        !input.ui_wants_input,
        v.waiting_for_key_up || v.waiting_for_key_down,
        1 <= vk <= 254,
        vk != 0xA1 && vk != 0x1B && vk != 0x01,
    ensures
        ({
            let (w, actions) = v.frame(input, seq![vk]);
            &&& actions.keys == KeyAction::SaveConfig
            &&& v.waiting_for_key_up ==> w.key_y_velocity_up == vk && !w.waiting_for_key_up
            &&& !v.waiting_for_key_up ==> w.key_y_velocity_down == vk && !w.waiting_for_key_down
        }),
{
    reveal_with_fuel(first_bindable, 2);
    assert(bindable(vk));
}

/// In a focused frame in which the interface does not take the input and
/// no key is awaited for an action, each hotkey's value is written exactly
/// when its key is held, silently exactly when it was already held in the
/// previous such frame; what is held is remembered, and nothing else but
/// the toggle state changes.
pub proof fn lemma_hotkeys_follow_held_keys(v: ToolView, input: FrameInput, pressed: Seq<i32>)
    requires
        input.focused,
        !input.ui_wants_input,
        !v.waiting_for_key_up,
        !v.waiting_for_key_down,
    ensures
        ({
            let (w, actions) = v.frame(input, pressed);
            let t = v.toggle(input.toggle_down, input.now);
            &&& actions.keys matches KeyAction::Write { up, down } && {
                &&& up is Some <==> input.up_down
                &&& down is Some <==> input.down_down
                &&& input.up_down ==> up == Some(HotkeyWrite { value: v.y_velocity_up_val, silent: v.was_up_pressed })
                &&& input.down_down ==> down == Some(HotkeyWrite {
                    value: v.y_velocity_down_val,
                    silent: v.was_down_pressed,
                })
            }
            &&& w == (ToolView { was_up_pressed: input.up_down, was_down_pressed: input.down_down, ..t })
        }),
{
}

/// A frame in which the game window does not have the focus changes
/// nothing and asks for nothing; one in which the interface takes the
/// input handles only the toggle key.
pub proof fn lemma_frame_gating(v: ToolView, input: FrameInput, pressed: Seq<i32>)
    ensures
        !input.focused ==> v.frame(input, pressed) == (v, FrameActions { refresh: false, keys: KeyAction::Nothing }),
        input.focused && input.ui_wants_input ==> v.frame(input, pressed).0 == v.toggle(input.toggle_down, input.now)
            && v.frame(input, pressed).1.keys == KeyAction::Nothing,
{
}

/// The toggle key, stated on the clock: in a focused frame with the toggle
/// key held, where the clock has not gone back since the last toggle and
/// more than 300 whole milliseconds have passed, the overlay flips, the
/// frame's time is recorded, and a refresh is asked exactly when it opens;
/// in every other frame it stays as it is, keeps the time of the last
/// toggle and asks for no refresh.
pub proof fn lemma_toggle_on_the_clock(v: ToolView, input: FrameInput, pressed: Seq<i32>)
    ensures
        ({
            let (w, actions) = v.frame(input, pressed);
            let fires = input.focused && input.toggle_down && input.now >= v.last_toggle_time
                && (input.now - v.last_toggle_time) / 1_000_000 > 300;
            &&& fires ==> w.show_gui == !v.show_gui && w.last_toggle_time == input.now
                && actions.refresh == w.show_gui
            &&& !fires ==> w.show_gui == v.show_gui && w.last_toggle_time == v.last_toggle_time
                && !actions.refresh
        }),
{
}

/// The controls of the overlay window: the notifications checkbox sets
/// whether notifications are shown and asks to save when clicked; the
/// binding buttons await a key for their action only; the value inputs set
/// their value and ask to save when edited; the time controls set the lock
/// as shown, take the shown time when it was edited, locked or set, and
/// write it once for an edit and once for the set button, in that order.
/// No control changes anything else.
pub proof fn lemma_controls(v: ToolView, event: UiEvent)
    ensures
        ({
            let (w, action) = v.ui(event);
            match event {
                UiEvent::NotificationsCheckbox { enabled, clicked } => {
                    &&& w == (ToolView { notifications_enabled: enabled, ..v })
                    &&& action == (if clicked { UiAction::SaveConfig } else { UiAction::Nothing })
                },
                UiEvent::BindUpClicked => {
                    &&& w.waiting_for_key_up && !w.waiting_for_key_down
                    &&& w == (ToolView { waiting_for_key_up: true, waiting_for_key_down: false, ..v })
                    &&& action == UiAction::Nothing
                },
                UiEvent::BindDownClicked => {
                    &&& w.waiting_for_key_down && !w.waiting_for_key_up
                    &&& w == (ToolView { waiting_for_key_up: false, waiting_for_key_down: true, ..v })
                    &&& action == UiAction::Nothing
                },
                UiEvent::UpValueInput { value, edited } => {
                    &&& w == (ToolView { y_velocity_up_val: value, ..v })
                    &&& action == (if edited { UiAction::SaveConfig } else { UiAction::Nothing })
                },
                UiEvent::DownValueInput { value, edited } => {
                    &&& w == (ToolView { y_velocity_down_val: value, ..v })
                    &&& action == (if edited { UiAction::SaveConfig } else { UiAction::Nothing })
                },
                UiEvent::TimeControls { value, edited, locked, set_clicked } => {
                    &&& w.time_locked == locked
                    &&& (edited || locked || set_clicked) ==> w.time_val == value
                    &&& !(edited || locked || set_clicked) ==> w.time_val == v.time_val
                    &&& w == (ToolView { time_locked: w.time_locked, time_val: w.time_val, ..v })
                    &&& set_clicked ==> action == UiAction::WriteTime {
                        after_edit: if edited { Some(value) } else { None },
                        after_set: Some(value),
                    }
                    &&& edited && !set_clicked ==> action == UiAction::WriteTime {
                        after_edit: Some(value),
                        after_set: None,
                    }
                    &&& !edited && !set_clicked ==> action == UiAction::Nothing
                },
            }
        }),
{
}

/// Notifications, stated with their numbers: with notifications enabled a
/// new one is appended and, past three, the oldest are dropped so that
/// three remain; disabled, nothing changes.
pub proof fn lemma_notify_counts(v: ToolView, message: Seq<char>, now: u64)
    requires
        v.notifications.len() <= 3,
    ensures
        ({
            let w = v.notify(message, now);
            let n = v.notifications.len();
            &&& v.notifications_enabled ==> {
                &&& w.notifications.len() == if n < 3 { n + 1 } else { 3 }
                &&& w.notifications.last() == (NotificationView { message, created_at: now })
                &&& forall|i: int| 0 <= i < w.notifications.len() - 1 ==> #[trigger] w.notifications[i]
                    == v.notifications[n + 1 - w.notifications.len() + i]
                &&& w == (ToolView { notifications: w.notifications, ..v })
            }
            &&& !v.notifications_enabled ==> w == v
        }),
{
}

/// The outcome of a write: a silent write changes nothing; otherwise a
/// success notifies "Updated value to " followed by the value's text and a
/// failure notifies "Failed to write memory!".
pub proof fn lemma_write_messages(v: ToolView, success: bool, silent: bool, text: Seq<char>, now: u64)
    ensures
        silent ==> v.record_write(success, silent, text, now) == v,
        !silent && success ==> v.record_write(success, silent, text, now) == v.notify("Updated value to "@ + text, now),
        !silent && !success ==> v.record_write(success, silent, text, now) == v.notify("Failed to write memory!"@, now),
{
}

/// Expiry, stated on the clock: a notification is kept exactly when the
/// clock reads before its creation or less than three seconds
/// (3_000_000_000 ns) after it, and no more are kept than there were.
pub proof fn lemma_expiry_on_the_clock(ns: Seq<NotificationView>, now: u64)
    ensures
        forall|i: int| 0 <= i < fresh_only(ns, now).len() ==> ({
            let n = #[trigger] fresh_only(ns, now)[i];
            now < n.created_at || now - n.created_at < 3_000_000_000
        }),
        forall|i: int| 0 <= i < ns.len() && (now < ns[i].created_at || now - ns[i].created_at < 3_000_000_000)
            ==> fresh_only(ns, now).contains(#[trigger] ns[i]),
        fresh_only(ns, now).len() <= ns.len(),
{
    lemma_expiry_keeps_fresh(ns, now);
    ns.lemma_filter_len(|n: NotificationView| is_fresh(n, now));
}

/// Where each game value lives: height and vertical velocity under the
/// root pointer at `0x023D5308`, time under the one at `0x023C2D80`; no
/// other identifier names a value.
pub proof fn lemma_value_chain_table(id: u8)
    ensures
        id == 0 ==> spec_value_chain(id) == Some((0x023D5308usize, seq![0xB8usize, 0x18, 0x50, 0x20, 0x1C0])),
        id == 1 ==> spec_value_chain(id) == Some((0x023D5308usize, seq![0xB8usize, 0x18, 0x50, 0x20, 0xC8])),
        id == 2 ==> spec_value_chain(id) == Some(
            (0x023C2D80usize, seq![0xB8usize, 0x28, 0x120, 0x10, 0x28, 0x220, 0x8BC]),
        ),
        id > 2 ==> spec_value_chain(id) is None,
{
}

/// The saved settings are the state's own keys, values and notification
/// switch, each in its place; a state loaded from settings holds them in
/// the same places, with no key awaited, the overlay hidden, time unlocked,
/// the game values zero, no module base known, and the one notification
/// that the overlay was injected.
pub proof fn lemma_config_fields(v: ToolView, config: Config, now: u64)
    ensures
        v.config().key_y_velocity_up == v.key_y_velocity_up,
        v.config().key_y_velocity_down == v.key_y_velocity_down,
        v.config().y_velocity_up_bits == v.y_velocity_up_val,
        v.config().y_velocity_down_bits == v.y_velocity_down_val,
        v.config().notifications_enabled == v.notifications_enabled,
        initial_view(config, now).key_y_velocity_up == config.key_y_velocity_up,
        initial_view(config, now).key_y_velocity_down == config.key_y_velocity_down,
        initial_view(config, now).y_velocity_up_val == config.y_velocity_up_bits,
        initial_view(config, now).y_velocity_down_val == config.y_velocity_down_bits,
        initial_view(config, now).notifications_enabled == config.notifications_enabled,
        !initial_view(config, now).show_gui && !initial_view(config, now).time_locked,
        !initial_view(config, now).waiting_for_key_up && !initial_view(config, now).waiting_for_key_down,
        initial_view(config, now).notifications.len() == 1,
        initial_view(config, now).notifications[0]
            == (NotificationView { message: "Tool injected successfully!"@, created_at: now }),
        initial_view(config, now).last_toggle_time == now,
        initial_view(config, now).height_val == 0 && initial_view(config, now).y_velocity_val == 0
            && initial_view(config, now).time_val == 0,
        !initial_view(config, now).was_up_pressed && !initial_view(config, now).was_down_pressed,
        initial_view(config, now).unity_player_base is None && initial_view(config, now).game_assembly_base is None,
{
}

/// Taking found module bases fills in only the unknown ones.
pub proof fn lemma_with_bases(v: ToolView, unity_player: Option<usize>, game_assembly: Option<usize>)
    ensures
        ({
            let w = v.with_bases(unity_player, game_assembly);
            &&& v.unity_player_base is Some ==> w.unity_player_base == v.unity_player_base
            &&& v.unity_player_base is None ==> w.unity_player_base == unity_player
            &&& v.game_assembly_base is Some ==> w.game_assembly_base == v.game_assembly_base
            &&& v.game_assembly_base is None ==> w.game_assembly_base == game_assembly
            &&& w == (ToolView { unity_player_base: w.unity_player_base, game_assembly_base: w.game_assembly_base, ..v })
        }),
{
}

} // verus!
