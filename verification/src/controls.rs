use vstd::prelude::*;

verus! {

/// Fewest Jacobi iterations of the pressure solve the controls allow.
pub const MIN_PRESSURE_ITERS: u32 = 8;

/// Most Jacobi iterations of the pressure solve the controls allow.
pub const MAX_PRESSURE_ITERS: u32 = 160;

/// Change of the pressure iteration count per key press.
pub const PRESSURE_ITERS_STEP: u32 = 8;

/// A keyboard key as the controls see it: the named keys they use, a key
/// that produces characters, or anything else.
#[derive(Debug)]
pub enum KeyInput {
    Space,
    ArrowUp,
    ArrowDown,
    Escape,
    /// A key producing the characters held.
    Character(Vec<char>),
    Other,
}

/// What a key press asks of the application.
#[derive(Clone, Copy, Debug, PartialEq, Eq, Structural)]
pub enum Control {
    TogglePause,
    SpeedUp,
    SpeedDown,
    ViscosityDown,
    ViscosityUp,
    FewerPressureIterations,
    MorePressureIterations,
    Reset,
    Quit,
}

/// The characters are exactly one letter, in either case.
pub open spec fn is_letter(chars: Seq<char>, lower: char, upper: char) -> bool {
    chars.len() == 1 && (chars[0] == lower || chars[0] == upper)
}

/// The control bound to a key event: only presses count; space pauses,
/// up/down change the time speed, V/B the viscosity, `[`/`]` the pressure
/// iterations, R resets, Escape quits. Letters match in either case.
pub open spec fn control_for(pressed: bool, key: KeyInput) -> Option<Control> {
    if !pressed {
        None
    } else {
        match key {
            KeyInput::Space => Some(Control::TogglePause),
            KeyInput::ArrowUp => Some(Control::SpeedUp),
            KeyInput::ArrowDown => Some(Control::SpeedDown),
            KeyInput::Escape => Some(Control::Quit),
            KeyInput::Character(c) => {
                if is_letter(c@, 'v', 'V') {
                    Some(Control::ViscosityDown)
                } else if is_letter(c@, 'b', 'B') {
                    Some(Control::ViscosityUp)
                } else if c@ == seq!['['] {
                    Some(Control::FewerPressureIterations)
                } else if c@ == seq![']'] {
                    Some(Control::MorePressureIterations)
                } else if is_letter(c@, 'r', 'R') {
                    Some(Control::Reset)
                } else {
                    None
                }
            },
            KeyInput::Other => None,
        }
    }
}

fn chars_are_letter(chars: &Vec<char>, lower: char, upper: char) -> (r: bool)
    ensures
        r == is_letter(chars@, lower, upper),
{
    chars.len() == 1 && (chars[0] == lower || chars[0] == upper)
}

fn chars_are(chars: &Vec<char>, ch: char) -> (r: bool)
    ensures
        r == (chars@ == seq![ch]),
{
    let r = chars.len() == 1 && chars[0] == ch;
    proof {
        if r {
            assert(chars@ =~= seq![ch]);
        }
    }
    r
}

/// The control bound to a key event, if any.
pub fn control_for_key(pressed: bool, key: &KeyInput) -> (r: Option<Control>)
    ensures
        r == control_for(pressed, *key),
{
    if !pressed {
        return None;
    }
    match key {
        KeyInput::Space => Some(Control::TogglePause),
        KeyInput::ArrowUp => Some(Control::SpeedUp),
        KeyInput::ArrowDown => Some(Control::SpeedDown),
        KeyInput::Escape => Some(Control::Quit),
        KeyInput::Character(c) => {
            if chars_are_letter(c, 'v', 'V') {
                Some(Control::ViscosityDown)
            } else if chars_are_letter(c, 'b', 'B') {
                Some(Control::ViscosityUp)
            } else if chars_are(c, '[') {
                Some(Control::FewerPressureIterations)
            } else if chars_are(c, ']') {
                Some(Control::MorePressureIterations)
            } else if chars_are_letter(c, 'r', 'R') {
                Some(Control::Reset)
            } else {
                None
            }
        },
        KeyInput::Other => None,
    }
}

/// A change of a setting that lives outside the controls (the time speed and
/// the viscosity).
#[derive(Clone, Copy, Debug, PartialEq, Eq, Structural)]
pub enum Adjust {
    Keep,
    Lower,
    Raise,
}

/// What the application does besides the change of `Controls`, in response
/// to a key.
#[derive(Clone, Copy, Debug, PartialEq, Eq, Structural)]
pub struct Response {
    /// Restart the frame clock, so the next frame's time step starts now.
    pub restart_clock: bool,
    /// Show the changed settings in the window title.
    pub update_title: bool,
    /// Drop the splats that wait for the next step.
    pub clear_pending_splats: bool,
    /// Leave the event loop.
    pub exit: bool,
    pub speed: Adjust,
    pub viscosity: Adjust,
}

/// The settings the keyboard controls directly.
#[derive(Clone, Copy, Debug, PartialEq, Eq, Structural)]
pub struct Controls {
    pub paused: bool,
    /// Jacobi iterations of the pressure solve.
    pub pressure_iters: u32,
    /// The fields are to be cleared (and the start-up jets queued) at the
    /// next frame.
    pub reset_requested: bool,
}

/// A response that changes nothing outside the controls.
pub open spec fn quiet() -> Response {
    Response {
        restart_clock: false,
        update_title: false,
        clear_pending_splats: false,
        exit: false,
        speed: Adjust::Keep,
        viscosity: Adjust::Keep,
    }
}

/// The iteration count after `[`: eight fewer, but no fewer than eight.
pub open spec fn fewer_iters(p: u32) -> u32 {
    if p >= PRESSURE_ITERS_STEP + MIN_PRESSURE_ITERS {
        (p - PRESSURE_ITERS_STEP) as u32
    } else {
        MIN_PRESSURE_ITERS
    }
}

/// The iteration count after `]`: eight more, but no more than 160.
pub open spec fn more_iters(p: u32) -> u32 {
    if p + PRESSURE_ITERS_STEP <= MAX_PRESSURE_ITERS {
        (p + PRESSURE_ITERS_STEP) as u32
    } else {
        MAX_PRESSURE_ITERS
    }
}

/// The controls and the response after `control`.
pub open spec fn apply_spec(c: Controls, control: Control) -> (Controls, Response) {
    match control {
        Control::TogglePause => (
            Controls { paused: !c.paused, ..c },
            Response { restart_clock: true, update_title: true, ..quiet() },
        ),
        Control::SpeedUp => (c, Response { update_title: true, speed: Adjust::Raise, ..quiet() }),
        Control::SpeedDown => (c, Response { update_title: true, speed: Adjust::Lower, ..quiet() }),
        Control::ViscosityDown => (
            c,
            Response { update_title: true, viscosity: Adjust::Lower, ..quiet() },
        ),
        Control::ViscosityUp => (
            c,
            Response { update_title: true, viscosity: Adjust::Raise, ..quiet() },
        ),
        Control::FewerPressureIterations => (
            Controls { pressure_iters: fewer_iters(c.pressure_iters), ..c },
            Response { update_title: true, ..quiet() },
        ),
        Control::MorePressureIterations => (
            Controls { pressure_iters: more_iters(c.pressure_iters), ..c },
            Response { update_title: true, ..quiet() },
        ),
        Control::Reset => (
            Controls { reset_requested: true, ..c },
            Response { restart_clock: true, clear_pending_splats: true, ..quiet() },
        ),
        Control::Quit => (c, Response { exit: true, ..quiet() }),
    }
}

/// The controls and the response after a key event: an event without a
/// control changes nothing and asks nothing.
pub open spec fn handle_key_spec(c: Controls, pressed: bool, key: KeyInput) -> (Controls, Response) {
    match control_for(pressed, key) {
        Some(control) => apply_spec(c, control),
        None => (c, quiet()),
    }
}

impl Controls {
    /// The start-up settings: running, 44 pressure iterations, and a reset
    /// pending so that the first frame starts from the start-up jets.
    pub fn new() -> (c: Self)
        ensures
            c == (Controls { paused: false, pressure_iters: 44, reset_requested: true }),
    {
        Controls { paused: false, pressure_iters: 44, reset_requested: true }
    }

    /// Applies `control`.
    pub fn apply(&mut self, control: Control) -> (r: Response)
        requires
            control == Control::MorePressureIterations ==> old(self).pressure_iters
                + PRESSURE_ITERS_STEP <= u32::MAX,
        ensures
            (*final(self), r) == apply_spec(*old(self), control),
    {
        let quiet = Response {
            restart_clock: false,
            update_title: false,
            clear_pending_splats: false,
            exit: false,
            speed: Adjust::Keep,
            viscosity: Adjust::Keep,
        };
        match control {
            Control::TogglePause => {
                self.paused = !self.paused;
                Response { restart_clock: true, update_title: true, ..quiet }
            },
            Control::SpeedUp => Response { update_title: true, speed: Adjust::Raise, ..quiet },
            Control::SpeedDown => Response { update_title: true, speed: Adjust::Lower, ..quiet },
            Control::ViscosityDown => Response {
                update_title: true,
                viscosity: Adjust::Lower,
                ..quiet
            },
            Control::ViscosityUp => Response {
                update_title: true,
                viscosity: Adjust::Raise,
                ..quiet
            },
            Control::FewerPressureIterations => {
                let fewer = self.pressure_iters.saturating_sub(PRESSURE_ITERS_STEP);
                self.pressure_iters = if fewer > MIN_PRESSURE_ITERS {
                    fewer
                } else {
                    MIN_PRESSURE_ITERS
                };
                Response { update_title: true, ..quiet }
            },
            Control::MorePressureIterations => {
                let more = self.pressure_iters + PRESSURE_ITERS_STEP;
                self.pressure_iters = if more < MAX_PRESSURE_ITERS {
                    more
                } else {
                    MAX_PRESSURE_ITERS
                };
                Response { update_title: true, ..quiet }
            },
            Control::Reset => {
                self.reset_requested = true;
                Response { restart_clock: true, clear_pending_splats: true, ..quiet }
            },
            Control::Quit => Response { exit: true, ..quiet },
        }
    }

    /// Handles a key event: looks up its control and applies it.
    pub fn handle_key(&mut self, pressed: bool, key: &KeyInput) -> (r: Response)
        requires
            control_for(pressed, *key) == Some(Control::MorePressureIterations) ==> old(
                self,
            ).pressure_iters + PRESSURE_ITERS_STEP <= u32::MAX,
        ensures
            (*final(self), r) == handle_key_spec(*old(self), pressed, *key),
    {
        match control_for_key(pressed, key) {
            Some(control) => self.apply(control),
            None => Response {
                restart_clock: false,
                update_title: false,
                clear_pending_splats: false,
                exit: false,
                speed: Adjust::Keep,
                viscosity: Adjust::Keep,
            },
        }
    }
}

/// Releasing a key, or pressing one without a control, changes nothing and
/// asks nothing of the application.
pub proof fn lemma_unbound_key_changes_nothing(c: Controls, pressed: bool, key: KeyInput)
    requires
        control_for(pressed, key).is_none(),
    ensures
        handle_key_spec(c, pressed, key) == (c, quiet()),
{
}

/// Pausing twice leaves the controls as they were.
pub proof fn lemma_pause_twice_restores(c: Controls)
    ensures
        apply_spec(apply_spec(c, Control::TogglePause).0, Control::TogglePause).0 == c,
{
}

/// Once the pressure iteration count lies in `[8, 160]`, no control takes it
/// out of that range.
pub proof fn lemma_pressure_iters_stay_in_range(c: Controls, control: Control)
    requires
        MIN_PRESSURE_ITERS <= c.pressure_iters <= MAX_PRESSURE_ITERS,
    ensures
        MIN_PRESSURE_ITERS <= apply_spec(c, control).0.pressure_iters <= MAX_PRESSURE_ITERS,
{
}

/// `]` undoes `[` away from the lower bound, and `[` undoes `]` away from
/// the upper bound.
pub proof fn lemma_iteration_keys_undo_each_other(p: u32)
    ensures
        MIN_PRESSURE_ITERS + PRESSURE_ITERS_STEP <= p <= MAX_PRESSURE_ITERS ==> more_iters(
            fewer_iters(p),
        ) == p,
        MIN_PRESSURE_ITERS <= p <= MAX_PRESSURE_ITERS - PRESSURE_ITERS_STEP ==> fewer_iters(
            more_iters(p),
        ) == p,
{
}

/// Each setting changes only under its own keys: the viscosity only for V
/// (lower) and B (raise), the time speed only for the down (lower) and up
/// (raise) arrows, the pause flag only for space, the reset request only for
/// R (which raises it), the pressure iteration count only for `[` and `]`.
/// Only Escape exits, only space and R restart the clock, only R drops the
/// waiting splats, and every control but R and Escape updates the title.
pub proof fn lemma_controls_touch_only_their_setting(c: Controls, control: Control)
    ensures
        ({
            let (c2, r) = apply_spec(c, control);
            &&& (r.viscosity == Adjust::Lower) <==> (control == Control::ViscosityDown)
            &&& (r.viscosity == Adjust::Raise) <==> (control == Control::ViscosityUp)
            &&& (r.speed == Adjust::Lower) <==> (control == Control::SpeedDown)
            &&& (r.speed == Adjust::Raise) <==> (control == Control::SpeedUp)
            &&& (c2.paused != c.paused) <==> (control == Control::TogglePause)
            &&& c2.reset_requested == (c.reset_requested || control == Control::Reset)
            &&& (control != Control::FewerPressureIterations && control
                != Control::MorePressureIterations) ==> c2.pressure_iters == c.pressure_iters
            &&& r.exit <==> (control == Control::Quit)
            &&& r.restart_clock <==> (control == Control::TogglePause || control == Control::Reset)
            &&& r.clear_pending_splats <==> (control == Control::Reset)
            &&& r.update_title <==> !(control == Control::Reset || control == Control::Quit)
        }),
{
}

/// `[` never raises the pressure iteration count and `]` never lowers it
/// (within the allowed range), each moves it by at most eight, and they
/// never leave the range from the side they move towards.
pub proof fn lemma_iteration_keys_move_by_at_most_a_step(p: u32)
    ensures
        MIN_PRESSURE_ITERS <= p ==> fewer_iters(p) <= p && p - fewer_iters(p)
            <= PRESSURE_ITERS_STEP,
        p <= MAX_PRESSURE_ITERS ==> more_iters(p) >= p && more_iters(p) - p
            <= PRESSURE_ITERS_STEP,
        fewer_iters(p) >= MIN_PRESSURE_ITERS,
        more_iters(p) <= MAX_PRESSURE_ITERS,
        MIN_PRESSURE_ITERS + PRESSURE_ITERS_STEP <= p ==> fewer_iters(p) < p,
        p + PRESSURE_ITERS_STEP <= MAX_PRESSURE_ITERS ==> more_iters(p) > p,
{
}

/// The key produces exactly one character, `a` or `b`.
pub open spec fn single_char_key(key: KeyInput, a: char, b: char) -> bool {
    match key {
        KeyInput::Character(cs) => cs@.len() == 1 && (cs@[0] == a || cs@[0] == b),
        _ => false,
    }
}

/// The key events bound to each control: only presses count; space pauses,
/// the up and down arrows change the time speed, the single letters V/v and
/// B/b lower and raise the viscosity, the single characters `[` and `]`
/// lower and raise the pressure iterations, R/r resets and Escape quits.
pub proof fn lemma_keys_of_each_control(pressed: bool, key: KeyInput)
    ensures
        control_for(pressed, key) is Some ==> pressed,
        (control_for(pressed, key) == Some(Control::TogglePause)) <==> (pressed
            && key is Space),
        (control_for(pressed, key) == Some(Control::SpeedUp)) <==> (pressed && key is ArrowUp),
        (control_for(pressed, key) == Some(Control::SpeedDown)) <==> (pressed
            && key is ArrowDown),
        (control_for(pressed, key) == Some(Control::Quit)) <==> (pressed && key is Escape),
        (control_for(pressed, key) == Some(Control::ViscosityDown)) <==> (pressed && single_char_key(key, 'v', 'V')),
        (control_for(pressed, key) == Some(Control::ViscosityUp)) <==> (pressed && single_char_key(key, 'b', 'B')),
        (control_for(pressed, key) == Some(Control::FewerPressureIterations)) <==> (pressed && single_char_key(key, '[', '[')),
        (control_for(pressed, key) == Some(Control::MorePressureIterations)) <==> (pressed && single_char_key(key, ']', ']')),
        (control_for(pressed, key) == Some(Control::Reset)) <==> (pressed && single_char_key(key, 'r', 'R')),
{
    match key {
        KeyInput::Character(cs) => {
            if cs@.len() == 1 {
                assert(cs@ == seq!['['] <==> cs@[0] == '[') by {
                    if cs@[0] == '[' {
                        assert(cs@ =~= seq!['[']);
                    }
                }
                assert(cs@ == seq![']'] <==> cs@[0] == ']') by {
                    if cs@[0] == ']' {
                        assert(cs@ =~= seq![']']);
                    }
                }
            }
        },
        _ => {},
    }
}

} // verus!
