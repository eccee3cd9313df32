//! The mouse overlay.
//!
//! Some keys (`Space`, `F1`) are taken over as global shortcuts. With the
//! overlay on (`Shift+L` switches it), a press of such a key runs a mouse
//! action. With the overlay off, the press is handed back to the focused
//! program: the shortcut is released, the key is simulated, and the shortcut
//! is taken again. While that happens the overlay lets every press through.
use vstd::prelude::*;
use crate::debounce::{Debouncer, SHORTCUT_DEBOUNCE_MS};
use crate::keys::KeyName;

verus! {

/// A mouse action run while the overlay is on.
#[derive(PartialEq, Eq, Structural, Debug, Clone, Copy)]
pub enum MouseAction {
    /// Move the pointer to the absolute position (x, y).
    MoveTo(i32, i32),
    /// Click the left button.
    Click,
    /// Click the left button twice, 50 ms apart.
    DoubleClick,
    /// Move the pointer to (x, y), then click.
    MoveToClick(i32, i32),
    /// Click at a quarter or at three quarters of the screen width, at half
    /// its height, alternating between the two from one press to the next.
    ToggleLeftRightCenter,
}

/// What is simulated to hand a press back while the overlay is off.
#[derive(PartialEq, Eq, Debug, Clone, Copy)]
pub enum RestoreAction {
    /// Type this text.
    TypeText(&'static str),
    /// Press and release this key.
    SimulateKey(KeyName),
}

/// One step of carrying out a mouse action.
#[derive(PartialEq, Eq, Structural, Debug, Clone, Copy)]
pub enum MouseStep {
    /// Move the pointer to the absolute position (x, y).
    MoveTo(i32, i32),
    /// Click the left button.
    Click,
    /// Wait this many milliseconds.
    Pause(u64),
}

/// Milliseconds between the two clicks of a double click.
pub const DOUBLE_CLICK_GAP_MS: u64 = 50;

/// Division rounded toward zero, as integer division in Rust rounds.
pub open spec fn trunc_div(x: int, d: int) -> int {
    if x >= 0 {
        x / d
    } else {
        -((-x) / d)
    }
}

fn div_toward_zero(x: i32, d: i32) -> (r: i32)
    requires
        d > 0,
    ensures
        r == trunc_div(x as int, d as int),
{
    match x.checked_div(d) {
        Some(q) => q,
        None => 0,
    }
}

/// The state of the overlay.
#[derive(PartialEq, Eq, Structural, Debug, Clone, Copy)]
pub struct OverlayState {
    /// Whether presses run mouse actions.
    pub active: bool,
    /// Whether the next alternating click goes to the left.
    pub mouse_on_left: bool,
    /// Whether a press is being handed back right now.
    pub restoring: bool,
    pub screen_width: i32,
    pub screen_height: i32,
}

/// What a press of an overlay key does.
#[derive(PartialEq, Eq, Debug, Clone)]
pub enum OverlayOutcome {
    /// A press is being handed back: let this one through untouched.
    PassThrough,
    /// Held back by the debouncer.
    Held,
    /// Carry out these mouse steps, then commit the action.
    Mouse(Vec<MouseStep>),
    /// Hand the press back to the focused program.
    Restore,
}

impl OverlayState {
    /// Whether `action` can be planned without overflow in this state.
    pub open spec fn fits(self, action: MouseAction) -> bool {
        action is ToggleLeftRightCenter && !self.mouse_on_left ==> i32::MIN <= 3
            * self.screen_width <= i32::MAX
    }

    /// Where the alternating click goes in this state.
    pub open spec fn alternating_target(self) -> (i32, i32) {
        let x = if self.mouse_on_left {
            trunc_div(self.screen_width as int, 4)
        } else {
            trunc_div(3 * self.screen_width, 4)
        };
        (x as i32, trunc_div(self.screen_height as int, 2) as i32)
    }

    /// The steps that carry out `action` in this state.
    pub open spec fn plan_of(self, action: MouseAction) -> Seq<MouseStep> {
        match action {
            MouseAction::MoveTo(x, y) => seq![MouseStep::MoveTo(x, y)],
            MouseAction::Click => seq![MouseStep::Click],
            MouseAction::DoubleClick => seq![
                MouseStep::Click,
                MouseStep::Pause(DOUBLE_CLICK_GAP_MS),
                MouseStep::Click,
            ],
            MouseAction::MoveToClick(x, y) => seq![MouseStep::MoveTo(x, y), MouseStep::Click],
            MouseAction::ToggleLeftRightCenter => {
                let (x, y) = self.alternating_target();
                seq![MouseStep::MoveTo(x, y), MouseStep::Click]
            },
        }
    }

    /// The state after `action` has been carried out: only the alternating
    /// click moves the side of the next click.
    pub open spec fn after_action(self, action: MouseAction) -> OverlayState {
        if action is ToggleLeftRightCenter {
            OverlayState { mouse_on_left: !self.mouse_on_left, ..self }
        } else {
            self
        }
    }

    pub open spec fn with_active_toggled(self) -> OverlayState {
        OverlayState { active: !self.active, ..self }
    }

    /// The state at start-up: overlay off, next alternating click on the
    /// left, a 1920 x 1080 screen until the real size is known.
    pub fn new() -> (s: OverlayState)
        ensures
            !s.active,
            s.mouse_on_left,
            !s.restoring,
            s.screen_width == 1920,
            s.screen_height == 1080,
    {
        OverlayState {
            active: false,
            mouse_on_left: true,
            restoring: false,
            screen_width: 1920,
            screen_height: 1080,
        }
    }

    /// Takes the detected screen size, or keeps 1920 x 1080 when none was
    /// detected; returns the size in use.
    pub fn set_screen_size(&mut self, detected: Option<(i32, i32)>) -> (size: (i32, i32))
        ensures
            size == (match detected {
                Some(s) => s,
                None => (1920i32, 1080i32),
            }),
            *final(self) == (OverlayState {
                screen_width: size.0,
                screen_height: size.1,
                ..*old(self)
            }),
    {
        let size = match detected {
            Some(s) => s,
            None => (1920i32, 1080i32),
        };
        self.screen_width = size.0;
        self.screen_height = size.1;
        size
    }

    /// The steps that carry out `action`. Nothing changes until the action
    /// is committed with `commit_action`.
    pub fn plan_mouse_action(&self, action: &MouseAction) -> (plan: Vec<MouseStep>)
        requires
            self.fits(*action),
        ensures
            plan@ == self.plan_of(*action),
    {
        match action {
            MouseAction::MoveTo(x, y) => vec![MouseStep::MoveTo(*x, *y)],
            MouseAction::Click => vec![MouseStep::Click],
            MouseAction::DoubleClick => vec![
                MouseStep::Click,
                MouseStep::Pause(DOUBLE_CLICK_GAP_MS),
                MouseStep::Click,
            ],
            MouseAction::MoveToClick(x, y) => vec![MouseStep::MoveTo(*x, *y), MouseStep::Click],
            MouseAction::ToggleLeftRightCenter => {
                let x = if self.mouse_on_left {
                    div_toward_zero(self.screen_width, 4)
                } else {
                    div_toward_zero(self.screen_width * 3, 4)
                };
                let y = div_toward_zero(self.screen_height, 2);
                vec![MouseStep::MoveTo(x, y), MouseStep::Click]
            },
        }
    }

    /// Records that `action` was carried out: an alternating click moves the
    /// next click to the other side.
    pub fn commit_action(&mut self, action: &MouseAction)
        ensures
            *final(self) == old(self).after_action(*action),
    {
        if let MouseAction::ToggleLeftRightCenter = action {
            self.mouse_on_left = !self.mouse_on_left;
        }
    }

    /// A press of an overlay key that runs `action` while the overlay is on.
    /// The state does not change; a planned action is committed by the
    /// caller once it has been carried out.
    pub fn key_press(&self, debouncer: &mut Debouncer, action: &MouseAction, now: u64) -> (r:
        OverlayOutcome)
        requires
            !self.restoring && old(debouncer).accepts(now) && self.active ==> self.fits(*action),
        ensures
            self.restoring ==> r == OverlayOutcome::PassThrough && *final(debouncer) == *old(
                debouncer,
            ),
            !self.restoring ==> *final(debouncer) == old(debouncer).after(now),
            !self.restoring && !old(debouncer).accepts(now) ==> r == OverlayOutcome::Held,
            !self.restoring && old(debouncer).accepts(now) && self.active ==> (r matches OverlayOutcome::Mouse(
                steps,
            ) && steps@ == self.plan_of(*action)),
            !self.restoring && old(debouncer).accepts(now) && !self.active ==> r
                == OverlayOutcome::Restore,
    {
        if self.restoring {
            return OverlayOutcome::PassThrough;
        }
        if !debouncer.trigger(now) {
            return OverlayOutcome::Held;
        }
        if self.active {
            OverlayOutcome::Mouse(self.plan_mouse_action(action))
        } else {
            OverlayOutcome::Restore
        }
    }

    /// Marks the start of handing a press back.
    pub fn begin_restore(&mut self)
        ensures
            *final(self) == (OverlayState { restoring: true, ..*old(self) }),
    {
        self.restoring = true;
    }

    /// Marks the end of handing a press back.
    pub fn end_restore(&mut self)
        ensures
            *final(self) == (OverlayState { restoring: false, ..*old(self) }),
    {
        self.restoring = false;
    }

    /// A press of `Shift+L`: when not held back, switches the overlay and
    /// returns whether it is now on.
    pub fn press_toggle_active(&mut self, debouncer: &mut Debouncer, now: u64) -> (r: Option<bool>)
        ensures
            *final(debouncer) == old(debouncer).after(now),
            old(debouncer).accepts(now) ==> *final(self) == old(self).with_active_toggled() && r
                == Some(final(self).active),
            !old(debouncer).accepts(now) ==> *final(self) == *old(self) && r is None,
    {
        if debouncer.trigger(now) {
            self.active = !self.active;
            Some(self.active)
        } else {
            None
        }
    }
}

/// One step of handing a press back to the focused program.
#[derive(PartialEq, Eq, Debug, Clone, Copy)]
pub enum RestoreStep {
    /// Release the global shortcut.
    Unregister,
    /// Wait this many milliseconds.
    Pause(u64),
    /// Set the hand-back flag (`OverlayState::begin_restore`).
    BeginRestore,
    /// Simulate the original key or text.
    Simulate(RestoreAction),
    /// Clear the hand-back flag (`OverlayState::end_restore`).
    EndRestore,
    /// Take the global shortcut again.
    Reregister,
}

/// The hand-back protocol: release the shortcut, let the release take effect,
/// set the flag, simulate the key, let the program take it, clear the flag,
/// take the shortcut again.
pub fn restore_steps(restore: RestoreAction) -> (s: Vec<RestoreStep>)
    ensures
        s@ == seq![
            RestoreStep::Unregister,
            RestoreStep::Pause(10),
            RestoreStep::BeginRestore,
            RestoreStep::Simulate(restore),
            RestoreStep::Pause(50),
            RestoreStep::EndRestore,
            RestoreStep::Reregister,
        ],
{
    vec![
        RestoreStep::Unregister,
        RestoreStep::Pause(10),
        RestoreStep::BeginRestore,
        RestoreStep::Simulate(restore),
        RestoreStep::Pause(50),
        RestoreStep::EndRestore,
        RestoreStep::Reregister,
    ]
}

/// The overlay state after a step of the hand-back protocol.
pub open spec fn after_restore_step(s: OverlayState, step: RestoreStep) -> OverlayState {
    match step {
        RestoreStep::BeginRestore => OverlayState { restoring: true, ..s },
        RestoreStep::EndRestore => OverlayState { restoring: false, ..s },
        _ => s,
    }
}

/// The overlay state after the first `k` steps of `steps`.
pub open spec fn replay_restore(s: OverlayState, steps: Seq<RestoreStep>, k: int) -> OverlayState
    decreases k,
{
    if k <= 0 {
        s
    } else {
        after_restore_step(replay_restore(s, steps, k - 1), steps[k - 1])
    }
}

/// Replaying the hand-back protocol on the overlay state: the key is simulated
/// only while the hand-back flag is set, the shortcut is released and taken
/// again only while it is clear, and at the end the flag is clear and the rest
/// of the state is as before.
pub proof fn law_restore_protocol(s: OverlayState, restore: RestoreAction)
    requires
        !s.restoring,
    ensures
        ({
            let steps = seq![
                RestoreStep::Unregister,
                RestoreStep::Pause(10),
                RestoreStep::BeginRestore,
                RestoreStep::Simulate(restore),
                RestoreStep::Pause(50),
                RestoreStep::EndRestore,
                RestoreStep::Reregister,
            ];
            &&& forall|k: int|
                0 <= k < steps.len() && steps[k] is Simulate ==> #[trigger] replay_restore(
                    s,
                    steps,
                    k,
                ).restoring
            &&& forall|k: int|
                0 <= k < steps.len() && (steps[k] is Unregister || steps[k] is Reregister)
                    ==> !#[trigger] replay_restore(s, steps, k).restoring
            &&& replay_restore(s, steps, 7) == s
        }),
{
    let steps = seq![
        RestoreStep::Unregister,
        RestoreStep::Pause(10),
        RestoreStep::BeginRestore,
        RestoreStep::Simulate(restore),
        RestoreStep::Pause(50),
        RestoreStep::EndRestore,
        RestoreStep::Reregister,
    ];
    let r0 = replay_restore(s, steps, 0);
    let r1 = replay_restore(s, steps, 1);
    let r2 = replay_restore(s, steps, 2);
    let r3 = replay_restore(s, steps, 3);
    let r4 = replay_restore(s, steps, 4);
    let r5 = replay_restore(s, steps, 5);
    let r6 = replay_restore(s, steps, 6);
    let r7 = replay_restore(s, steps, 7);
    assert(r0 == s);
    assert(r1 == s);
    assert(r2 == s);
    assert(r3 == OverlayState { restoring: true, ..s });
    assert(r4 == r3);
    assert(r5 == r3);
    assert(r6 == s);
    assert(r7 == s);
    assert forall|k: int|
        0 <= k < steps.len() && steps[k] is Simulate implies #[trigger] replay_restore(
            s,
            steps,
            k,
        ).restoring by {
        assert(k == 3);
    }
    assert forall|k: int|
        0 <= k < steps.len() && (steps[k] is Unregister || steps[k] is Reregister) implies !#[trigger] replay_restore(
            s,
            steps,
            k,
        ).restoring by {
        assert(k == 0 || k == 6);
    }
}

/// An overlay key, its mouse action, what hands its press back, and its
/// hold-back interval.
pub struct OverlayBinding {
    pub shortcut: &'static str,
    pub action: MouseAction,
    pub restore: RestoreAction,
    pub interval_ms: u64,
}

/// The overlay keys for a screen of the given size: `Space` clicks the
/// centre, `F1` alternates between left and right; both hold back presses
/// within 300 ms.
pub fn overlay_bindings(screen_width: i32, screen_height: i32) -> (b: Vec<OverlayBinding>)
    ensures
        b@.len() == 2,
        b@[0].shortcut@ == "Space"@,
        b@[0].action == MouseAction::MoveToClick(
            trunc_div(screen_width as int, 2) as i32,
            trunc_div(screen_height as int, 2) as i32,
        ),
        b@[0].restore == RestoreAction::SimulateKey(KeyName::Space),
        b@[0].interval_ms == 300,
        b@[1].shortcut@ == "F1"@,
        b@[1].action == MouseAction::ToggleLeftRightCenter,
        b@[1].restore == RestoreAction::SimulateKey(KeyName::F1),
        b@[1].interval_ms == 300,
{
    let cx = div_toward_zero(screen_width, 2);
    let cy = div_toward_zero(screen_height, 2);
    let mut b: Vec<OverlayBinding> = Vec::new();
    b.push(
        OverlayBinding {
            shortcut: "Space",
            action: MouseAction::MoveToClick(cx, cy),
            restore: RestoreAction::SimulateKey(KeyName::Space),
            interval_ms: SHORTCUT_DEBOUNCE_MS,
        },
    );
    b.push(
        OverlayBinding {
            shortcut: "F1",
            action: MouseAction::ToggleLeftRightCenter,
            restore: RestoreAction::SimulateKey(KeyName::F1),
            interval_ms: SHORTCUT_DEBOUNCE_MS,
        },
    );
    b
}

/// Two alternating clicks in a row, each committed, go once to the left
/// quarter and once to the right quarter of the screen, at half its height,
/// and leave the side of the next click as it was.
pub proof fn law_alternating_clicks(s: OverlayState)
    requires
        i32::MIN <= 3 * s.screen_width <= i32::MAX,
    ensures
        ({
            let t = MouseAction::ToggleLeftRightCenter;
            let s1 = s.after_action(t);
            let left = trunc_div(s.screen_width as int, 4) as i32;
            let right = trunc_div(3 * s.screen_width, 4) as i32;
            let mid = trunc_div(s.screen_height as int, 2) as i32;
            &&& s.fits(t) && s1.fits(t)
            &&& s.mouse_on_left ==> s.plan_of(t) == seq![MouseStep::MoveTo(left, mid), MouseStep::Click]
                && s1.plan_of(t) == seq![MouseStep::MoveTo(right, mid), MouseStep::Click]
            &&& !s.mouse_on_left ==> s.plan_of(t) == seq![MouseStep::MoveTo(right, mid), MouseStep::Click]
                && s1.plan_of(t) == seq![MouseStep::MoveTo(left, mid), MouseStep::Click]
            &&& s1.after_action(t) == s
        }),
{
}

/// Switching the overlay twice restores its state; switching it leaves a
/// hand-back in progress alone.
pub proof fn law_overlay_toggle_is_involution(s: OverlayState)
    ensures
        s.with_active_toggled().with_active_toggled() == s,
        s.with_active_toggled().restoring == s.restoring,
{
}

/// Every mouse action but the alternating click has one fixed plan, whatever
/// the overlay's state: a move goes to its point, a click clicks where the
/// pointer is, a double click clicks twice 50 ms apart, and a move-and-click
/// moves first and clicks there. The alternating click goes to a quarter of
/// the width on the left side and to three quarters on the right side, at half
/// the height, and clicks there.
pub proof fn law_mouse_plans(s: OverlayState, x: i32, y: i32)
    ensures
        s.plan_of(MouseAction::MoveTo(x, y)) == seq![MouseStep::MoveTo(x, y)],
        s.plan_of(MouseAction::Click) == seq![MouseStep::Click],
        s.plan_of(MouseAction::DoubleClick) == seq![
            MouseStep::Click,
            MouseStep::Pause(50),
            MouseStep::Click,
        ],
        s.plan_of(MouseAction::MoveToClick(x, y)) == seq![MouseStep::MoveTo(x, y), MouseStep::Click],
        s.mouse_on_left ==> s.plan_of(MouseAction::ToggleLeftRightCenter) == seq![
            MouseStep::MoveTo(
                trunc_div(s.screen_width as int, 4) as i32,
                trunc_div(s.screen_height as int, 2) as i32,
            ),
            MouseStep::Click,
        ],
        !s.mouse_on_left ==> s.plan_of(MouseAction::ToggleLeftRightCenter) == seq![
            MouseStep::MoveTo(
                trunc_div(3 * s.screen_width, 4) as i32,
                trunc_div(s.screen_height as int, 2) as i32,
            ),
            MouseStep::Click,
        ],
{
}

/// Carrying out an action changes nothing but, for the alternating click
/// alone, the side of the next alternating click, which it moves to the other
/// side.
pub proof fn law_commit_moves_side_only_for_alternating(s: OverlayState, a: MouseAction)
    ensures
        !(a is ToggleLeftRightCenter) ==> s.after_action(a) == s,
        a is ToggleLeftRightCenter ==> {
            let t = s.after_action(a);
            &&& t.mouse_on_left == !s.mouse_on_left
            &&& t.active == s.active
            &&& t.restoring == s.restoring
            &&& t.screen_width == s.screen_width
            &&& t.screen_height == s.screen_height
        },
{
}

/// Switching the overlay always flips whether it is on, in every state, and
/// changes nothing else.
pub proof fn law_switch_flips_overlay(s: OverlayState)
    ensures
        s.with_active_toggled().active == !s.active,
        s.with_active_toggled().mouse_on_left == s.mouse_on_left,
        s.with_active_toggled().restoring == s.restoring,
        s.with_active_toggled().screen_width == s.screen_width,
        s.with_active_toggled().screen_height == s.screen_height,
{
}

} // verus!
