//! The decisions of `clkitem` through the Win32 controls: what to do with the item that
//! was found, and whether the click succeeded given what the control reports back. The
//! caller posts the messages, waits and reads the control's state; these functions take
//! and give plain values.

use vstd::prelude::*;
use crate::builtin_args::ThreeState;

verus! {

/// The kind of a button control, from its style.
#[derive(PartialEq, Eq, Clone, Copy, Structural)]
pub enum ButtonType {
    Button,
    Check,
    Radio,
    ThreeState,
}

/// The button kind that a window style gives: the low four bits `BS_3STATE` (5) or
/// `BS_AUTO3STATE` (6) make a three-state box, `BS_CHECKBOX` (2) or `BS_AUTOCHECKBOX` (3)
/// a check box, `BS_RADIOBUTTON` (4) or `BS_AUTORADIOBUTTON` (9) a radio button; any
/// other style a push button.
pub open spec fn button_type_spec(style: u32) -> ButtonType {
    let kind = style & 0xF;
    if kind == 5 || kind == 6 {
        ButtonType::ThreeState
    } else if kind == 2 || kind == 3 {
        ButtonType::Check
    } else if kind == 4 || kind == 9 {
        ButtonType::Radio
    } else {
        ButtonType::Button
    }
}

/// The button kind of a window style (see `button_type_spec`).
pub fn button_type(style: u32) -> (r: ButtonType)
    ensures
        r == button_type_spec(style),
{
    let kind = style & 0xF;
    if kind == 5 || kind == 6 {
        ButtonType::ThreeState
    } else if kind == 2 || kind == 3 {
        ButtonType::Check
    } else if kind == 4 || kind == 9 {
        ButtonType::Radio
    } else {
        ButtonType::Button
    }
}

/// What to do with a button.
#[derive(PartialEq, Eq, Clone, Copy, Structural)]
pub enum ClkAction {
    /// Nothing; the click counts as done.
    Nothing,
    /// Post `BN_CLICKED` to the button's parent.
    Command,
    /// Post `BM_SETCHECK` to a check box with this state (0 unchecked, 1 checked), then
    /// read the state back with `BM_GETCHECK`.
    SetCheck(usize),
    /// Post `BM_SETCHECK` to a three-state box with this state (0 unchecked, 1 checked,
    /// 2 indeterminate), then read the state back with `BM_GETCHECK`.
    SetState(usize),
    /// Click the button with the mouse, then read the state back with `BM_GETCHECK`.
    MouseClick,
}

/// The `BM_SETCHECK` state that `check` asks of a three-state box.
pub open spec fn three_state_check(check: ThreeState) -> usize {
    match check {
        ThreeState::True => 1,
        ThreeState::False => 0,
        ThreeState::Other => 2,
    }
}

/// What to do with a button of kind `button` when asked for `check`: a push button is
/// pressed and a radio button clicked only when `check` is true (otherwise nothing is
/// done); a check box is set to checked or unchecked; a three-state box to the state
/// `check` names.
pub open spec fn clk_action_spec(button: ButtonType, check: ThreeState) -> ClkAction {
    let on = check != ThreeState::False;
    match button {
        ButtonType::Button => if on { ClkAction::Command } else { ClkAction::Nothing },
        ButtonType::Check => ClkAction::SetCheck(if on { 1 } else { 0 }),
        ButtonType::ThreeState => ClkAction::SetState(three_state_check(check)),
        ButtonType::Radio => if on { ClkAction::MouseClick } else { ClkAction::Nothing },
    }
}

/// What to do with a button (see `clk_action_spec`).
pub fn clk_button_action(button: ButtonType, check: ThreeState) -> (r: ClkAction)
    ensures
        r == clk_action_spec(button, check),
{
    let on = check.as_bool();
    match button {
        ButtonType::Button => if on { ClkAction::Command } else { ClkAction::Nothing },
        ButtonType::Check => ClkAction::SetCheck(if on { 1 } else { 0 }),
        ButtonType::ThreeState => ClkAction::SetState(match check {
            ThreeState::True => 1,
            ThreeState::False => 0,
            ThreeState::Other => 2,
        }),
        ButtonType::Radio => if on { ClkAction::MouseClick } else { ClkAction::Nothing },
    }
}

/// Whether a button click succeeded. `readback` is what the control reported after the
/// action: for `Command`, whether the message was posted (non-zero when it was); for
/// the others, the state `BM_GETCHECK` returned. Doing nothing succeeds; a check box
/// succeeds when it is checked exactly when asked to be; a three-state box when it
/// reports the state it was set to; a clicked radio button when it is checked.
pub open spec fn clk_outcome_spec(action: ClkAction, check: ThreeState, readback: isize) -> bool {
    match action {
        ClkAction::Nothing => true,
        ClkAction::Command => readback != 0,
        ClkAction::SetCheck(_) => (readback > 0) == (check != ThreeState::False),
        ClkAction::SetState(state) => readback == state,
        ClkAction::MouseClick => (readback > 0) == (check != ThreeState::False),
    }
}

/// Whether a button click succeeded (see `clk_outcome_spec`).
pub fn clk_outcome(action: ClkAction, check: ThreeState, readback: isize) -> (r: bool)
    ensures
        r == clk_outcome_spec(action, check, readback),
{
    match action {
        ClkAction::Nothing => true,
        ClkAction::Command => readback != 0,
        ClkAction::SetCheck(_) => (readback > 0) == check.as_bool(),
        ClkAction::SetState(state) => readback >= 0 && state as u64 == readback as u64,
        ClkAction::MouseClick => (readback > 0) == check.as_bool(),
    }
}

/// The outcome of selecting several list items: `None` when every item read back as
/// selected, else the index the list reported at the first item that was not (whose
/// point is reported and the click counted as failed).
pub fn clk_list_outcome(wanted: &Vec<usize>, got: &Vec<isize>) -> (r: Option<isize>)
    ensures
        r is None <==> forall|k: int| 0 <= k < wanted@.len() && k < got@.len() ==> wanted@[k] as int == got@[k] as int,
        r matches Some(x) ==> exists|k: int| 0 <= k < wanted@.len() && k < got@.len()
            && wanted@[k] as int != got@[k] as int && x == got@[k]
            && (forall|j: int| 0 <= j < k ==> wanted@[j] as int == got@[j] as int),
{
    let mut k: usize = 0;
    while k < wanted.len() && k < got.len()
        invariant
            k <= wanted@.len(),
            k <= got@.len(),
            forall|j: int| 0 <= j < k ==> wanted@[j] as int == got@[j] as int,
        decreases wanted.len() - k,
    {
        let w = wanted[k];
        let g = got[k];
        if g < 0 || w as u64 != g as u64 {
            return Some(g);
        }
        k = k + 1;
    }
    None
}

/// Whether a single list, combo box, tab or tree item counts as clicked: nothing is done
/// (and it counts) when `check` is false; otherwise the control must report the index
/// that was selected.
pub fn clk_index_outcome(check: bool, wanted: usize, readback: isize) -> (r: bool)
    ensures
        r == (!check || wanted as int == readback as int),
{
    if !check {
        true
    } else {
        readback >= 0 && wanted as u64 == readback as u64
    }
}

/// Whether a menu item is clicked: only when its check mark differs from what is asked
/// (asked to check an unchecked item, or to uncheck a checked one); otherwise the item
/// counts as clicked as it is.
pub fn clk_menu_clicks(check: bool, checked: bool) -> (r: bool)
    ensures
        r == (check != checked),
{
    check != checked
}


/// Only the low four bits of a style name the button kind: two styles that agree there
/// make the same kind, whatever other style bits (`BS_PUSHLIKE`, `WS_VISIBLE`, ...) are
/// set.
pub proof fn law_button_type_low_bits(a: u32, b: u32)
    requires
        a & 0xF == b & 0xF,
    ensures
        button_type_spec(a) == button_type_spec(b),
{
}

/// A click succeeds when the control does what it was told: the state a check box or
/// three-state box was set to, read back, is accepted, and so is a checked radio button
/// or a posted command; a check box that reads back the other state fails. Asked for
/// false, a push button or radio button is left alone, which counts as done.
pub proof fn law_click_succeeds_when_control_obeys(button: ButtonType, check: ThreeState)
    ensures
        match clk_action_spec(button, check) {
            ClkAction::Nothing => clk_outcome_spec(ClkAction::Nothing, check, 0),
            ClkAction::Command => clk_outcome_spec(ClkAction::Command, check, 1),
            ClkAction::SetCheck(k) => clk_outcome_spec(ClkAction::SetCheck(k), check, k as isize)
                && !clk_outcome_spec(ClkAction::SetCheck(k), check, (1 - k) as isize),
            ClkAction::SetState(k) => clk_outcome_spec(ClkAction::SetState(k), check, k as isize),
            ClkAction::MouseClick => clk_outcome_spec(ClkAction::MouseClick, check, 1),
        },
        check == ThreeState::False && (button == ButtonType::Button || button == ButtonType::Radio)
            ==> clk_action_spec(button, check) == ClkAction::Nothing,
{
}

} // verus!
