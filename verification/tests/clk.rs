use uwscr_builtins::builtin_args::ThreeState;
use uwscr_builtins::clk::{
    button_type, clk_button_action, clk_index_outcome, clk_list_outcome, clk_menu_clicks, clk_outcome, ButtonType,
    ClkAction,
};

#[test]
fn button_kinds_from_styles() {
    assert!(button_type(0x5000_0000) == ButtonType::Button);
    assert!(button_type(0x5001_0003) == ButtonType::Check);
    assert!(button_type(0x2) == ButtonType::Check);
    assert!(button_type(0x9) == ButtonType::Radio);
    assert!(button_type(0x4) == ButtonType::Radio);
    assert!(button_type(0x6) == ButtonType::ThreeState);
    assert!(button_type(0x5) == ButtonType::ThreeState);
    assert!(button_type(0xB) == ButtonType::Button);
}

#[test]
fn button_actions() {
    assert!(clk_button_action(ButtonType::Button, ThreeState::True) == ClkAction::Command);
    assert!(clk_button_action(ButtonType::Button, ThreeState::False) == ClkAction::Nothing);
    assert!(clk_button_action(ButtonType::Check, ThreeState::Other) == ClkAction::SetCheck(1));
    assert!(clk_button_action(ButtonType::Check, ThreeState::False) == ClkAction::SetCheck(0));
    assert!(clk_button_action(ButtonType::ThreeState, ThreeState::Other) == ClkAction::SetState(2));
    assert!(clk_button_action(ButtonType::Radio, ThreeState::True) == ClkAction::MouseClick);
    assert!(clk_button_action(ButtonType::Radio, ThreeState::False) == ClkAction::Nothing);
}

#[test]
fn button_outcomes() {
    assert!(clk_outcome(ClkAction::Nothing, ThreeState::False, 0));
    assert!(clk_outcome(ClkAction::Command, ThreeState::True, 1));
    assert!(!clk_outcome(ClkAction::Command, ThreeState::True, 0));
    assert!(clk_outcome(ClkAction::SetCheck(1), ThreeState::True, 1));
    assert!(!clk_outcome(ClkAction::SetCheck(0), ThreeState::False, 1));
    assert!(clk_outcome(ClkAction::SetState(2), ThreeState::Other, 2));
    assert!(!clk_outcome(ClkAction::SetState(1), ThreeState::True, 2));
    assert!(clk_outcome(ClkAction::MouseClick, ThreeState::True, 1));
    assert!(!clk_outcome(ClkAction::MouseClick, ThreeState::True, 0));
}

#[test]
fn list_index_and_menu_outcomes() {
    assert_eq!(clk_list_outcome(&vec![1, 3, 5], &vec![1, 3, 5]), None);
    assert_eq!(clk_list_outcome(&vec![1, 3, 5], &vec![1, 2]), Some(2));
    assert_eq!(clk_list_outcome(&vec![1], &vec![-1]), Some(-1));
    assert!(clk_index_outcome(false, 3, -1));
    assert!(clk_index_outcome(true, 3, 3));
    assert!(!clk_index_outcome(true, 3, 4));
    assert!(clk_menu_clicks(true, false));
    assert!(clk_menu_clicks(false, true));
    assert!(!clk_menu_clicks(true, true));
}
