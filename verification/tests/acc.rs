use uwscr_builtins::acc::{
    has_char, split_tabs, AccClickReason, AccClickResult, AccRole, ClkTarget, GetItem, SearchItem, TargetRole,
    U32Ext,
};
use uwscr_builtins::consts::GetItemConst;

#[test]
fn roles_from_numbers() {
    assert!(AccRole::from_code(0x2B) == AccRole::PushButton);
    assert!(AccRole::from_code(0x09) == AccRole::Window);
    assert!(AccRole::from_code(0x40) == AccRole::OutlineButton);
    assert!(AccRole::from_code(0) == AccRole::Unknown(0));
    assert!(AccRole::from_code(-5) == AccRole::Unknown(-5));
}

#[test]
fn parent_roles() {
    let t = ClkTarget { button: true, list: true, tab: false, menu: false, treeview: false, listview: true, toolbar: false, link: true };
    let r = TargetRole::from_target(&t);
    assert!(r.parent == vec![AccRole::Window, AccRole::List, AccRole::Combobox, AccRole::List, AccRole::Client]);
    assert!(r.match_parent(AccRole::Combobox));
    assert!(!r.match_parent(AccRole::MenuBar));
    assert!(r.contains(AccRole::Window, AccRole::CheckButton));
    assert!(!r.contains(AccRole::Window, AccRole::ListItem));
    assert!(r.contains(AccRole::Cell, AccRole::Graphic));
    assert!(!r.contains(AccRole::Pane, AccRole::Graphic));
    assert!(TargetRole::ignore_invisible(AccRole::List));
    assert!(!TargetRole::ignore_invisible(AccRole::Outline));
}

#[test]
fn getitem_options() {
    let opt = GetItemConst::ITM_ACCEDIT.value() as u32 | GetItemConst::ITM_ACCCLK2.value() as u32;
    let g = GetItem::new(opt, -2);
    assert!(g.edit && !g.is_static && g.click && g.click2 && g.backward);
    assert_eq!(g.count, Some(2));
    let g = GetItem::new(GetItemConst::ITM_ACCCLK.value() as u32, 0);
    assert!(g.click && !g.click2 && !g.backward);
    assert_eq!(g.count, None);
}

#[test]
fn getitem_collects_up_to_the_count() {
    let mut g = GetItem::new(0, 2);
    assert!(g.add("a".to_string()).is_some());
    assert!(g.add(String::new()).is_none());
    assert!(g.add("b".to_string()).is_some());
    assert!(g.add("c".to_string()).is_none());
    assert_eq!(g.found, vec!["a", "b"]);
    assert_eq!(g.count, Some(0));
}

#[test]
fn flags_and_results() {
    assert!(0b1110u32.includes(0b0110));
    assert!(!0b1010u32.includes(0b0110));
    let r = AccClickResult::new(true, AccClickReason::Select);
    assert!(r.as_bool());
    assert!(!AccClickResult::new(false, AccClickReason::DefaultAction("Press".to_string())).as_bool());
}

#[test]
fn names_with_tabs_become_groups() {
    assert_eq!(split_tabs("a\tbc\t"), vec!["a".to_string(), "bc".to_string(), String::new()]);
    assert_eq!(split_tabs(""), vec![String::new()]);
    assert!(has_char("x\\y", '\\'));
    assert!(!has_char("xy", '\t'));
    let item = SearchItem::new("OK\tはい".to_string(), true, TargetRole::new(vec![]));
    assert!(item.is_group());
    assert_eq!(item.name, "");
    assert_eq!(item.group, vec!["OK".to_string(), "はい".to_string()]);
    let item = SearchItem::new("File\\Open".to_string(), false, TargetRole::new(vec![]));
    assert!(!item.is_group());
    assert!(item.is_path());
    assert_eq!(item.name, "File\\Open");
}

#[test]
fn order_counts_down_to_the_wanted_match() {
    let mut order: u32 = 2;
    assert!(!SearchItem::is_in_exact_order(&mut order));
    assert_eq!(order, 1);
    assert!(SearchItem::is_in_exact_order(&mut order));
    assert_eq!(order, 0);
}
