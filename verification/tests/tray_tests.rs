use tray_shell::tray::MenuItem;
use tray_shell::tray::TrayEntry;
use tray_shell::tray::TrayMenu;
use tray_shell::tray::tray_menu;

#[test]
fn tray_menu_has_three_entries() {
    let menu = tray_menu();
    assert_eq!(menu.entries.len(), 3);
}

#[test]
fn tray_menu_quit_separator_hide_in_order() {
    let menu = tray_menu();
    match &menu.entries[0] {
        TrayEntry::Item(item) => {
            assert_eq!(item.id, "quit");
            assert_eq!(item.label, "Quit");
        }
        TrayEntry::Separator => panic!("first entry must be the quit item"),
    }
    assert!(matches!(menu.entries[1], TrayEntry::Separator));
    match &menu.entries[2] {
        TrayEntry::Item(item) => {
            assert_eq!(item.id, "hide");
            assert_eq!(item.label, "Hide");
        }
        TrayEntry::Separator => panic!("last entry must be the hide item"),
    }
}

#[test]
fn tray_menu_has_exactly_two_selectable_items() {
    let menu = tray_menu();
    let mut selectable: usize = 0;
    for entry in &menu.entries {
        if matches!(entry, TrayEntry::Item(_)) {
            selectable += 1;
        }
    }
    assert_eq!(selectable, 2);
}

#[test]
fn menu_builder_keeps_insertion_order() {
    let first = MenuItem::new("first".to_string(), "First".to_string());
    let second = MenuItem::new("second".to_string(), "Second".to_string());
    let menu = TrayMenu::new().add_item(first).add_separator().add_item(second);
    assert_eq!(menu.entries.len(), 3);
    match &menu.entries[0] {
        TrayEntry::Item(item) => assert_eq!(item.id, "first"),
        TrayEntry::Separator => panic!("first entry must be an item"),
    }
    match &menu.entries[2] {
        TrayEntry::Item(item) => assert_eq!(item.id, "second"),
        TrayEntry::Separator => panic!("last entry must be an item"),
    }
}

#[test]
fn empty_menu_has_no_entries() {
    let menu = TrayMenu::new();
    assert_eq!(menu.entries.len(), 0);
}

#[test]
fn menu_item_keeps_id_and_label() {
    let item = MenuItem::new("quit".to_string(), "Quit".to_string());
    assert_eq!(item.id, "quit");
    assert_eq!(item.label, "Quit");
}
