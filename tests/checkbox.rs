use win_tool::checkbox::{truncate, CheckboxItem, CheckboxList};

fn item(name: &str) -> CheckboxItem {
    CheckboxItem::new(name.to_string(), format!("{} description", name), "1.0".to_string())
}

#[test]
fn test_checkbox_toggle() {
    let mut item = CheckboxItem::new(
        "Test".to_string(),
        "Description".to_string(),
        "1.0".to_string()
    );

    assert!(!item.checked);
    item.toggle();
    assert!(item.checked);
    item.toggle();
    assert!(!item.checked);
}

#[test]
fn test_truncate() {
    assert_eq!(truncate("short", 10), "short");
    assert_eq!(truncate("very long string", 10), "very lo...");
}

#[test]
fn truncate_edges() {
    assert_eq!(truncate("", 0), "");
    assert_eq!(truncate("abcdefghij", 10), "abcdefghij");
    assert_eq!(truncate("abcd", 2), "...");
    assert_eq!(truncate("abcd", 3), "...");
    assert_eq!(truncate("Платформа цифровой", 8), "Платф...");
}

#[test]
fn toggle_first_and_third_gives_them_in_order() {
    let mut list = CheckboxList::new(vec![item("a"), item("b"), item("c")]);
    list.toggle_selected();
    list.move_selection(1);
    list.move_selection(1);
    assert_eq!(list.selected, 2);
    list.toggle_selected();
    let names: Vec<&str> = list.get_checked_items().iter().map(|i| i.name.as_str()).collect();
    assert_eq!(names, vec!["a", "c"]);
}

#[test]
fn toggle_twice_restores_entry() {
    let mut list = CheckboxList::new(vec![item("a"), item("b")]);
    list.move_selection(1);
    list.toggle_selected();
    assert!(list.items[1].checked);
    list.toggle_selected();
    assert!(!list.items[1].checked);
    assert_eq!(list.selected, 1);
    assert!(list.get_checked_items().is_empty());
}

#[test]
fn empty_list_operations_are_no_ops() {
    let mut list = CheckboxList::new(vec![]);
    list.move_selection(-1);
    list.move_selection(5);
    list.toggle_selected();
    assert_eq!(list.selected, 0);
    assert!(list.get_checked_items().is_empty());
}

#[test]
fn list_cursor_wraps_both_ways() {
    let mut list = CheckboxList::new(vec![item("a"), item("b"), item("c")]);
    list.move_selection(-1);
    assert_eq!(list.selected, 2);
    list.move_selection(1);
    assert_eq!(list.selected, 0);
    list.move_selection(-4);
    assert_eq!(list.selected, 2);
}

#[test]
fn checked_items_keep_list_order_after_many_toggles() {
    let mut list = CheckboxList::new(vec![item("a"), item("b"), item("c"), item("d")]);
    for step in [3isize, -1, -1, 2, 0] {
        list.move_selection(step);
        list.toggle_selected();
    }
    // positions toggled: 3, 2, 1, 3, 3 -> checked: 1, 2, 3
    let names: Vec<&str> = list.get_checked_items().iter().map(|i| i.name.as_str()).collect();
    assert_eq!(names, vec!["b", "c", "d"]);
}

#[test]
fn row_text_of_unchecked_and_checked_entries() {
    let mut e = CheckboxItem::new("Git.Git".to_string(), "VCS".to_string(), "latest".to_string());
    assert_eq!(
        e.row_text(),
        format!("[ ] {:<30} {:<10} {}", "Git.Git", "latest", "VCS")
    );
    e.toggle();
    assert_eq!(e.row_text(), "[X] Git.Git                        latest     VCS");
}

#[test]
fn row_text_cuts_long_name_and_description() {
    let e = CheckboxItem::new(
        "A.Very.Long.Package.Identifier.Name".to_string(),
        "A description that goes on for well over forty characters".to_string(),
        "1.2.3.4.5.6.7".to_string(),
    );
    assert_eq!(
        e.row_text(),
        "[ ] A.Very.Long.Package.Identif... 1.2.3.4.5.6.7 A description that goes on for well o..."
    );
}
