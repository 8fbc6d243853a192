use std::cell::Cell;

use clipboard_plugin::entry::PluginInfo;
use clipboard_plugin::parse::{entries_from_records, get_clipboard_history, get_entries, parse_record};
use clipboard_plugin::selection::{decode_args, handle_selection, list_args};

const LISTING: &str = "127\tsome copied text\n126\thttps://example.com\n125\tfn main() {}\n";

#[test]
fn test_get_clipboard_history() {
    let history = get_clipboard_history(LISTING);
    println!("{:?}", history);
    assert_eq!(
        history,
        vec!["127\tsome copied text", "126\thttps://example.com", "125\tfn main() {}", ""]
    );
}

#[test]
fn test_handle_selection() {
    let result = handle_selection(Some("127"), |id| id == "127");
    assert!(result);
}

#[test]
fn test_get_entries() {
    let entries = get_entries(LISTING);
    assert!(entries.length > 0);
}

#[test]
fn listing_example_keeps_extra_tabs_in_content() {
    let list = get_entries("42\tHello World\n7\tfoo\tbar\n\n");
    assert_eq!(list.length, 2);
    assert_eq!(list.entries.len(), 2);
    assert_eq!(list.entries[0].value, "42");
    assert_eq!(list.entries[0].name, "Hello World");
    assert_eq!(list.entries[0].description, "Hello World");
    assert_eq!(list.entries[1].value, "7");
    assert_eq!(list.entries[1].name, "foo\tbar");
    assert_eq!(list.entries[1].description, "foo\tbar");
    assert!(list.entries[1].icon.is_none());
    assert!(list.entries[1].emoji.is_none());
}

#[test]
fn record_fields_are_id_and_content() {
    let e = parse_record("3\tüber café").unwrap();
    assert_eq!(e.value, "3");
    assert_eq!(e.name, "über café");
    assert_eq!(e.description, "über café");
    let e = parse_record("\tonly content").unwrap();
    assert_eq!(e.value, "");
    assert_eq!(e.name, "only content");
    let e = parse_record("9\t").unwrap();
    assert_eq!(e.value, "9");
    assert_eq!(e.name, "");
}

#[test]
fn record_without_tab_gives_no_entry() {
    assert!(parse_record("no separator here").is_none());
    assert!(parse_record("").is_none());
}

#[test]
fn malformed_records_are_skipped_in_order() {
    let records: Vec<String> = vec!["5\tfive", "garbage", "", "4\tfour", "x y z", "3\tthree"]
        .into_iter()
        .map(String::from)
        .collect();
    let list = entries_from_records(&records);
    assert_eq!(list.length, 3);
    let values: Vec<&str> = list.entries.iter().map(|e| e.value.as_str()).collect();
    assert_eq!(values, vec!["5", "4", "3"]);
    let names: Vec<&str> = list.entries.iter().map(|e| e.name.as_str()).collect();
    assert_eq!(names, vec!["five", "four", "three"]);
}

#[test]
fn notice_line_dropped_when_more_follow() {
    let out = "opening db: please store something first\n1\tfirst";
    assert_eq!(get_clipboard_history(out), vec!["1\tfirst"]);
    let list = get_entries(out);
    assert_eq!(list.length, 1);
    assert_eq!(list.entries[0].value, "1");
}

#[test]
fn lone_notice_line_kept() {
    let out = "opening db: please store something first";
    assert_eq!(get_clipboard_history(out), vec![out]);
    assert_eq!(get_entries(out).length, 0);
}

#[test]
fn notice_line_not_at_head_kept() {
    let out = "1\tfirst\nopening db: please store something first";
    assert_eq!(
        get_clipboard_history(out),
        vec!["1\tfirst", "opening db: please store something first"]
    );
}

#[test]
fn empty_listing_gives_one_empty_record_and_no_entries() {
    assert_eq!(get_clipboard_history(""), vec![""]);
    let list = get_entries("");
    assert_eq!(list.length, 0);
    assert!(list.entries.is_empty());
    assert_eq!(list.len(), 0);
}

#[test]
fn empty_selection_fails_without_running_pipeline() {
    let runs = Cell::new(0u32);
    let result = handle_selection(Some(""), |_id| {
        runs.set(runs.get() + 1);
        true
    });
    assert!(!result);
    assert_eq!(runs.get(), 0);
}

#[test]
fn missing_selection_fails_without_running_pipeline() {
    let runs = Cell::new(0u32);
    let result = handle_selection(None, |_id| {
        runs.set(runs.get() + 1);
        true
    });
    assert!(!result);
    assert_eq!(runs.get(), 0);
}

#[test]
fn selection_passes_exact_id_and_returns_outcome() {
    let seen = std::cell::RefCell::new(Vec::new());
    let ok = handle_selection(Some("12; rm -rf x"), |id| {
        seen.borrow_mut().push(id.to_string());
        true
    });
    assert!(ok);
    let failed = handle_selection(Some("12"), |id| {
        seen.borrow_mut().push(id.to_string());
        false
    });
    assert!(!failed);
    assert_eq!(*seen.borrow(), vec!["12; rm -rf x".to_string(), "12".to_string()]);
}

#[test]
fn command_arguments() {
    assert_eq!(list_args(), vec!["list"]);
    assert_eq!(decode_args("127"), vec!["decode", "127"]);
    assert_eq!(decode_args("a b\tc"), vec!["decode", "a b\tc"]);
}

#[test]
fn plugin_info_fields() {
    let info = PluginInfo::new();
    assert_eq!(info.name, "Clipboard Manager");
    assert_eq!(info.version, "1.0.1");
    assert_eq!(info.description, "A plugin for managing your clipboard");
    assert_eq!(info.author, "Ri");
    assert_eq!(info.default_prefix, "c");
}
