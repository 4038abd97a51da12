use plain_clipboard::clipboard::{ALLOCATED_HANDLE, COPIED_HANDLE};
use plain_clipboard::{process_clipboard, Clipboard, Error, Faults, Payload};

fn utf16(text: &str) -> Vec<u16> {
    text.encode_utf16().collect()
}

fn terminated(text: &str) -> Vec<u16> {
    let mut buffer = utf16(text);
    buffer.push(0);
    buffer
}

fn html() -> Payload {
    Payload { format: 49_322, bytes: b"<b>bold</b>".to_vec() }
}

fn bitmap() -> Payload {
    Payload { format: 2, bytes: vec![0x42, 0x4D, 0x00, 0x10, 0xFF] }
}

fn holding(text: &str, others: Vec<Payload>) -> Clipboard {
    let mut clipboard = Clipboard::new();
    clipboard.copy(Some(terminated(text)), others);
    clipboard
}

fn refusing(faults: Faults) -> Clipboard {
    let mut clipboard = holding("kept", vec![html()]);
    clipboard.set_faults(faults);
    clipboard
}

#[test]
fn new_clipboard_is_empty_and_at_rest() {
    let clipboard = Clipboard::new();
    assert_eq!(clipboard.text(), None);
    assert!(clipboard.formats().is_empty());
    assert!(clipboard.others().is_empty());
    assert_eq!(clipboard.faults(), Faults::none());
    assert!(clipboard.at_rest());
    assert_ne!(COPIED_HANDLE, 0);
    assert_ne!(ALLOCATED_HANDLE, 0);
}

#[test]
fn copy_replaces_the_content() {
    let mut clipboard = holding("first", vec![html()]);
    clipboard.copy(Some(terminated("second")), vec![bitmap()]);
    assert_eq!(clipboard.text(), Some(utf16("second")));
    assert_eq!(clipboard.formats(), vec![13, 2]);
    clipboard.copy(None, Vec::new());
    assert_eq!(clipboard.text(), None);
    assert!(clipboard.formats().is_empty());
}

#[test]
fn rewrite_keeps_the_text_and_drops_other_formats() {
    let mut clipboard = holding("Hello, world", vec![html(), bitmap()]);
    assert_eq!(clipboard.formats(), vec![13, 49_322, 2]);
    assert_eq!(process_clipboard(&mut clipboard), Ok(()));
    assert_eq!(clipboard.text(), Some(utf16("Hello, world")));
    assert_eq!(clipboard.text_buffer(), Some(&terminated("Hello, world")));
    assert_eq!(clipboard.formats(), vec![13]);
    assert!(clipboard.others().is_empty());
    assert!(clipboard.at_rest());
}

#[test]
fn rewrite_cuts_what_lies_behind_the_terminator() {
    let mut buffer = terminated("short");
    buffer.extend(utf16("garbage"));
    let mut clipboard = Clipboard::new();
    clipboard.copy(Some(buffer), Vec::new());
    assert_eq!(process_clipboard(&mut clipboard), Ok(()));
    assert_eq!(clipboard.text_buffer(), Some(&terminated("short")));
}

#[test]
fn rewrite_terminates_an_unterminated_buffer() {
    let mut clipboard = Clipboard::new();
    clipboard.copy(Some(utf16("open end")), Vec::new());
    assert_eq!(process_clipboard(&mut clipboard), Ok(()));
    assert_eq!(clipboard.text_buffer(), Some(&terminated("open end")));
}

#[test]
fn rewrite_of_empty_text_leaves_empty_text() {
    let mut clipboard = holding("", vec![html()]);
    assert_eq!(process_clipboard(&mut clipboard), Ok(()));
    assert_eq!(clipboard.text(), Some(Vec::new()));
    assert_eq!(clipboard.text_buffer(), Some(&vec![0]));
    assert_eq!(clipboard.formats(), vec![13]);
}

#[test]
fn rewrite_keeps_units_that_are_no_valid_utf16() {
    let mut clipboard = Clipboard::new();
    clipboard.copy(Some(vec![0xDC00, 0x0061, 0xD800, 0]), Vec::new());
    assert_eq!(process_clipboard(&mut clipboard), Ok(()));
    assert_eq!(clipboard.text(), Some(vec![0xDC00, 0x0061, 0xD800]));
}

#[test]
fn rewriting_twice_is_rewriting_once() {
    let mut once = holding("same", vec![html()]);
    assert_eq!(process_clipboard(&mut once), Ok(()));
    let mut twice = once.clone();
    assert_eq!(process_clipboard(&mut twice), Ok(()));
    assert_eq!(twice, once);
    assert_eq!(twice.text(), Some(utf16("same")));
}

#[test]
fn unavailable_clipboard_is_left_alone_and_recovers() {
    let mut clipboard = refusing(Faults { open: true, ..Faults::none() });
    let before = clipboard.clone();
    assert_eq!(process_clipboard(&mut clipboard), Err(Error::ClipboardUnavailable));
    assert_eq!(clipboard, before);
    assert_eq!(clipboard.formats(), vec![13, 49_322]);
    clipboard.set_faults(Faults::none());
    assert_eq!(process_clipboard(&mut clipboard), Ok(()));
    assert_eq!(clipboard.text(), Some(utf16("kept")));
    assert_eq!(clipboard.formats(), vec![13]);
}

#[test]
fn image_only_clipboard_has_no_text_and_is_left_alone() {
    let mut clipboard = Clipboard::new();
    clipboard.copy(None, vec![bitmap()]);
    let before = clipboard.clone();
    assert_eq!(process_clipboard(&mut clipboard), Err(Error::NoTextContent));
    assert_eq!(clipboard, before);
    assert_eq!(clipboard.others(), &vec![bitmap()]);
    assert!(clipboard.at_rest());
}

#[test]
fn empty_clipboard_has_no_text() {
    let mut clipboard = Clipboard::new();
    assert_eq!(process_clipboard(&mut clipboard), Err(Error::NoTextContent));
    assert_eq!(clipboard, Clipboard::new());
}

#[test]
fn refused_source_lock_leaves_the_clipboard_alone() {
    let mut clipboard = refusing(Faults { lock_source: true, ..Faults::none() });
    let before = clipboard.clone();
    assert_eq!(process_clipboard(&mut clipboard), Err(Error::LockFailure));
    assert_eq!(clipboard, before);
}

#[test]
fn refused_clear_leaves_the_clipboard_alone() {
    let mut clipboard = refusing(Faults { clear: true, ..Faults::none() });
    let before = clipboard.clone();
    assert_eq!(process_clipboard(&mut clipboard), Err(Error::ClearFailure));
    assert_eq!(clipboard, before);
}

#[test]
fn refused_allocation_leaves_the_clipboard_empty() {
    let mut clipboard = refusing(Faults { allocate: true, ..Faults::none() });
    assert_eq!(process_clipboard(&mut clipboard), Err(Error::AllocationFailure));
    assert_eq!(clipboard.text(), None);
    assert!(clipboard.formats().is_empty());
    assert!(clipboard.at_rest());
}

#[test]
fn refused_target_lock_leaves_the_clipboard_empty_and_no_buffer() {
    let mut clipboard = refusing(Faults { lock_target: true, ..Faults::none() });
    assert_eq!(process_clipboard(&mut clipboard), Err(Error::LockFailure));
    assert_eq!(clipboard.text(), None);
    assert!(clipboard.formats().is_empty());
    assert!(clipboard.at_rest());
}

#[test]
fn refused_install_leaves_the_clipboard_empty_and_no_buffer() {
    let mut clipboard = refusing(Faults { install: true, ..Faults::none() });
    assert_eq!(process_clipboard(&mut clipboard), Err(Error::SetFailure));
    assert_eq!(clipboard.text(), None);
    assert!(clipboard.formats().is_empty());
    assert!(clipboard.at_rest());
}

#[test]
fn the_first_refusal_decides() {
    let all = Faults {
        open: true,
        lock_source: true,
        clear: true,
        allocate: true,
        lock_target: true,
        install: true,
    };
    let mut clipboard = refusing(all);
    assert_eq!(process_clipboard(&mut clipboard), Err(Error::ClipboardUnavailable));
    clipboard.set_faults(Faults { open: false, ..all });
    assert_eq!(process_clipboard(&mut clipboard), Err(Error::LockFailure));
    clipboard.set_faults(Faults { open: false, lock_source: false, ..all });
    assert_eq!(process_clipboard(&mut clipboard), Err(Error::ClearFailure));
    assert_eq!(clipboard.text(), Some(utf16("kept")));
    clipboard.set_faults(Faults { allocate: true, lock_target: true, install: true, ..Faults::none() });
    assert_eq!(process_clipboard(&mut clipboard), Err(Error::AllocationFailure));
}

#[test]
fn faults_are_kept_across_a_rewrite() {
    let faults = Faults { install: true, ..Faults::none() };
    let mut clipboard = refusing(faults);
    let _ = process_clipboard(&mut clipboard);
    assert_eq!(clipboard.faults(), faults);
    assert_eq!(process_clipboard(&mut clipboard), Err(Error::NoTextContent));
}
