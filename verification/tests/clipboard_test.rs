use stt_groq_rust::clipboard::{
    copy_and_paste, copy_and_paste_with, ClipboardError, ClipboardService, SystemClipboard,
};

struct FakeClipboard {
    fail_copy: bool,
    log: Vec<String>,
}

impl ClipboardService for FakeClipboard {
    fn copy_text(&mut self, text: &str) -> Result<(), ClipboardError> {
        if self.fail_copy {
            return Err(ClipboardError { message: "no clipboard at display :0".to_string() });
        }
        self.log.push(format!("copy:{}", text));
        Ok(())
    }

    fn paste(&mut self) {
        self.log.push("paste".to_string());
    }
}

#[test]
fn copy_and_paste_succeeds_without_desktop() {
    assert!(copy_and_paste("hello").is_ok());
    let mut clipboard = SystemClipboard::new();
    assert!(clipboard.copy_text("x").is_ok());
    assert!(copy_and_paste_with(&mut clipboard, "y").is_ok());
}

#[test]
fn copy_then_paste_in_order() {
    let mut clipboard = FakeClipboard { fail_copy: false, log: Vec::new() };
    assert!(copy_and_paste_with(&mut clipboard, "text").is_ok());
    assert_eq!(clipboard.log, vec!["copy:text".to_string(), "paste".to_string()]);
}

#[test]
fn failed_copy_skips_paste() {
    let mut clipboard = FakeClipboard { fail_copy: true, log: Vec::new() };
    let result = copy_and_paste_with(&mut clipboard, "text");
    match result {
        Err(e) => assert_eq!(e.message, "no clipboard at display :0"),
        Ok(()) => panic!("copy should have failed"),
    }
    assert!(clipboard.log.is_empty());
}
