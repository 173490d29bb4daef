//! Clipboard operations: copying a transcription and pasting it.

use vstd::prelude::*;

verus! {

/// Why a clipboard operation failed.
pub struct ClipboardError {
    /// What the clipboard reported.
    pub message: String,
}

/// An operation carried out on a clipboard.
pub enum ClipboardOp {
    /// Copying `text` was attempted, with the given outcome.
    Copy { text: Seq<char>, outcome: Result<(), ClipboardError> },
    /// A paste was performed.
    Paste,
}

/// The record after copying `text` with `outcome`, then pasting when the
/// copy succeeded, starting from the record `before`.
pub open spec fn copied_then_pasted(
    before: Seq<ClipboardOp>,
    text: Seq<char>,
    outcome: Result<(), ClipboardError>,
) -> Seq<ClipboardOp> {
    let attempted = before.push(ClipboardOp::Copy { text, outcome });
    if outcome is Ok {
        attempted.push(ClipboardOp::Paste)
    } else {
        attempted
    }
}

/// Clipboard operations.
pub trait ClipboardService {
    /// Whether this implementation keeps the record of [`Self::operations`]
    /// that the methods' `ensures` describe; implementations that do not
    /// keep it promise nothing.
    open spec fn obeys_clipboard_spec() -> bool {
        false
    }

    /// The operations carried out on this clipboard so far, oldest first.
    open spec fn operations(&self) -> Seq<ClipboardOp> {
        Seq::empty()
    }

    /// Copies `text` to the clipboard; the attempt is recorded with the
    /// outcome that is returned.
    fn copy_text(&mut self, text: &str) -> (result: Result<(), ClipboardError>)
        ensures
            Self::obeys_clipboard_spec() ==> final(self).operations() == old(self).operations().push(
                ClipboardOp::Copy { text: text@, outcome: result },
            ),
    ;

    /// Simulates a paste operation, which is recorded.
    fn paste(&mut self)
        ensures
            Self::obeys_clipboard_spec() ==> final(self).operations() == old(self).operations().push(
                ClipboardOp::Paste,
            ),
    ;
}

/// The clipboard used where no desktop clipboard is available: copying
/// always succeeds and pasting has no other effect than being recorded.
pub struct SystemClipboard {
    operations: Ghost<Seq<ClipboardOp>>,
}

impl SystemClipboard {
    #[verifier::type_invariant]
    spec fn copies_succeed(self) -> bool {
        forall|i: int|
            0 <= i < self.operations@.len() ==> (#[trigger] self.operations@[i] matches ClipboardOp::Copy {
                outcome,
                ..
            } ==> outcome is Ok)
    }

    /// A clipboard on which nothing has been done yet.
    pub fn new() -> (clipboard: Self)
        ensures
            clipboard.operations() == Seq::<ClipboardOp>::empty(),
    {
        SystemClipboard { operations: Ghost(Seq::empty()) }
    }
}

impl ClipboardService for SystemClipboard {
    open spec fn obeys_clipboard_spec() -> bool {
        true
    }

    closed spec fn operations(&self) -> Seq<ClipboardOp> {
        self.operations@
    }

    fn copy_text(&mut self, text: &str) -> (result: Result<(), ClipboardError>)
        ensures
            result is Ok,
    {
        proof {
            use_type_invariant(&*self);
        }
        let result: Result<(), ClipboardError> = Ok(());
        self.operations = Ghost(self.operations@.push(ClipboardOp::Copy { text: text@, outcome: result }));
        result
    }

    fn paste(&mut self) {
        proof {
            use_type_invariant(&*self);
        }
        self.operations = Ghost(self.operations@.push(ClipboardOp::Paste));
    }
}

/// Copies `text` to `clipboard` and then pastes it; the paste happens only
/// when the copy succeeded, and the copy's own error is returned when it
/// failed. For an implementation that keeps its record, the record shows
/// the copy of `text` with the outcome that was returned, then the paste
/// when the copy succeeded.
pub fn copy_and_paste_with<C: ClipboardService>(clipboard: &mut C, text: &str) -> (result: Result<(), ClipboardError>)
    ensures
        C::obeys_clipboard_spec() ==> final(clipboard).operations() == copied_then_pasted(
            old(clipboard).operations(),
            text@,
            result,
        ),
        C::obeys_clipboard_spec() ==> final(clipboard).operations().subrange(
            0,
            old(clipboard).operations().len() as int,
        ) == old(clipboard).operations(),
        C::obeys_clipboard_spec() ==> final(clipboard).operations()[old(clipboard).operations().len() as int]
            == (ClipboardOp::Copy { text: text@, outcome: result }),
        C::obeys_clipboard_spec() && result is Ok ==> final(clipboard).operations().len()
            == old(clipboard).operations().len() + 2,
        C::obeys_clipboard_spec() && result is Ok ==> final(clipboard).operations()[old(clipboard).operations().len() + 1int]
            == ClipboardOp::Paste,
        C::obeys_clipboard_spec() && result is Err ==> final(clipboard).operations().len()
            == old(clipboard).operations().len() + 1,
{
    let copied = clipboard.copy_text(text);
    if copied.is_err() {
        proof {
            lemma_copied_then_pasted(old(clipboard).operations(), text@, copied);
        }
        return copied;
    }
    clipboard.paste();
    proof {
        lemma_copied_then_pasted(old(clipboard).operations(), text@, copied);
    }
    copied
}

/// Copies `text` to the clipboard and performs a paste operation, through
/// [`copy_and_paste_with`] on a fresh [`SystemClipboard`], whose copy
/// succeeds and is therefore followed by the paste.
pub fn copy_and_paste(text: &str) -> (result: Result<(), ClipboardError>)
    ensures
        result is Ok,
{
    let mut clipboard = SystemClipboard::new();
    let result = copy_and_paste_with(&mut clipboard, text);
    proof {
        use_type_invariant(&clipboard);
        assert(clipboard.operations()[0] == ClipboardOp::Copy { text: text@, outcome: result });
    }
    result
}

/// Copying and pasting adds to the record, after what it held before,
/// first the copy of exactly the text given with its outcome, then a paste
/// when, and only when, the copy succeeded.
pub proof fn lemma_copied_then_pasted(
    before: Seq<ClipboardOp>,
    text: Seq<char>,
    outcome: Result<(), ClipboardError>,
)
    ensures
        copied_then_pasted(before, text, outcome).subrange(0, before.len() as int) == before,
        copied_then_pasted(before, text, outcome)[before.len() as int] == (ClipboardOp::Copy { text, outcome }),
        outcome is Ok ==> copied_then_pasted(before, text, outcome) == before + seq![
            (ClipboardOp::Copy { text, outcome }),
            ClipboardOp::Paste,
        ],
        outcome is Err ==> copied_then_pasted(before, text, outcome) == before + seq![
            (ClipboardOp::Copy { text, outcome }),
        ],
{
    assert(copied_then_pasted(before, text, outcome).subrange(0, before.len() as int) =~= before);
    if outcome is Ok {
        assert(copied_then_pasted(before, text, outcome) =~= before + seq![
            ClipboardOp::Copy { text, outcome },
            ClipboardOp::Paste,
        ]);
    } else {
        assert(copied_then_pasted(before, text, outcome) =~= before + seq![
            ClipboardOp::Copy { text, outcome },
        ]);
    }
}

} // verus!
