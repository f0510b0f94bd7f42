//! The output injector's plan: copy the text to the clipboard, paste it with
//! a simulated keystroke, and press Enter after it when configured. The
//! caller carries out the steps in order and does not retry them.

use vstd::prelude::*;

verus! {

/// Pause after writing the clipboard, so that it is ready before the paste.
pub const CLIPBOARD_SETTLE_MS: u64 = 50;

/// Pause after the paste, so that its modifier key is up before Enter.
pub const PASTE_SETTLE_MS: u64 = 150;

/// One step of an insertion.
#[derive(Debug, Clone, PartialEq, Eq)]
pub enum InjectStep {
    CopyToClipboard(String),
    Pause(u64),
    /// The paste keystroke (Cmd+V).
    Paste,
    /// The Return key.
    PressReturn,
}

pub ghost enum StepView {
    CopyToClipboard(Seq<char>),
    Pause(u64),
    Paste,
    PressReturn,
}

impl View for InjectStep {
    type V = StepView;

    open spec fn view(&self) -> StepView {
        match self {
            InjectStep::CopyToClipboard(t) => StepView::CopyToClipboard(t@),
            InjectStep::Pause(ms) => StepView::Pause(*ms),
            InjectStep::Paste => StepView::Paste,
            InjectStep::PressReturn => StepView::PressReturn,
        }
    }
}

/// The steps that insert `text`: none for empty text.
pub open spec fn insert_plan(text: Seq<char>, auto_enter: bool) -> Seq<StepView> {
    if text.len() == 0 {
        Seq::empty()
    } else {
        let paste = seq![
            StepView::CopyToClipboard(text),
            StepView::Pause(CLIPBOARD_SETTLE_MS),
            StepView::Paste,
        ];
        if auto_enter {
            paste + seq![StepView::Pause(PASTE_SETTLE_MS), StepView::PressReturn]
        } else {
            paste
        }
    }
}

/// Inserts text into the focused application through the clipboard.
pub struct TextInserter {
    auto_enter: bool,
}

impl TextInserter {
    pub fn new(auto_enter: bool) -> (r: TextInserter)
        ensures
            r.auto_enter() == auto_enter,
    {
        TextInserter { auto_enter }
    }

    pub closed spec fn auto_enter(&self) -> bool {
        self.auto_enter
    }

    /// The steps that insert `text`, in order.
    pub fn insert(&self, text: &str) -> (r: Vec<InjectStep>)
        ensures
            r@.map_values(|s: InjectStep| s@) == insert_plan(text@, self.auto_enter()),
    {
        let mut steps: Vec<InjectStep> = Vec::new();
        if text.is_empty() {
            assert(steps@.map_values(|s: InjectStep| s@) =~= insert_plan(text@, self.auto_enter()));
            return steps;
        }
        steps.push(InjectStep::CopyToClipboard(text.to_owned()));
        steps.push(InjectStep::Pause(CLIPBOARD_SETTLE_MS));
        steps.push(InjectStep::Paste);
        if self.auto_enter {
            steps.push(InjectStep::Pause(PASTE_SETTLE_MS));
            steps.push(InjectStep::PressReturn);
        }
        assert(steps@.map_values(|s: InjectStep| s@) =~= insert_plan(text@, self.auto_enter()));
        steps
    }
}

} // verus!
