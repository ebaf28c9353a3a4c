//! The shell's view of the running application: the windows the host
//! framework manages, reduced to the few facts the close policy reads.

use vstd::prelude::*;

verus! {

/// The fixed label of the transient startup window that the close command
/// targets.
pub open spec fn splash_label() -> Seq<char> {
    "splashscreen"@
}

/// Executable counterpart of [`splash_label`].
pub fn splashscreen_label() -> (r: &'static str)
    ensures
        r@ == splash_label(),
{
    "splashscreen"
}

/// One window, reduced to what the shell reads of it: its label, whether it
/// is on screen, and whether a close request on it would succeed.
#[derive(Clone, Debug, PartialEq, Eq)]
pub struct WindowModel {
    pub label: String,
    pub visible: bool,
    pub closable: bool,
}

/// Some window in the sequence carries this label.
pub open spec fn has_label(ws: Seq<WindowModel>, label: Seq<char>) -> bool {
    exists|i: int| 0 <= i < ws.len() && ws[i].label@ == label
}

/// Some window in the sequence carries this label and is on screen.
pub open spec fn label_visible(ws: Seq<WindowModel>, label: Seq<char>) -> bool {
    exists|i: int| 0 <= i < ws.len() && ws[i].label@ == label && ws[i].visible
}

/// Some window in the sequence carries this label and a close request on it
/// would succeed.
pub open spec fn label_closable(ws: Seq<WindowModel>, label: Seq<char>) -> bool {
    exists|i: int| 0 <= i < ws.len() && ws[i].label@ == label && ws[i].closable
}

/// The labels in the sequence are pairwise distinct.
pub open spec fn labels_distinct(ws: Seq<WindowModel>) -> bool {
    forall|i: int, j: int| 0 <= i < j < ws.len() ==> ws[i].label@ != ws[j].label@
}

/// The windows of the running application.
#[derive(Clone, Debug, PartialEq, Eq)]
pub struct AppModel {
    pub windows: Vec<WindowModel>,
}

impl AppModel {
    /// Labels are pairwise distinct, as the host framework guarantees for
    /// its window registry.
    pub open spec fn wf(self) -> bool {
        labels_distinct(self.windows@)
    }

    /// Some window carries this label.
    pub open spec fn has_window(self, label: Seq<char>) -> bool {
        has_label(self.windows@, label)
    }

    /// Some window carries this label and is on screen.
    pub open spec fn window_visible(self, label: Seq<char>) -> bool {
        label_visible(self.windows@, label)
    }

    /// Some window carries this label and a close request on it would
    /// succeed.
    pub open spec fn window_closable(self, label: Seq<char>) -> bool {
        label_closable(self.windows@, label)
    }

    /// Index of the window with the given label, if any.
    pub fn find_window(&self, label: &str) -> (r: Option<usize>)
        ensures
            r is Some <==> self.has_window(label@),
            r matches Some(i) ==> i < self.windows@.len()
                && self.windows@[i as int].label@ == label@,
    {
        let target: String = label.to_owned();
        let mut i: usize = 0;
        while i < self.windows.len()
            invariant
                i <= self.windows@.len(),
                target@ == label@,
                forall|j: int| 0 <= j < i ==> self.windows@[j].label@ != label@,
            decreases self.windows@.len() - i,
        {
            if self.windows[i].label == target {
                return Some(i);
            }
            i = i + 1;
        }
        None
    }
}

} // verus!
