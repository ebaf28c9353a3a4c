//! Bootstrap: whether the shell may enter the framework's event loop at all,
//! given the static configuration the runtime context is generated from.

use vstd::prelude::*;
use crate::model::{AppModel, WindowModel, labels_distinct};

verus! {

/// The static configuration, reduced to what the bootstrap decides on:
/// whether the framework can generate its runtime context from it at all,
/// and the windows it declares.
#[derive(Clone, Debug, PartialEq, Eq)]
pub struct ConfigModel {
    pub valid: bool,
    pub windows: Vec<WindowModel>,
}

/// What booting the shell leads to: the event loop running over the
/// configured windows, or an abort before the loop is ever entered.
#[derive(Clone, Debug, PartialEq, Eq)]
pub enum BootOutcome {
    EventLoop(AppModel),
    StartupAbort,
}

/// Whether some window among the first `n` carries this label.
fn label_in_prefix(windows: &Vec<WindowModel>, n: usize, label: &String) -> (b: bool)
    requires
        n <= windows@.len(),
    ensures
        b <==> exists|k: int| 0 <= k < n && windows@[k].label@ == label@,
{
    let mut k: usize = 0;
    while k < n
        invariant
            k <= n <= windows@.len(),
            forall|m: int| 0 <= m < k ==> windows@[m].label@ != label@,
        decreases n - k,
    {
        if windows[k].label == *label {
            return true;
        }
        k = k + 1;
    }
    false
}

/// Whether the declared window labels are pairwise distinct, as the
/// framework requires of its window registry.
pub fn check_labels_distinct(windows: &Vec<WindowModel>) -> (b: bool)
    ensures
        b <==> labels_distinct(windows@),
{
    let mut i: usize = 0;
    while i < windows.len()
        invariant
            i <= windows@.len(),
            forall|a: int, b2: int|
                0 <= a < b2 < windows@.len() && b2 < i ==> windows@[a].label@
                    != windows@[b2].label@,
        decreases windows@.len() - i,
    {
        if label_in_prefix(windows, i, &windows[i].label) {
            proof {
                let k = choose|k: int| 0 <= k < i && windows@[k].label@ == windows@[
                    i as int
                ].label@;
                assert(!labels_distinct(windows@));
            }
            return false;
        }
        i = i + 1;
    }
    true
}

/// Bootstrap decision: enter the event loop over the configured windows, or
/// abort before it when the configuration is invalid or declares two windows
/// under one label.
pub fn boot(config: ConfigModel) -> (r: BootOutcome)
    ensures
        r is EventLoop <==> config.valid && labels_distinct(config.windows@),
        r matches BootOutcome::EventLoop(app) ==> app.windows@ == config.windows@ && app.wf(),
{
    if !config.valid {
        return BootOutcome::StartupAbort;
    }
    if !check_labels_distinct(&config.windows) {
        return BootOutcome::StartupAbort;
    }
    BootOutcome::EventLoop(AppModel { windows: config.windows })
}

} // verus!
