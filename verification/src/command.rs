//! The one remote-invokable command the shell registers, and the policy it
//! enforces: an absent splashscreen is a silent no-op, a successful close
//! removes exactly that window, and a failed close aborts the process.

use vstd::prelude::*;
use crate::model::{
    AppModel, WindowModel, has_label, label_closable, label_visible, labels_distinct,
    splash_label, splashscreen_label,
};

verus! {

/// Whether the process goes on after a command, or must terminate.
#[derive(Clone, Copy, Debug, PartialEq, Eq, Structural)]
pub enum ProcessStatus {
    Running,
    Aborted,
}

/// The name under which the close command is registered with the framework's
/// invocation channel.
pub open spec fn close_command_name() -> Seq<char> {
    "close_splashscreen"@
}

/// Executable counterpart of [`close_command_name`].
pub fn close_command_str() -> (r: &'static str)
    ensures
        r@ == close_command_name(),
{
    "close_splashscreen"
}

/// How one invocation of the close command relates the application state
/// before (`pre`) and after (`post`), and the process status it leaves:
/// absence of the splashscreen is a successful no-op; when it is present and
/// closable exactly that window is removed and the process keeps running;
/// when it is present but a close on it fails the process aborts with the
/// state untouched. Windows under any other label keep their presence and
/// visibility in every case.
pub open spec fn close_transition(pre: AppModel, post: AppModel, status: ProcessStatus) -> bool {
    &&& (!pre.has_window(splash_label()) ==> post == pre && status is Running)
    &&& (pre.has_window(splash_label()) && pre.window_closable(splash_label()) ==> {
        &&& !post.has_window(splash_label())
        &&& !post.window_visible(splash_label())
        &&& status is Running
        &&& exists|i: int|
            0 <= i < pre.windows@.len() && pre.windows@[i].label@ == splash_label()
                && post.windows@ == pre.windows@.remove(i)
    })
    &&& (pre.has_window(splash_label()) && !pre.window_closable(splash_label()) ==> post == pre
        && status is Aborted)
    &&& forall|l: Seq<char>|
        l != splash_label() ==> (#[trigger] post.has_window(l) <==> pre.has_window(l))
    &&& forall|l: Seq<char>|
        l != splash_label() ==> (#[trigger] post.window_visible(l) <==> pre.window_visible(l))
}

/// The command itself, on the model: look the splashscreen window up; if it
/// is absent do nothing; otherwise request its close, and abort the process
/// when that request fails.
pub fn close_splashscreen(app: &mut AppModel) -> (status: ProcessStatus)
    requires
        old(app).wf(),
    ensures
        final(app).wf(),
        close_transition(*old(app), *final(app), status),
{
    let found = app.find_window(splashscreen_label());
    match found {
        None => ProcessStatus::Running,
        Some(i) => {
            if app.windows[i].closable {
                let ghost pre = app.windows@;
                app.windows.remove(i);
                proof {
                    lemma_remove_splash(pre, i as int);
                    assert(app.windows@ == pre.remove(i as int));
                }
                ProcessStatus::Running
            } else {
                proof {
                    if app.window_closable(splash_label()) {
                        let k = choose|k: int|
                            0 <= k < app.windows@.len()
                                && app.windows@[k].label@ == splash_label()
                                && app.windows@[k].closable;
                        assert(k == i as int);
                    }
                }
                ProcessStatus::Aborted
            }
        },
    }
}

/// Removing the one splash-labelled window from a registry with pairwise
/// distinct labels leaves no splash-labelled window, keeps the labels
/// distinct, and keeps every other label's presence and visibility.
proof fn lemma_remove_splash(ws: Seq<WindowModel>, i: int)
    requires
        0 <= i < ws.len(),
        ws[i].label@ == splash_label(),
        labels_distinct(ws),
    ensures
        !has_label(ws.remove(i), splash_label()),
        !label_visible(ws.remove(i), splash_label()),
        labels_distinct(ws.remove(i)),
        forall|l: Seq<char>|
            l != splash_label() ==> ((#[trigger] has_label(ws.remove(i), l)) <==> has_label(
                ws,
                l,
            )),
        forall|l: Seq<char>|
            l != splash_label() ==> ((#[trigger] label_visible(ws.remove(i), l)) <==> label_visible(
                ws,
                l,
            )),
{
    ws.remove_ensures(i);
    assert forall|j: int| 0 <= j < ws.remove(i).len() implies #[trigger] ws.remove(i)[j].label@
        != splash_label() by {
        if j < i {
            assert(ws.remove(i)[j] == ws[j]);
        } else {
            assert(ws.remove(i)[j] == ws[j + 1]);
        }
    }
    assert forall|a: int, b: int|
        0 <= a < b < ws.remove(i).len() implies ws.remove(i)[a].label@
        != ws.remove(i)[b].label@ by {
        let a0: int = if a < i {
            a
        } else {
            a + 1
        };
        let b0: int = if b < i {
            b
        } else {
            b + 1
        };
        assert(ws.remove(i)[a] == ws[a0]);
        assert(ws.remove(i)[b] == ws[b0]);
    }
    assert forall|l: Seq<char>| l != splash_label() implies ((#[trigger] has_label(
        ws.remove(i),
        l,
    )) <==> has_label(ws, l)) by {
        if has_label(ws.remove(i), l) {
            let j = choose|j: int| 0 <= j < ws.remove(i).len() && ws.remove(i)[j].label@ == l;
            if j < i {
                assert(ws[j].label@ == l);
            } else {
                assert(ws[j + 1].label@ == l);
            }
        }
        if has_label(ws, l) {
            let k = choose|k: int| 0 <= k < ws.len() && ws[k].label@ == l;
            if k < i {
                assert(ws.remove(i)[k].label@ == l);
            } else {
                assert(k != i);
                assert(ws.remove(i)[k - 1].label@ == l);
            }
        }
    }
    assert forall|l: Seq<char>| l != splash_label() implies ((#[trigger] label_visible(
        ws.remove(i),
        l,
    )) <==> label_visible(ws, l)) by {
        if label_visible(ws.remove(i), l) {
            let j = choose|j: int|
                0 <= j < ws.remove(i).len() && ws.remove(i)[j].label@ == l
                    && ws.remove(i)[j].visible;
            if j < i {
                assert(ws[j].label@ == l && ws[j].visible);
            } else {
                assert(ws[j + 1].label@ == l && ws[j + 1].visible);
            }
        }
        if label_visible(ws, l) {
            let k = choose|k: int| 0 <= k < ws.len() && ws[k].label@ == l && ws[k].visible;
            if k < i {
                assert(ws.remove(i)[k].label@ == l && ws.remove(i)[k].visible);
            } else {
                assert(k != i);
                assert(ws.remove(i)[k - 1].label@ == l && ws.remove(i)[k - 1].visible);
            }
        }
    }
}

/// The crash-on-error policy for a close request that was actually issued:
/// a reported failure terminates the process rather than letting it continue
/// silently in a broken state.
pub fn resolve_close_outcome(close_ok: bool) -> (status: ProcessStatus)
    ensures
        status is Running <==> close_ok,
{
    if close_ok {
        ProcessStatus::Running
    } else {
        ProcessStatus::Aborted
    }
}

/// The framework's invocation surface, with exactly one registered command:
/// a known name dispatches to [`close_splashscreen`], an unknown one is not
/// dispatched and leaves the application untouched.
pub fn handle_invoke(app: &mut AppModel, command: &str) -> (r: Option<ProcessStatus>)
    requires
        old(app).wf(),
    ensures
        final(app).wf(),
        r is Some <==> command@ == close_command_name(),
        r matches Some(status) ==> close_transition(*old(app), *final(app), status),
        r is None ==> *final(app) == *old(app),
{
    let name: String = command.to_owned();
    let registered: String = close_command_str().to_owned();
    if name == registered {
        Some(close_splashscreen(app))
    } else {
        None
    }
}

} // verus!
