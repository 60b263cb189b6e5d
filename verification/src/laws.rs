//! The general properties of the state machine, stated over [`step`] and
//! proved once and for all.

use vstd::prelude::*;
use crate::state::{
    AppView, MessageView, Tab, TaskView, incomplete, keep_incomplete, step, toggled,
};
use crate::trim::{lemma_trim_spec_len, trim_spec};

verus! {

/// Adding trims and validates: for every string `text`, `AddTask` right
/// after `InputChanged(text)` appends a task named by the trimmed text, not
/// yet completed, to the active tab's sequence exactly when the trimmed text
/// is non-empty, and clears the pending input; otherwise it changes no task
/// sequence and leaves the text in the input. The active tab never changes.
pub proof fn lemma_add_trims_and_validates(s0: AppView, text: Seq<char>)
    ensures
        ({
            let s1 = step(s0, MessageView::InputChanged(text));
            let s2 = step(s1, MessageView::AddTask);
            let cur = s0.current_tab;
            &&& s2.current_tab == cur
            &&& trim_spec(text).len() > 0 ==> {
                &&& s2.tasks(cur) == s0.tasks(cur).push(
                    (TaskView { name: trim_spec(text), completed: false }),
                )
                &&& s2.task_name == Seq::<char>::empty()
            }
            &&& trim_spec(text).len() == 0 ==> {
                &&& forall|t: Tab| s2.tasks(t) == s0.tasks(t)
                &&& s2.task_name == text
            }
            &&& forall|t: Tab| t != cur ==> s2.tasks(t) == s0.tasks(t)
        }),
{
    let s1 = step(s0, MessageView::InputChanged(text));
    let s2 = step(s1, MessageView::AddTask);
    assert(s1.current_tab == s0.current_tab);
    assert(forall|t: Tab| s1.tasks(t) == s0.tasks(t));
}

/// Tab isolation: no message mutates the task sequence of a tab other than
/// the one that is active when the message is processed.
pub proof fn lemma_tab_isolation(s: AppView, m: MessageView, t: Tab)
    requires
        t != s.current_tab,
    ensures
        step(s, m).tasks(t) == s.tasks(t),
{
}

/// Toggling is involutive: processing the same `ToggleTask` message twice in
/// a row, with no intervening tab switch, restores the original state.
pub proof fn lemma_toggle_involutive(s: AppView, t: Tab, i: int)
    ensures
        step(step(s, MessageView::ToggleTask(t, i)), MessageView::ToggleTask(t, i)) == s,
{
    let m = MessageView::ToggleTask(t, i);
    let s1 = step(s, m);
    if t == s.current_tab && 0 <= i < s.tasks(t).len() {
        let q = s.tasks(t);
        let q1 = s1.tasks(t);
        assert(q1 == q.update(i, toggled(q[i])));
        assert(toggled(toggled(q[i])) =~= q[i]);
        assert(q1.update(i, toggled(q1[i])) =~= q);
        assert(step(s1, m) =~= s);
    }
}

/// Removing is a stable filter: after `RemoveCompletedTasks` the active
/// tab's sequence equals the filter of the original sequence that keeps,
/// in their original relative order, exactly the tasks not yet completed.
/// Every kept task is incomplete, every incomplete task of the original
/// sequence is kept, and nothing else of the state changes.
pub proof fn lemma_remove_is_stable_filter(s: AppView)
    ensures
        ({
            let s1 = step(s, MessageView::RemoveCompletedTasks);
            let cur = s.current_tab;
            let before = s.tasks(cur);
            let after = s1.tasks(cur);
            &&& after == keep_incomplete(before)
            &&& after.len() <= before.len()
            &&& forall|k: int| 0 <= k < after.len() ==> incomplete(#[trigger] after[k])
            &&& forall|k: int|
                0 <= k < before.len() && incomplete(before[k]) ==> after.contains(
                    #[trigger] before[k],
                )
            &&& s1.current_tab == cur
            &&& s1.task_name == s.task_name
        }),
{
    broadcast use vstd::prelude::Seq::lemma_filter_len;

    let cur = s.current_tab;
    let before = s.tasks(cur);
    let after = step(s, MessageView::RemoveCompletedTasks).tasks(cur);
    assert(after == before.filter(|x: TaskView| incomplete(x)));
    assert forall|k: int| 0 <= k < after.len() implies incomplete(#[trigger] after[k]) by {
        before.lemma_filter_pred(|x: TaskView| incomplete(x), k);
    }
    assert forall|k: int|
        0 <= k < before.len() && incomplete(before[k]) implies after.contains(
        #[trigger] before[k],
    ) by {
        before.lemma_filter_contains(|x: TaskView| incomplete(x), k);
    }
}

/// The pending input clears exactly on a successful add: after `AddTask`
/// the input has gone from non-empty to empty if and only if a task was
/// actually appended to the active tab's sequence.
pub proof fn lemma_input_clears_iff_added(s: AppView)
    ensures
        ({
            let s1 = step(s, MessageView::AddTask);
            let cur = s.current_tab;
            (s.task_name.len() > 0 && s1.task_name.len() == 0) <==> s1.tasks(cur).len() == s.tasks(
                cur,
            ).len() + 1
        }),
{
    lemma_trim_spec_len(s.task_name);
}

} // verus!
