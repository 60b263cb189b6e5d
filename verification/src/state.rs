//! The application state and its message-driven transition function.

use vstd::prelude::*;
use crate::trim::{trim_spec, trim_str};

verus! {

/// A named partition of the task list. Exactly one tab is active at a time,
/// and index- and append-based operations apply to its task sequence.
#[derive(Debug, Clone, Copy, PartialEq, Eq, Structural)]
pub enum Tab {
    Home,
    Work,
    Personal,
}

/// The display name of a tab, at the specification level.
pub open spec fn title_spec(t: Tab) -> Seq<char> {
    match t {
        Tab::Home => "Home"@,
        Tab::Work => "Work"@,
        Tab::Personal => "Personal"@,
    }
}

impl Tab {
    /// The display name of the tab.
    pub fn title(&self) -> (r: &str)
        ensures
            r@ == title_spec(*self),
    {
        match self {
            Tab::Home => "Home",
            Tab::Work => "Work",
            Tab::Personal => "Personal",
        }
    }
}

/// A single to-do item: a display name and a completion flag.
#[derive(Debug)]
pub struct Task {
    pub name: String,
    pub completed: bool,
}

/// The mathematical value of a [`Task`]: its name as a character sequence,
/// and its completion flag.
#[verifier::ext_equal]
pub struct TaskView {
    pub name: Seq<char>,
    pub completed: bool,
}

impl View for Task {
    type V = TaskView;

    open spec fn view(&self) -> TaskView {
        TaskView { name: self.name@, completed: self.completed }
    }
}

impl Clone for Task {
    /// Cloning a task keeps its name and completion flag.
    fn clone(&self) -> (r: Task)
        ensures
            r@ == self@,
    {
        Task { name: self.name.clone(), completed: self.completed }
    }
}

/// A discrete user-intent event consumed by [`TaskListApp::update`].
///
/// `ToggleTask` carries the tab it was issued against, so that a toggle that
/// arrives after a tab switch, or with an out-of-range index, is recovered as
/// a no-op instead of mutating the wrong list.
#[derive(Debug, Clone)]
pub enum Message {
    ToggleTask(Tab, usize),
    AddTask,
    InputChanged(String),
    RemoveCompletedTasks,
    SwitchTab(Tab),
}

/// The mathematical value of a [`Message`].
pub enum MessageView {
    ToggleTask(Tab, int),
    AddTask,
    InputChanged(Seq<char>),
    RemoveCompletedTasks,
    SwitchTab(Tab),
}

impl View for Message {
    type V = MessageView;

    open spec fn view(&self) -> MessageView {
        match self {
            Message::ToggleTask(t, i) => MessageView::ToggleTask(*t, *i as int),
            Message::AddTask => MessageView::AddTask,
            Message::InputChanged(s) => MessageView::InputChanged(s@),
            Message::RemoveCompletedTasks => MessageView::RemoveCompletedTasks,
            Message::SwitchTab(t) => MessageView::SwitchTab(*t),
        }
    }
}

/// The mathematical value of a [`TaskListApp`]: the active tab, the pending
/// input text, and one task sequence per tab.
#[verifier::ext_equal]
pub struct AppView {
    pub current_tab: Tab,
    pub task_name: Seq<char>,
    pub tasks_home: Seq<TaskView>,
    pub tasks_work: Seq<TaskView>,
    pub tasks_personal: Seq<TaskView>,
}

impl AppView {
    /// The task sequence of tab `t`.
    pub open spec fn tasks(self, t: Tab) -> Seq<TaskView> {
        match t {
            Tab::Home => self.tasks_home,
            Tab::Work => self.tasks_work,
            Tab::Personal => self.tasks_personal,
        }
    }

    /// This state with the task sequence of tab `t` replaced by `q`.
    pub open spec fn with_tasks(self, t: Tab, q: Seq<TaskView>) -> AppView {
        match t {
            Tab::Home => AppView { tasks_home: q, ..self },
            Tab::Work => AppView { tasks_work: q, ..self },
            Tab::Personal => AppView { tasks_personal: q, ..self },
        }
    }

    /// The initial state: the Home tab active, no pending input, all three
    /// task sequences empty.
    pub open spec fn init() -> AppView {
        AppView {
            current_tab: Tab::Home,
            task_name: Seq::empty(),
            tasks_home: Seq::empty(),
            tasks_work: Seq::empty(),
            tasks_personal: Seq::empty(),
        }
    }
}

/// `t` with its completion flag flipped.
pub open spec fn toggled(t: TaskView) -> TaskView {
    TaskView { name: t.name, completed: !t.completed }
}

/// A task that survives `RemoveCompletedTasks`.
pub open spec fn incomplete(t: TaskView) -> bool {
    !t.completed
}

/// The subsequence of `q` whose tasks are not completed, in order.
pub open spec fn keep_incomplete(q: Seq<TaskView>) -> Seq<TaskView> {
    q.filter(|t: TaskView| incomplete(t))
}

/// [`keep_incomplete`] of the empty sequence is empty.
pub proof fn lemma_keep_incomplete_empty()
    ensures
        keep_incomplete(Seq::empty()) == Seq::<TaskView>::empty(),
{
    reveal(Seq::filter);
}

/// One step of [`keep_incomplete`]: an appended task is kept exactly when it
/// is not completed.
pub proof fn lemma_keep_incomplete_push(q: Seq<TaskView>, e: TaskView)
    ensures
        keep_incomplete(q.push(e)) == if incomplete(e) {
            keep_incomplete(q).push(e)
        } else {
            keep_incomplete(q)
        },
{
    reveal(Seq::filter);
    assert(q.push(e).drop_last() =~= q);
    assert(q.push(e).last() == e);
}

/// The transition function of the state machine: the state after processing
/// one message in state `s`.
///
/// - `InputChanged(t)` overwrites the pending input with `t`, untrimmed.
/// - `SwitchTab(t)` makes `t` the active tab; nothing else changes.
/// - `AddTask` appends a task named by the trimmed pending input to the
///   active tab's sequence and clears the input, provided the trimmed input
///   is non-empty; otherwise it is a no-op.
/// - `ToggleTask(t, i)` flips the completion flag of task `i` of tab `t`,
///   provided `t` is still the active tab and `i` is in range; otherwise it
///   is a no-op.
/// - `RemoveCompletedTasks` removes the completed tasks from the active
///   tab's sequence, keeping the survivors in order.
pub open spec fn step(s: AppView, m: MessageView) -> AppView {
    match m {
        MessageView::InputChanged(t) => AppView { task_name: t, ..s },
        MessageView::SwitchTab(t) => AppView { current_tab: t, ..s },
        MessageView::AddTask => {
            let t = trim_spec(s.task_name);
            if t.len() > 0 {
                let appended = s.tasks(s.current_tab).push(
                    TaskView { name: t, completed: false },
                );
                AppView { task_name: Seq::empty(), ..s.with_tasks(s.current_tab, appended) }
            } else {
                s
            }
        },
        MessageView::ToggleTask(t, i) => {
            if t == s.current_tab && 0 <= i < s.tasks(t).len() {
                s.with_tasks(t, s.tasks(t).update(i, toggled(s.tasks(t)[i])))
            } else {
                s
            }
        },
        MessageView::RemoveCompletedTasks => {
            s.with_tasks(s.current_tab, keep_incomplete(s.tasks(s.current_tab)))
        },
    }
}

/// The application state: the active tab, the text being composed for the
/// next task, and one insertion-ordered task list per tab.
#[derive(Debug)]
pub struct TaskListApp {
    pub current_tab: Tab,
    pub task_name: String,
    pub tasks_home: Vec<Task>,
    pub tasks_work: Vec<Task>,
    pub tasks_personal: Vec<Task>,
}

/// The views of the tasks in `v`, in order.
pub open spec fn tasks_view(v: Seq<Task>) -> Seq<TaskView> {
    v.map_values(|t: Task| t@)
}

impl View for TaskListApp {
    type V = AppView;

    open spec fn view(&self) -> AppView {
        AppView {
            current_tab: self.current_tab,
            task_name: self.task_name@,
            tasks_home: tasks_view(self.tasks_home@),
            tasks_work: tasks_view(self.tasks_work@),
            tasks_personal: tasks_view(self.tasks_personal@),
        }
    }
}

/// Appends a task built from `name` to `v`.
fn push_task(v: &mut Vec<Task>, name: String)
    ensures
        tasks_view(final(v)@) == tasks_view(old(v)@).push(
            TaskView { name: name@, completed: false },
        ),
{
    let ghost before = v@;
    v.push(Task { name, completed: false });
    proof {
        assert(tasks_view(v@) =~= tasks_view(before).push(v@.last()@));
    }
}

/// Flips the completion flag of task `i` of `v`.
fn toggle_task(v: &mut Vec<Task>, i: usize)
    requires
        i < old(v)@.len(),
    ensures
        tasks_view(final(v)@) == tasks_view(old(v)@).update(
            i as int,
            toggled(tasks_view(old(v)@)[i as int]),
        ),
{
    let ghost before = v@;
    let c = v[i].completed;
    v[i].completed = !c;
    proof {
        assert(tasks_view(v@) =~= tasks_view(before).update(
            i as int,
            toggled(tasks_view(before)[i as int]),
        ));
    }
}

/// Removes the completed tasks from `v`, keeping the survivors in order.
fn remove_completed(v: &mut Vec<Task>)
    ensures
        tasks_view(final(v)@) == keep_incomplete(tasks_view(old(v)@)),
{
    let mut out: Vec<Task> = Vec::new();
    let mut i: usize = 0;
    proof {
        assert(tasks_view(v@.subrange(0, 0)) =~= Seq::<TaskView>::empty());
        assert(tasks_view(out@) =~= Seq::<TaskView>::empty());
        lemma_keep_incomplete_empty();
    }
    while i < v.len()
        invariant
            i <= v@.len(),
            tasks_view(out@) == keep_incomplete(tasks_view(v@.subrange(0, i as int))),
        decreases v@.len() - i,
    {
        let ghost prefix = tasks_view(v@.subrange(0, i as int));
        let ghost e = v@[i as int]@;
        let ghost out_before = out@;
        if !v[i].completed {
            let t = v[i].clone();
            out.push(t);
            proof {
                assert(tasks_view(out@) =~= tasks_view(out_before).push(e));
            }
        }
        proof {
            assert(tasks_view(v@.subrange(0, i + 1)) =~= prefix.push(e));
            lemma_keep_incomplete_push(prefix, e);
        }
        i = i + 1;
    }
    proof {
        assert(v@.subrange(0, v@.len() as int) =~= v@);
    }
    *v = out;
}

impl TaskListApp {
    /// The initial state: the Home tab active, no pending input, all three
    /// task lists empty.
    pub fn new() -> (r: TaskListApp)
        ensures
            r@ == AppView::init(),
    {
        let r = TaskListApp {
            current_tab: Tab::Home,
            task_name: String::new(),
            tasks_home: Vec::new(),
            tasks_work: Vec::new(),
            tasks_personal: Vec::new(),
        };
        proof {
            assert(tasks_view(Seq::<Task>::empty()) =~= Seq::<TaskView>::empty());
            assert(r@ =~= AppView::init());
        }
        r
    }

    /// The window title of the application.
    pub fn title(&self) -> (r: String)
        ensures
            r@ == "Task List App"@,
    {
        String::from_str("Task List App")
    }

    /// Processes one message: the sole mutator of the application state.
    /// The new state is exactly [`step`] of the old state and the message.
    pub fn update(&mut self, message: Message)
        ensures
            final(self)@ == step(old(self)@, message@),
    {
        match message {
            Message::InputChanged(value) => {
                self.task_name = value;
                proof {
                    assert(self@ =~= step(old(self)@, message@));
                }
            },
            Message::SwitchTab(tab) => {
                self.current_tab = tab;
                proof {
                    assert(self@ =~= step(old(self)@, message@));
                }
            },
            Message::AddTask => {
                let trimmed = trim_str(self.task_name.as_str());
                if !trimmed.as_str().is_empty() {
                    match self.current_tab {
                        Tab::Home => push_task(&mut self.tasks_home, trimmed),
                        Tab::Work => push_task(&mut self.tasks_work, trimmed),
                        Tab::Personal => push_task(&mut self.tasks_personal, trimmed),
                    }
                    self.task_name = String::new();
                    proof {
                        assert(self@ =~= step(old(self)@, message@));
                    }
                } else {
                    proof {
                        assert(self@ =~= step(old(self)@, message@));
                    }
                }
            },
            Message::ToggleTask(tab, index) => {
                let relevant = match (tab, self.current_tab) {
                    (Tab::Home, Tab::Home) => true,
                    (Tab::Work, Tab::Work) => true,
                    (Tab::Personal, Tab::Personal) => true,
                    _ => false,
                };
                let len = match self.current_tab {
                    Tab::Home => self.tasks_home.len(),
                    Tab::Work => self.tasks_work.len(),
                    Tab::Personal => self.tasks_personal.len(),
                };
                if relevant && index < len {
                    match self.current_tab {
                        Tab::Home => toggle_task(&mut self.tasks_home, index),
                        Tab::Work => toggle_task(&mut self.tasks_work, index),
                        Tab::Personal => toggle_task(&mut self.tasks_personal, index),
                    }
                    proof {
                        assert(self@ =~= step(old(self)@, message@));
                    }
                } else {
                    proof {
                        assert(self@ =~= step(old(self)@, message@));
                    }
                }
            },
            Message::RemoveCompletedTasks => {
                match self.current_tab {
                    Tab::Home => remove_completed(&mut self.tasks_home),
                    Tab::Work => remove_completed(&mut self.tasks_work),
                    Tab::Personal => remove_completed(&mut self.tasks_personal),
                }
                proof {
                    assert(self@ =~= step(old(self)@, message@));
                }
            },
        }
    }
}

} // verus!
