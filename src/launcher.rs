use vstd::prelude::*;

use crate::catalog::ToolDescriptor;

verus! {

/// Where a tool's install stands, as far as the launcher knows.
#[derive(Clone, Copy, Debug, PartialEq, Eq, Structural)]
pub enum InstallStatus {
    NotInvoked,
    /// Its process was started and has not been seen to end.
    InProgress,
    /// Its process ended with success.
    Completed,
    /// Its process could not be started, or ended with failure.
    Failed,
}

/// The launcher's state: the catalog, read once, and one install status per tool.
pub struct App {
    /// Whether the install controls are offered.
    pub enable_install: bool,
    /// The catalog, in the file's order.
    pub tools: Vec<ToolDescriptor>,
    /// The status of each tool, by its position in `tools`.
    pub statuses: Vec<InstallStatus>,
}

/// Whether a tool with status `s` is picked: every tool when `all` holds, else
/// only those never invoked.
pub open spec fn picked(s: InstallStatus, all: bool) -> bool {
    all || s == InstallStatus::NotInvoked
}

/// The positions, in increasing order, of the statuses that are picked.
pub open spec fn selection(ss: Seq<InstallStatus>, all: bool) -> Seq<usize>
    decreases ss.len(),
{
    if ss.len() == 0 {
        Seq::empty()
    } else if picked(ss.last(), all) {
        selection(ss.drop_last(), all).push((ss.len() - 1) as usize)
    } else {
        selection(ss.drop_last(), all)
    }
}

/// The status after a start was attempted: a process that did not start is a
/// failure, contained here.
pub open spec fn after_spawn(spawned: bool) -> InstallStatus {
    if spawned {
        InstallStatus::InProgress
    } else {
        InstallStatus::Failed
    }
}

/// The status after the process was seen to end; only a running install ends.
pub open spec fn after_exit(s: InstallStatus, success: bool) -> InstallStatus {
    if s != InstallStatus::InProgress {
        s
    } else if success {
        InstallStatus::Completed
    } else {
        InstallStatus::Failed
    }
}

impl App {
    pub open spec fn wf(&self) -> bool {
        self.statuses@.len() == self.tools@.len()
    }

    /// A launcher over `tools`, with installs enabled and none invoked.
    pub fn new(tools: Vec<ToolDescriptor>) -> (r: App)
        ensures
            r.wf(),
            r.enable_install,
            r.tools == tools,
            forall|i: int| 0 <= i < r.statuses@.len() ==> r.statuses@[i] == InstallStatus::NotInvoked,
    {
        let mut statuses: Vec<InstallStatus> = Vec::new();
        let mut i: usize = 0;
        while i < tools.len()
            invariant
                i <= tools.len(),
                statuses@.len() == i,
                forall|j: int| 0 <= j < i ==> statuses@[j] == InstallStatus::NotInvoked,
            decreases tools.len() - i,
        {
            statuses.push(InstallStatus::NotInvoked);
            i = i + 1;
        }
        App { enable_install: true, tools, statuses }
    }

    /// The positions of the tools to install, in catalog order: none while installs
    /// are disabled; otherwise every tool when `all` holds, else those never invoked.
    pub fn install_tools(&self, all: bool) -> (r: Vec<usize>)
        ensures
            r@ == (if self.enable_install {
                selection(self.statuses@, all)
            } else {
                Seq::empty()
            }),
    {
        let mut r: Vec<usize> = Vec::new();
        if !self.enable_install {
            return r;
        }
        let mut i: usize = 0;
        assert(self.statuses@.take(0) =~= Seq::<InstallStatus>::empty());
        while i < self.statuses.len()
            invariant
                i <= self.statuses@.len(),
                r@ == selection(self.statuses@.take(i as int), all),
            decreases self.statuses.len() - i,
        {
            let ghost ss = self.statuses@.take(i + 1);
            assert(ss.drop_last() =~= self.statuses@.take(i as int));
            let s = self.statuses[i];
            if all || s == InstallStatus::NotInvoked {
                r.push(i);
            }
            i = i + 1;
        }
        assert(self.statuses@.take(i as int) =~= self.statuses@);
        r
    }

    /// The status of the tool at position `i`.
    pub fn status(&self, i: usize) -> (r: InstallStatus)
        requires
            i < self.statuses@.len(),
        ensures
            r == self.statuses@[i as int],
    {
        self.statuses[i]
    }

    /// Records whether the install process of the tool at `i` could be started.
    pub fn record_spawn(&mut self, i: usize, spawned: bool)
        requires
            old(self).wf(),
            i < old(self).tools@.len(),
        ensures
            final(self).wf(),
            final(self).enable_install == old(self).enable_install,
            final(self).tools == old(self).tools,
            final(self).statuses@ == old(self).statuses@.update(i as int, after_spawn(spawned)),
    {
        let s = if spawned {
            InstallStatus::InProgress
        } else {
            InstallStatus::Failed
        };
        self.statuses.set(i, s);
    }

    /// Records that the install process of the tool at `i` ended, with success or not.
    pub fn record_exit(&mut self, i: usize, success: bool)
        requires
            old(self).wf(),
            i < old(self).tools@.len(),
        ensures
            final(self).wf(),
            final(self).enable_install == old(self).enable_install,
            final(self).tools == old(self).tools,
            final(self).statuses@ == old(self).statuses@.update(
                i as int,
                after_exit(old(self).statuses@[i as int], success),
            ),
    {
        let s = self.statuses[i];
        if s == InstallStatus::InProgress {
            let next = if success {
                InstallStatus::Completed
            } else {
                InstallStatus::Failed
            };
            self.statuses.set(i, next);
        } else {
            self.statuses.set(i, s);
        }
    }
}

} // verus!
