//! Filesystems: formatting, mounting, subvolumes, and the record of what is
//! mounted, kept so that everything can be unmounted again in reverse order.
use vstd::prelude::*;
use crate::command::{Action, ActionView, Command, CommandView};
use crate::error::{ErrorView, InstallError};
use crate::plan::{Expect, ExpectView, Failure, FailureView, Plan, PlanView, Step, StepView, Unwind};
use crate::text::{is_under, join_path, lemma_views_push, path_under, same, starts_with, under, views};

verus! {

/// The filesystems that can be created.
#[derive(Debug, PartialEq, Eq, Clone, Copy, Structural)]
pub enum FsType {
    Fat32,
    Ext4,
    Btrfs,
}

/// What is mounted at a mount point.
#[derive(Debug, PartialEq, Eq, Clone, Copy, Structural)]
pub enum MountRole {
    /// The top-level volume of the target system.
    Root,
    /// The boot partition.
    Boot,
    /// The EFI system partition.
    Efi,
    /// A subvolume of the top-level volume.
    Subvolume,
}

/// One mount: what is mounted, where, and how.
#[derive(Debug, PartialEq, Eq)]
pub struct MountEntry {
    pub role: MountRole,
    pub source: String,
    pub target: String,
    pub options: String,
}

/// A mount as plain values.
pub struct EntryView {
    pub role: MountRole,
    pub source: Seq<char>,
    pub target: Seq<char>,
    pub options: Seq<char>,
}

impl View for MountEntry {
    type V = EntryView;

    open spec fn view(&self) -> EntryView {
        EntryView { role: self.role, source: self.source@, target: self.target@, options: self.options@ }
    }
}

/// The command that unmounts what is mounted at `target`.
pub open spec fn umount_command(target: Seq<char>) -> CommandView {
    CommandView::new("umount"@).arg(target)
}

/// The command that mounts `source` at `target`.
pub open spec fn mount_command(source: Seq<char>, target: Seq<char>, options: Seq<char>) -> CommandView {
    if options.len() == 0 {
        CommandView::new("mount"@).arg(source).arg(target)
    } else {
        CommandView::new("mount"@).arg("-o"@).arg(options).arg(source).arg(target)
    }
}

/// The step that mounts `source` at `target`; unmounting undoes it.
pub open spec fn mount_step(source: Seq<char>, target: Seq<char>, options: Seq<char>) -> StepView {
    StepView {
        action: ActionView::Run(mount_command(source, target, options)),
        expect: ExpectView::Success(FailureView::Device),
        undo: Some(ActionView::Run(umount_command(target))),
    }
}

/// The step that unmounts `target` when everything is taken down. Its exit
/// status is not examined, so a target that is not mounted is no error.
pub open spec fn unmount_step(target: Seq<char>) -> StepView {
    StepView::attempt(umount_command(target))
}

/// The step that creates a filesystem on `path`.
pub open spec fn mkfs_step(path: Seq<char>, fs_type: FsType) -> StepView {
    match fs_type {
        FsType::Fat32 => StepView::run(CommandView::new("mkfs.fat"@).arg("-F32"@).arg(path), FailureView::Device),
        FsType::Ext4 => StepView::run(CommandView::new("mkfs.ext4"@).arg(path), FailureView::Device),
        FsType::Btrfs => StepView::run(CommandView::new("mkfs.btrfs"@).arg(path), FailureView::Device),
    }
}

/// The step that creates the subvolume `name` below `root_mount`.
pub open spec fn subvolume_step(root_mount: Seq<char>, name: Seq<char>) -> StepView {
    StepView::run(
        CommandView::new("btrfs"@).arg("subvolume"@).arg("create"@).arg(path_under(root_mount, name)),
        FailureView::Device,
    )
}

/// One subvolume step for each name, in the order of the list.
pub open spec fn subvolume_plan(root_mount: Seq<char>, names: Seq<Seq<char>>) -> PlanView {
    PlanView::of(Seq::new(names.len(), |i: int| subvolume_step(root_mount, names[i])))
}

/// The record of what is mounted, in the order of mounting.
pub struct MountsView {
    pub entries: Seq<EntryView>,
}

impl MountsView {
    /// Whether something is recorded as mounted at `target`.
    pub open spec fn has_target(self, target: Seq<char>) -> bool {
        exists|i: int| 0 <= i < self.entries.len() && #[trigger] self.entries[i].target == target
    }

    /// Whether a mount of `role` at `target` may come next. The first mount
    /// is the root, at an absolute path. Every other mount lies below the
    /// root, at a target of its own, and above nothing that is mounted: a
    /// parent is mounted before its children.
    pub open spec fn admits(self, role: MountRole, target: Seq<char>) -> bool {
        if self.entries.len() == 0 {
            role == MountRole::Root && "/"@.is_prefix_of(target)
        } else {
            &&& role != MountRole::Root
            &&& under(target, self.entries[0].target)
            &&& forall|i: int|
                0 <= i < self.entries.len() ==> (#[trigger] self.entries[i]).target != target && !under(
                    self.entries[i].target,
                    target,
                )
        }
    }

    /// The order rules of the record: the root comes first, everything else
    /// lies below it, no target occurs twice, and no mount lies below a
    /// later one.
    pub open spec fn wf(self) -> bool {
        &&& self.entries.len() > 0 ==> self.entries[0].role == MountRole::Root
        &&& forall|i: int|
            0 < i < self.entries.len() ==> (#[trigger] self.entries[i]).role != MountRole::Root && under(
                self.entries[i].target,
                self.entries[0].target,
            )
        &&& forall|i: int, j: int|
            0 <= i < j < self.entries.len() ==> (#[trigger] self.entries[i]).target != (
            #[trigger] self.entries[j]).target && !under(self.entries[i].target, self.entries[j].target)
    }

    /// What a request to mount leads to: the record afterwards, and the
    /// step or the refusal.
    pub open spec fn mount(self, role: MountRole, source: Seq<char>, target: Seq<char>, options: Seq<char>) -> (
        MountsView,
        Result<StepView, ErrorView>,
    ) {
        if self.admits(role, target) {
            (
                MountsView { entries: self.entries.push(EntryView { role, source, target, options }) },
                Ok(mount_step(source, target, options)),
            )
        } else {
            (self, Err(ErrorView::MountOrder { target }))
        }
    }

    /// The plan that unmounts everything that is recorded, the last mount
    /// first.
    pub open spec fn teardown_plan(self) -> PlanView {
        PlanView::of(
            Seq::new(
                self.entries.len(),
                |i: int| unmount_step(self.entries[self.entries.len() - 1 - i].target),
            ),
        )
    }
}

/// A mount that is admitted keeps the order rules of the record.
pub proof fn lemma_mount_keeps_order(
    state: MountsView,
    role: MountRole,
    source: Seq<char>,
    target: Seq<char>,
    options: Seq<char>,
)
    requires
        state.wf(),
    ensures
        state.mount(role, source, target, options).0.wf(),
{
    let after = state.mount(role, source, target, options).0;
    if state.admits(role, target) {
        let n = state.entries.len() as int;
        assert forall|i: int, j: int| 0 <= i < j < after.entries.len() implies (#[trigger] after.entries[i]).target
            != (#[trigger] after.entries[j]).target && !under(after.entries[i].target, after.entries[j].target) by {
            if j < n {
                assert(after.entries[i] == state.entries[i]);
                assert(after.entries[j] == state.entries[j]);
            } else {
                assert(after.entries[i] == state.entries[i]);
            }
        }
        assert forall|i: int| 0 < i < after.entries.len() implies (#[trigger] after.entries[i]).role
            != MountRole::Root && under(after.entries[i].target, after.entries[0].target) by {
            if i < n {
                assert(after.entries[i] == state.entries[i]);
            }
        }
    }
}

/// Mounts and unmounts are balanced: the plan that takes everything down
/// holds exactly one unmount for each recorded mount, in the reverse of the
/// order in which the mounts were recorded.
pub proof fn lemma_teardown_balanced(state: MountsView)
    ensures
        state.teardown_plan().steps.len() == state.entries.len(),
        forall|i: int|
            0 <= i < state.entries.len() ==> #[trigger] state.teardown_plan().steps[i] == unmount_step(
                state.entries[state.entries.len() - 1 - i].target,
            ),
        forall|i: int|
            0 <= i < state.entries.len() ==> state.teardown_plan().actions()[state.entries.len() - 1 - i]
                == ActionView::Run(umount_command((#[trigger] state.entries[i]).target)),
{
}

/// A mount that is recorded last is unmounted first: taking down the record
/// with one more mount is unmounting that mount and then taking down the
/// record as it was.
pub proof fn lemma_mount_then_teardown(
    state: MountsView,
    role: MountRole,
    source: Seq<char>,
    target: Seq<char>,
    options: Seq<char>,
)
    requires
        state.admits(role, target),
    ensures
        state.mount(role, source, target, options).0.teardown_plan().steps == seq![unmount_step(target)]
            + state.teardown_plan().steps,
{
    let after = state.mount(role, source, target, options).0;
    assert(after.teardown_plan().steps =~= seq![unmount_step(target)] + state.teardown_plan().steps);
}

/// The record of what is mounted.
#[derive(Debug)]
pub struct MountPlan {
    entries: Vec<MountEntry>,
}

impl View for MountPlan {
    type V = MountsView;

    closed spec fn view(&self) -> MountsView {
        MountsView { entries: views(self.entries@) }
    }
}

/// The view of what a request to mount gives.
pub open spec fn view_step_result(r: Result<Step, InstallError>) -> Result<StepView, ErrorView> {
    match r {
        Ok(step) => Ok(step@),
        Err(error) => Err(error@),
    }
}

impl MountPlan {
    /// The record in which nothing is mounted.
    pub fn new() -> (r: MountPlan)
        ensures
            r@.entries.len() == 0,
            r@.wf(),
    {
        MountPlan { entries: Vec::new() }
    }

    /// The number of recorded mounts.
    pub fn len(&self) -> (r: usize)
        ensures
            r == self@.entries.len(),
    {
        self.entries.len()
    }

    /// The recorded mounts, in the order of mounting.
    pub fn entries(&self) -> (r: &Vec<MountEntry>)
        ensures
            views(r@) == self@.entries,
    {
        &self.entries
    }

    /// Whether something is recorded as mounted at `target`.
    pub fn has_target(&self, target: &str) -> (r: bool)
        ensures
            r == self@.has_target(target@),
    {
        let mut i: usize = 0;
        while i < self.entries.len()
            invariant
                i <= self.entries.len(),
                forall|k: int| 0 <= k < i ==> (#[trigger] self@.entries[k]).target != target@,
            decreases self.entries.len() - i,
        {
            if same(self.entries[i].target.as_str(), target) {
                assert(self@.entries[i as int].target == target@);
                return true;
            }
            i += 1;
        }
        false
    }

    /// Whether a mount of `role` at `target` may come next.
    pub fn admits(&self, role: MountRole, target: &str) -> (r: bool)
        ensures
            r == self@.admits(role, target@),
    {
        if self.entries.len() == 0 {
            return role == MountRole::Root && starts_with(target, "/");
        }
        if role == MountRole::Root {
            return false;
        }
        if !is_under(target, self.entries[0].target.as_str()) {
            return false;
        }
        let mut i: usize = 0;
        while i < self.entries.len()
            invariant
                i <= self.entries.len(),
                forall|k: int|
                    0 <= k < i ==> (#[trigger] self@.entries[k]).target != target@ && !under(
                        self@.entries[k].target,
                        target@,
                    ),
            decreases self.entries.len() - i,
        {
            let other = self.entries[i].target.as_str();
            if same(other, target) || is_under(other, target) {
                assert(self@.entries[i as int].target == other@);
                return false;
            }
            i += 1;
        }
        true
    }
}

/// Builds the steps that format, mount and unmount, and keeps the record
/// of what is mounted.
#[derive(Debug)]
pub struct FilesystemManager {
    mounts: MountPlan,
}

impl View for FilesystemManager {
    type V = MountsView;

    closed spec fn view(&self) -> MountsView {
        self.mounts@
    }
}

impl FilesystemManager {
    /// A manager with nothing mounted.
    pub fn new() -> (r: FilesystemManager)
        ensures
            r@.entries.len() == 0,
            r@.wf(),
    {
        FilesystemManager { mounts: MountPlan::new() }
    }

    /// The record of what is mounted.
    pub fn mounts(&self) -> (r: &MountPlan)
        ensures
            r@ == self@,
    {
        &self.mounts
    }

    /// Hands out the record of what is mounted.
    pub fn into_mounts(self) -> (r: MountPlan)
        ensures
            r@ == self@,
    {
        self.mounts
    }

    /// The step that creates a filesystem of `fs_type` on `path`.
    pub fn format(&self, path: &str, fs_type: FsType) -> (r: Step)
        ensures
            r@ == mkfs_step(path@, fs_type),
    {
        match fs_type {
            FsType::Fat32 => Step::run(Command::new("mkfs.fat").arg("-F32").arg(path), Failure::Device),
            FsType::Ext4 => Step::run(Command::new("mkfs.ext4").arg(path), Failure::Device),
            FsType::Btrfs => Step::run(Command::new("mkfs.btrfs").arg(path), Failure::Device),
        }
    }

    /// The step that mounts `source` at `target`, recorded so that it can be
    /// unmounted later. A mount that breaks the order of the record is
    /// refused with `MountOrder` and not recorded.
    pub fn mount(&mut self, role: MountRole, source: &str, target: &str, options: &str) -> (r: Result<
        Step,
        InstallError,
    >)
        ensures
            (final(self)@, view_step_result(r)) == old(self)@.mount(role, source@, target@, options@),
            old(self)@.wf() ==> final(self)@.wf(),
    {
        proof {
            if old(self)@.wf() {
                lemma_mount_keeps_order(old(self)@, role, source@, target@, options@);
            }
        }
        if !self.mounts.admits(role, target) {
            return Err(InstallError::MountOrder { target: String::from_str(target) });
        }
        let command = if options.unicode_len() == 0 {
            Command::new("mount").arg(source).arg(target)
        } else {
            Command::new("mount").arg("-o").arg(options).arg(source).arg(target)
        };
        let step = Step {
            action: Action::Run(command),
            expect: Expect::Success(Failure::Device),
            undo: Some(Action::Run(Command::new("umount").arg(target))),
        };
        let entry = MountEntry {
            role,
            source: String::from_str(source),
            target: String::from_str(target),
            options: String::from_str(options),
        };
        let ghost before = self.mounts.entries@;
        self.mounts.entries.push(entry);
        proof {
            lemma_views_push(before, entry);
        }
        Ok(step)
    }

    /// The plan that creates the subvolumes `names` below `root_mount`, in
    /// the order given. It is refused with `NotMounted` unless something is
    /// recorded as mounted at `root_mount`.
    pub fn create_subvolumes(&self, root_mount: &str, names: &[&str]) -> (r: Result<Plan, InstallError>)
        ensures
            match r {
                Ok(plan) => self@.has_target(root_mount@) && plan@ == subvolume_plan(root_mount@, views(names@)),
                Err(error) => !self@.has_target(root_mount@) && error@ == (ErrorView::NotMounted {
                    path: root_mount@,
                }),
            },
    {
        if !self.mounts.has_target(root_mount) {
            return Err(InstallError::NotMounted { path: String::from_str(root_mount) });
        }
        let mut plan = Plan::new(Unwind::Never);
        let mut i: usize = 0;
        proof {
            assert(subvolume_plan(root_mount@, views(names@).take(0)).steps =~= Seq::<StepView>::empty());
        }
        while i < names.len()
            invariant
                i <= names.len(),
                plan@ == subvolume_plan(root_mount@, views(names@).take(i as int)),
            decreases names.len() - i,
        {
            let path = join_path(root_mount, names[i]);
            plan.push(
                Step::run(
                    Command::new("btrfs").arg("subvolume").arg("create").arg(path.as_str()),
                    Failure::Device,
                ),
            );
            proof {
                let all = views(names@);
                assert(subvolume_plan(root_mount@, all.take(i + 1)).steps =~= subvolume_plan(
                    root_mount@,
                    all.take(i as int),
                ).steps.push(subvolume_step(root_mount@, all[i as int])));
            }
            i += 1;
        }
        proof {
            assert(views(names@).take(names.len() as int) =~= views(names@));
        }
        Ok(plan)
    }

    /// The plan that unmounts everything that is recorded, the last mount
    /// first. The record is empty afterwards.
    pub fn teardown(&mut self) -> (plan: Plan)
        ensures
            plan@ == old(self)@.teardown_plan(),
            final(self)@.entries.len() == 0,
            final(self)@.wf(),
    {
        let plan = teardown_of(&self.mounts);
        self.mounts = MountPlan::new();
        plan
    }
}

/// The plan that unmounts everything that `mounts` records, the last mount
/// first.
pub fn teardown_of(mounts: &MountPlan) -> (plan: Plan)
    ensures
        plan@ == mounts@.teardown_plan(),
{
    let n = mounts.len();
    let entries = mounts.entries();
    let mut plan = Plan::new(Unwind::Never);
    let mut i: usize = 0;
    while i < n
        invariant
            i <= n,
            n == entries@.len(),
            views(entries@) == mounts@.entries,
            plan@.unwind == Unwind::Never,
            plan@.check is None,
            plan@.steps.len() == i,
            forall|k: int| 0 <= k < i ==> plan@.steps[k] == unmount_step(mounts@.entries[n - 1 - k].target),
        decreases n - i,
    {
        let entry = &entries[n - 1 - i];
        plan.push(Step::attempt(Command::new("umount").arg(entry.target.as_str())));
        i += 1;
    }
    proof {
        assert(plan@.steps =~= mounts@.teardown_plan().steps);
    }
    plan
}

} // verus!
