//! Encrypted volumes: formatting a partition, unlocking it under a mapper
//! name, and locking it again. The credentials never pass through here: the
//! unlocking tool asks the operator for them.
use vstd::prelude::*;
use crate::command::{Action, ActionView, Command, CommandView};
use crate::error::{ErrorView, InstallError};
use crate::plan::{Expect, ExpectView, Failure, FailureView, Plan, PlanView, Step, StepView, Unwind};
use crate::text::{chain, contains_text, decimal, decimal_text, lemma_views_push, remove_text, views, without};

verus! {

/// The cipher suite and the key-derivation parameters of an encrypted volume.
#[derive(Debug, PartialEq, Eq)]
pub struct CipherParams {
    /// The header format.
    pub format: String,
    /// The cipher and its mode.
    pub cipher: String,
    /// The key size in bits.
    pub key_size: u32,
    /// The hash of the key derivation.
    pub hash: String,
    /// The time spent on key derivation, in milliseconds.
    pub iter_time: u32,
}

/// Cipher parameters as plain values.
pub struct CipherView {
    pub format: Seq<char>,
    pub cipher: Seq<char>,
    pub key_size: nat,
    pub hash: Seq<char>,
    pub iter_time: nat,
}

impl View for CipherParams {
    type V = CipherView;

    open spec fn view(&self) -> CipherView {
        CipherView {
            format: self.format@,
            cipher: self.cipher@,
            key_size: self.key_size as nat,
            hash: self.hash@,
            iter_time: self.iter_time as nat,
        }
    }
}

impl CipherView {
    /// The parameters used where the operator chooses none.
    pub open spec fn standard() -> CipherView {
        CipherView {
            format: "luks2"@,
            cipher: "aes-xts-plain64"@,
            key_size: 512,
            hash: "sha512"@,
            iter_time: 5000,
        }
    }
}

impl CipherParams {
    /// The parameters used where the operator chooses none.
    pub fn standard() -> (r: CipherParams)
        ensures
            r@ == CipherView::standard(),
    {
        CipherParams {
            format: String::from_str("luks2"),
            cipher: String::from_str("aes-xts-plain64"),
            key_size: 512,
            hash: String::from_str("sha512"),
            iter_time: 5000,
        }
    }
}

impl Clone for CipherParams {
    fn clone(&self) -> (r: CipherParams)
        ensures
            r@ == self@,
    {
        CipherParams {
            format: self.format.clone(),
            cipher: self.cipher.clone(),
            key_size: self.key_size,
            hash: self.hash.clone(),
            iter_time: self.iter_time,
        }
    }
}

/// The device under which an unlocked volume appears.
pub open spec fn mapper_path(mapper_name: Seq<char>) -> Seq<char> {
    "/dev/mapper/"@ + mapper_name
}

/// An encrypted volume: the partition behind it, the name under which it is
/// unlocked, and how it is encrypted.
#[derive(Debug, PartialEq, Eq)]
pub struct EncryptedVolume {
    pub partition: String,
    pub mapper_name: String,
    pub params: CipherParams,
}

/// An encrypted volume as plain values.
pub struct VolumeView {
    pub partition: Seq<char>,
    pub mapper_name: Seq<char>,
    pub params: CipherView,
}

impl View for EncryptedVolume {
    type V = VolumeView;

    open spec fn view(&self) -> VolumeView {
        VolumeView { partition: self.partition@, mapper_name: self.mapper_name@, params: self.params@ }
    }
}

impl EncryptedVolume {
    /// The device under which the volume appears while it is unlocked.
    pub fn mapper_path(&self) -> (r: String)
        ensures
            r@ == mapper_path(self@.mapper_name),
    {
        chain("/dev/mapper/", self.mapper_name.as_str())
    }
}

/// The probe that succeeds where `partition` carries an encryption header.
pub open spec fn header_probe(partition: Seq<char>) -> StepView {
    StepView::plain(
        ActionView::Run(CommandView::new("cryptsetup"@).arg("isLuks"@).arg(partition)),
        ExpectView::Absent(ErrorView::AlreadyEncrypted { partition }),
    )
}

/// The step that writes a new encryption header to `partition`.
pub open spec fn format_step(partition: Seq<char>, params: CipherView) -> StepView {
    StepView::run(
        CommandView::new("cryptsetup"@).arg("luksFormat"@).arg("--type"@).arg(params.format).arg("--cipher"@).arg(
            params.cipher,
        ).arg("--key-size"@).arg(decimal(params.key_size)).arg("--hash"@).arg(params.hash).arg("--iter-time"@).arg(
            decimal(params.iter_time),
        ).arg(partition),
        FailureView::Device,
    )
}

/// The plan that encrypts `partition`. Without `force` it first probes for
/// a header and refuses to go on where there is one.
pub open spec fn format_plan(partition: Seq<char>, params: CipherView, force: bool) -> PlanView {
    if force {
        PlanView::of(seq![format_step(partition, params)])
    } else {
        PlanView::of(seq![header_probe(partition), format_step(partition, params)])
    }
}

/// The command that locks the volume unlocked as `mapper_name`.
pub open spec fn close_command(mapper_name: Seq<char>) -> CommandView {
    CommandView::new("cryptsetup"@).arg("close"@).arg(mapper_name)
}

/// The step that unlocks `partition` as `mapper_name`. Locking it again
/// undoes the step.
pub open spec fn open_step(partition: Seq<char>, mapper_name: Seq<char>) -> StepView {
    StepView {
        action: ActionView::Run(CommandView::new("cryptsetup"@).arg("open"@).arg(partition).arg(mapper_name)),
        expect: ExpectView::Unlock { partition },
        undo: Some(ActionView::Run(close_command(mapper_name))),
    }
}

/// The step that locks the volume unlocked as `mapper_name`.
pub open spec fn close_step(mapper_name: Seq<char>) -> StepView {
    StepView::run(close_command(mapper_name), FailureView::Device)
}

/// What an encryption manager knows.
pub struct EncryptionView {
    /// The partitions known to carry an encryption header.
    pub formatted: Seq<Seq<char>>,
    /// The mapper names of the volumes that are unlocked, in the order in
    /// which they were unlocked.
    pub open: Seq<Seq<char>>,
}

/// `list` with `item` in it: unchanged where it is there already.
pub open spec fn with_text(list: Seq<Seq<char>>, item: Seq<char>) -> Seq<Seq<char>> {
    if list.contains(item) {
        list
    } else {
        list.push(item)
    }
}

impl EncryptionView {
    /// What a request to encrypt `partition` leads to: the state afterwards,
    /// and the plan or the refusal.
    pub open spec fn format(self, partition: Seq<char>, params: CipherView, force: bool) -> (
        EncryptionView,
        Result<PlanView, ErrorView>,
    ) {
        if !force && self.formatted.contains(partition) {
            (self, Err(ErrorView::AlreadyEncrypted { partition }))
        } else {
            (
                EncryptionView { formatted: with_text(self.formatted, partition), ..self },
                Ok(format_plan(partition, params, force)),
            )
        }
    }
}

/// Encrypting a partition and at once encrypting it again, the second time
/// without force, is refused the second time: whatever was asked the first
/// time and however it ended, the second request yields `AlreadyEncrypted`
/// and no plan.
pub proof fn lemma_format_twice(
    state: EncryptionView,
    partition: Seq<char>,
    first: CipherView,
    force: bool,
    second: CipherView,
)
    ensures
        state.format(partition, first, force).0.format(partition, second, false).1 == Err::<PlanView, ErrorView>(
            ErrorView::AlreadyEncrypted { partition },
        ),
        state.format(partition, first, force).0.format(partition, second, false).0 == state.format(
            partition,
            first,
            force,
        ).0,
{
    let after = state.format(partition, first, force).0;
    if !(!force && state.formatted.contains(partition)) {
        if !state.formatted.contains(partition) {
            assert(state.formatted.push(partition).last() == partition);
        }
    }
    assert(after.formatted.contains(partition));
}

/// Where a partition carries a header that this manager does not know of,
/// the plan made without force still refuses: its first step is the probe,
/// and the probe's success is judged as `AlreadyEncrypted`.
pub proof fn lemma_probe_refuses(partition: Seq<char>, params: CipherView, output: Seq<char>)
    ensures
        format_plan(partition, params, false).steps[0].verdict(
            crate::command::OutcomeView::Exited { status: 0, output },
        ) == Some(ErrorView::AlreadyEncrypted { partition }),
{
}

/// Keeps track of the partitions that carry an encryption header and of the
/// volumes that are unlocked, and builds the steps that change either.
#[derive(Debug)]
pub struct EncryptionManager {
    formatted: Vec<String>,
    open: Vec<String>,
}

/// The view of what an operation on a manager gives.
pub open spec fn view_plan_result(r: Result<Plan, InstallError>) -> Result<PlanView, ErrorView> {
    match r {
        Ok(plan) => Ok(plan@),
        Err(error) => Err(error@),
    }
}

impl View for EncryptionManager {
    type V = EncryptionView;

    closed spec fn view(&self) -> EncryptionView {
        EncryptionView { formatted: views(self.formatted@), open: views(self.open@) }
    }
}

impl EncryptionManager {
    /// A manager that knows of no header and of no unlocked volume.
    pub fn new() -> (r: EncryptionManager)
        ensures
            r@.formatted.len() == 0,
            r@.open.len() == 0,
    {
        EncryptionManager { formatted: Vec::new(), open: Vec::new() }
    }

    /// Whether `partition` is known to carry an encryption header.
    pub fn carries_header(&self, partition: &str) -> (r: bool)
        ensures
            r == self@.formatted.contains(partition@),
    {
        contains_text(&self.formatted, partition)
    }

    /// Whether a volume is unlocked as `mapper_name`.
    pub fn is_open(&self, mapper_name: &str) -> (r: bool)
        ensures
            r == self@.open.contains(mapper_name@),
    {
        contains_text(&self.open, mapper_name)
    }

    /// The plan that encrypts `partition`. Where the partition is known to
    /// carry a header and `force` is not set, the request is refused with
    /// `AlreadyEncrypted`. Otherwise the partition counts as carrying a
    /// header from now on.
    pub fn format(&mut self, partition: &str, params: &CipherParams, force: bool) -> (r: Result<
        Plan,
        InstallError,
    >)
        ensures
            (final(self)@, view_plan_result(r)) == old(self)@.format(partition@, params@, force),
    {
        let known = contains_text(&self.formatted, partition);
        if !force && known {
            return Err(InstallError::AlreadyEncrypted { partition: String::from_str(partition) });
        }
        let mut plan = Plan::new(Unwind::Never);
        if !force {
            plan.push(
                Step::plain(
                    Action::Run(Command::new("cryptsetup").arg("isLuks").arg(partition)),
                    Expect::Absent(InstallError::AlreadyEncrypted { partition: String::from_str(partition) }),
                ),
            );
        }
        let key_size = decimal_text(params.key_size as u64);
        let iter_time = decimal_text(params.iter_time as u64);
        let command = Command::new("cryptsetup").arg("luksFormat").arg("--type").arg(params.format.as_str()).arg(
            "--cipher",
        ).arg(params.cipher.as_str()).arg("--key-size").arg(key_size.as_str()).arg("--hash").arg(
            params.hash.as_str(),
        ).arg("--iter-time").arg(iter_time.as_str()).arg(partition);
        plan.push(Step::run(command, Failure::Device));
        proof {
            assert(plan@.steps =~= format_plan(partition@, params@, force).steps);
        }
        if !known {
            let ghost before = self.formatted@;
            let owned = String::from_str(partition);
            self.formatted.push(owned);
            proof {
                lemma_views_push(before, owned);
            }
        }
        Ok(plan)
    }

    /// The step that unlocks `partition` as `mapper_name`, and the device
    /// under which the volume then appears. The volume counts as unlocked
    /// from now on.
    pub fn open(&mut self, partition: &str, mapper_name: &str) -> (r: (Step, String))
        ensures
            r.0@ == open_step(partition@, mapper_name@),
            r.1@ == mapper_path(mapper_name@),
            final(self)@.open == with_text(old(self)@.open, mapper_name@),
            final(self)@.formatted == old(self)@.formatted,
    {
        let step = Step {
            action: Action::Run(Command::new("cryptsetup").arg("open").arg(partition).arg(mapper_name)),
            expect: Expect::Unlock { partition: String::from_str(partition) },
            undo: Some(Action::Run(Command::new("cryptsetup").arg("close").arg(mapper_name))),
        };
        if !contains_text(&self.open, mapper_name) {
            let ghost before = self.open@;
            let owned = String::from_str(mapper_name);
            self.open.push(owned);
            proof {
                lemma_views_push(before, owned);
            }
        }
        (step, chain("/dev/mapper/", mapper_name))
    }

    /// The step that locks the volume unlocked as `mapper_name`. The volume
    /// no longer counts as unlocked.
    pub fn close(&mut self, mapper_name: &str) -> (r: Step)
        ensures
            r@ == close_step(mapper_name@),
            final(self)@.open == without(old(self)@.open, mapper_name@),
            final(self)@.formatted == old(self)@.formatted,
    {
        self.open = remove_text(&self.open, mapper_name);
        Step::run(Command::new("cryptsetup").arg("close").arg(mapper_name), Failure::Device)
    }

    /// The mapper names of the volumes that are unlocked, in the order in
    /// which they were unlocked.
    pub fn open_volumes(&self) -> (r: &Vec<String>)
        ensures
            views(r@) == self@.open,
    {
        &self.open
    }
}

} // verus!
