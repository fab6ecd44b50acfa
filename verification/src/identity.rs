//! The identity of the process and its file-creation mask: what a test case
//! may change for a while, and the steps that change it and put it back.
//!
//! Nothing here performs a step. A switch hands out the steps to take, in
//! order; the caller performs them and reports how far it got.

use crate::config::auth::AuthEntryView;
use crate::pool::Principal;
use vstd::prelude::*;

verus! {

/// The part of a process's credentials that a test case may change: the
/// effective user id, the effective group id and the supplementary groups.
#[derive(Debug, PartialEq, Eq)]
pub struct Identity {
    pub euid: u32,
    pub egid: u32,
    pub groups: Vec<u32>,
}

/// `Identity` with its groups as a sequence.
pub struct IdentityView {
    pub euid: u32,
    pub egid: u32,
    pub groups: Seq<u32>,
}

impl View for Identity {
    type V = IdentityView;

    open spec fn view(&self) -> IdentityView {
        IdentityView { euid: self.euid, egid: self.egid, groups: self.groups@ }
    }
}

impl Clone for Identity {
    fn clone(&self) -> (copy: Self)
        ensures
            copy@ == self@,
    {
        Identity { euid: self.euid, egid: self.egid, groups: self.groups.clone() }
    }
}

/// One change to the identity of the process.
#[derive(Debug, PartialEq, Eq)]
pub enum IdentityStep {
    /// Replace the supplementary groups.
    SetGroups(Vec<u32>),
    /// Replace the effective group id.
    SetEgid(u32),
    /// Replace the effective user id.
    SetEuid(u32),
}

/// `IdentityStep` with its groups as a sequence.
pub enum IdentityChange {
    SetGroups(Seq<u32>),
    SetEgid(u32),
    SetEuid(u32),
}

impl View for IdentityStep {
    type V = IdentityChange;

    open spec fn view(&self) -> IdentityChange {
        match self {
            IdentityStep::SetGroups(groups) => IdentityChange::SetGroups(groups@),
            IdentityStep::SetEgid(gid) => IdentityChange::SetEgid(*gid),
            IdentityStep::SetEuid(uid) => IdentityChange::SetEuid(*uid),
        }
    }
}

impl IdentityChange {
    /// The identity after this change, when it succeeds.
    pub open spec fn apply(self, id: IdentityView) -> IdentityView {
        match self {
            IdentityChange::SetGroups(groups) => IdentityView { groups, ..id },
            IdentityChange::SetEgid(egid) => IdentityView { egid, ..id },
            IdentityChange::SetEuid(euid) => IdentityView { euid, ..id },
        }
    }

    /// Whether a process with identity `id` and real user and group ids
    /// `real_uid` and `real_gid` is sure to be allowed this change: the
    /// super-user may change anything, everyone else may only go back to the
    /// real ids, and never touch the supplementary groups.
    pub open spec fn permitted(self, id: IdentityView, real_uid: u32, real_gid: u32) -> bool {
        match self {
            IdentityChange::SetGroups(_) => id.euid == 0,
            IdentityChange::SetEgid(egid) => id.euid == 0 || egid == real_gid,
            IdentityChange::SetEuid(euid) => id.euid == 0 || euid == real_uid,
        }
    }
}

/// The identity after `changes` have succeeded one after the other.
pub open spec fn apply_all(changes: Seq<IdentityChange>, id: IdentityView) -> IdentityView
    decreases changes.len(),
{
    if changes.len() == 0 {
        id
    } else {
        changes.last().apply(apply_all(changes.drop_last(), id))
    }
}

/// Whether each of `changes` is permitted at the time it is made, when they
/// are made one after the other starting from `id`.
pub open spec fn all_permitted(
    changes: Seq<IdentityChange>,
    id: IdentityView,
    real_uid: u32,
    real_gid: u32,
) -> bool
    decreases changes.len(),
{
    if changes.len() == 0 {
        true
    } else {
        all_permitted(changes.drop_last(), id, real_uid, real_gid) && changes.last().permitted(
            apply_all(changes.drop_last(), id),
            real_uid,
            real_gid,
        )
    }
}

/// `steps` as a sequence of changes.
pub open spec fn changes_of(steps: Seq<IdentityStep>) -> Seq<IdentityChange> {
    steps.map_values(|step: IdentityStep| step@)
}

/// The identity that acting as `principal` with `groups` means.
///
/// The user is the principal's. Without `groups` the principal's own group
/// is both the effective group and the only supplementary group. With
/// `groups` they are the supplementary groups and the first of them is the
/// effective group; an empty list leaves the principal's own group as the
/// effective group.
pub open spec fn target_identity(principal: AuthEntryView, groups: Option<Seq<u32>>) -> IdentityView {
    match groups {
        None => IdentityView {
            euid: principal.user.uid,
            egid: principal.user.gid,
            groups: seq![principal.user.gid],
        },
        Some(groups) => IdentityView {
            euid: principal.user.uid,
            egid: if groups.len() > 0 {
                groups[0]
            } else {
                principal.user.gid
            },
            groups,
        },
    }
}

/// The changes that lead to `target`: the supplementary groups first, then
/// the group, then the user.
pub open spec fn enter_changes(target: IdentityView) -> Seq<IdentityChange> {
    seq![
        IdentityChange::SetGroups(target.groups),
        IdentityChange::SetEgid(target.egid),
        IdentityChange::SetEuid(target.euid),
    ]
}

/// The changes that lead back to `saved`: the user first, then the group,
/// then the supplementary groups.
pub open spec fn restore_changes(saved: IdentityView) -> Seq<IdentityChange> {
    seq![
        IdentityChange::SetEuid(saved.euid),
        IdentityChange::SetEgid(saved.egid),
        IdentityChange::SetGroups(saved.groups),
    ]
}

/// A groups argument as a sequence.
pub open spec fn groups_view(groups: Option<&Vec<u32>>) -> Option<Seq<u32>> {
    match groups {
        Some(groups) => Some(groups@),
        None => None,
    }
}

/// How a switch ended.
#[derive(Clone, Copy, Debug, PartialEq, Eq, Structural)]
pub enum SwitchEnd {
    /// The work ran under the new identity, and the identity is back.
    Restored,
    /// A step into the new identity failed. The steps before it are undone,
    /// and the work did not run.
    NotEntered,
    /// A step back failed: the identity may not be what it was.
    Stuck,
}

/// How far a switch has come.
#[derive(Clone, Copy, Debug, PartialEq, Eq, Structural)]
pub enum SwitchPhase {
    /// Nothing has been done.
    Ready,
    /// The step into the new identity with this number is being taken.
    Entering(usize),
    /// The work is running under the new identity.
    Working,
    /// The step back with this number is being taken, after the work.
    Restoring(usize),
    /// The step back with this number is being taken, because a step into
    /// the new identity failed.
    Undoing(usize),
    /// The switch is over.
    Finished(SwitchEnd),
}

/// What the caller of a switch is to do next.
#[derive(Debug, PartialEq, Eq)]
pub enum SwitchAction {
    /// Take this step, and report with `step_done` whether it succeeded.
    Perform(IdentityStep),
    /// Run the work, and report with `work_done` when it is over, however
    /// it went.
    Work,
    /// Nothing: the switch is over, and ended like this.
    Finish(SwitchEnd),
}

/// `SwitchAction` with the groups of its step as a sequence.
pub enum SwitchActionView {
    Perform(IdentityChange),
    Work,
    Finish(SwitchEnd),
}

impl View for SwitchAction {
    type V = SwitchActionView;

    open spec fn view(&self) -> SwitchActionView {
        match self {
            SwitchAction::Perform(step) => SwitchActionView::Perform(step@),
            SwitchAction::Work => SwitchActionView::Work,
            SwitchAction::Finish(end) => SwitchActionView::Finish(*end),
        }
    }
}

/// A switch as contracts see it.
pub struct SwitchView {
    /// The identity to come back to.
    pub saved: IdentityView,
    /// The identity to switch to.
    pub target: IdentityView,
    /// How far the switch has come.
    pub phase: SwitchPhase,
    /// Whether a step back has failed.
    pub stuck: bool,
}

impl SwitchView {
    /// The numbers in the phase name steps that exist, and undoing starts
    /// after the first step back at the earliest.
    pub open spec fn wf(self) -> bool {
        match self.phase {
            SwitchPhase::Entering(k) => k < 3 && !self.stuck,
            SwitchPhase::Restoring(i) => i < 3,
            SwitchPhase::Undoing(i) => 1 <= i < 3,
            SwitchPhase::Ready | SwitchPhase::Working => !self.stuck,
            SwitchPhase::Finished(end) => self.stuck <==> end == SwitchEnd::Stuck,
        }
    }

    /// The step that is being taken, if one is.
    pub open spec fn pending(self) -> Option<IdentityChange> {
        match self.phase {
            SwitchPhase::Entering(k) => Some(enter_changes(self.target)[k as int]),
            SwitchPhase::Restoring(i) => Some(restore_changes(self.saved)[i as int]),
            SwitchPhase::Undoing(i) => Some(restore_changes(self.saved)[i as int]),
            _ => None,
        }
    }

    /// The switch in another phase.
    pub open spec fn at(self, phase: SwitchPhase) -> SwitchView {
        SwitchView { phase, ..self }
    }

    /// Starting: the first step into the new identity is next.
    pub open spec fn begin(self) -> (SwitchView, SwitchActionView) {
        (
            self.at(SwitchPhase::Entering(0)),
            SwitchActionView::Perform(enter_changes(self.target)[0]),
        )
    }

    /// The end of a switch whose last step back has been taken.
    pub open spec fn end_of(stuck: bool, entered: bool) -> SwitchEnd {
        if stuck {
            SwitchEnd::Stuck
        } else if entered {
            SwitchEnd::Restored
        } else {
            SwitchEnd::NotEntered
        }
    }

    /// What follows the step that was being taken, given whether it
    /// succeeded.
    ///
    /// On the way in, success leads to the next step in, or after the last
    /// one to the work; failure leads to the steps back that undo the steps
    /// taken so far, or to the end if there were none. On the way back,
    /// every step is followed by the next, whether it succeeded or not, and
    /// the last one by the end; a failure is remembered.
    pub open spec fn step_done(self, ok: bool) -> (SwitchView, SwitchActionView) {
        match self.phase {
            SwitchPhase::Entering(k) => if ok {
                if k == 2 {
                    (self.at(SwitchPhase::Working), SwitchActionView::Work)
                } else {
                    (
                        self.at(SwitchPhase::Entering((k + 1) as usize)),
                        SwitchActionView::Perform(enter_changes(self.target)[k + 1]),
                    )
                }
            } else {
                if k == 0 {
                    (
                        self.at(SwitchPhase::Finished(SwitchEnd::NotEntered)),
                        SwitchActionView::Finish(SwitchEnd::NotEntered),
                    )
                } else {
                    (
                        self.at(SwitchPhase::Undoing((3 - k) as usize)),
                        SwitchActionView::Perform(restore_changes(self.saved)[3 - k]),
                    )
                }
            },
            SwitchPhase::Restoring(i) => {
                let stuck = self.stuck || !ok;
                if i == 2 {
                    let end = Self::end_of(stuck, true);
                    (
                        SwitchView { phase: SwitchPhase::Finished(end), stuck, ..self },
                        SwitchActionView::Finish(end),
                    )
                } else {
                    (
                        SwitchView { phase: SwitchPhase::Restoring((i + 1) as usize), stuck, ..self },
                        SwitchActionView::Perform(restore_changes(self.saved)[i + 1]),
                    )
                }
            },
            SwitchPhase::Undoing(i) => {
                let stuck = self.stuck || !ok;
                if i == 2 {
                    let end = Self::end_of(stuck, false);
                    (
                        SwitchView { phase: SwitchPhase::Finished(end), stuck, ..self },
                        SwitchActionView::Finish(end),
                    )
                } else {
                    (
                        SwitchView { phase: SwitchPhase::Undoing((i + 1) as usize), stuck, ..self },
                        SwitchActionView::Perform(restore_changes(self.saved)[i + 1]),
                    )
                }
            },
            _ => (self, SwitchActionView::Finish(SwitchEnd::Stuck)),
        }
    }

    /// What follows the work, however it went: the first step back.
    pub open spec fn work_done(self) -> (SwitchView, SwitchActionView) {
        (
            self.at(SwitchPhase::Restoring(0)),
            SwitchActionView::Perform(restore_changes(self.saved)[0]),
        )
    }

    /// Whether a process whose identity is `identity` is where this switch
    /// takes it to be, if every step did what was reported of it.
    ///
    /// The three parts of an identity are put back in the order user, group,
    /// supplementary groups, and changed in the opposite order. Before
    /// anything is done the identity is the saved one. On the way in, the
    /// parts already changed are those of the target and the others are
    /// still the saved ones. During the work the identity is anything. On the way
    /// back, the parts already put back are the saved ones, unless a step
    /// back failed. At the end the identity is the saved one, unless the
    /// switch is stuck.
    pub open spec fn consistent(self, identity: IdentityView) -> bool {
        match self.phase {
            SwitchPhase::Ready => identity == self.saved,
            SwitchPhase::Entering(k) => restored_up_to(identity, self.saved, 3 - k)
                && entered_up_to(identity, self.target, k as int),
            SwitchPhase::Working => true,
            SwitchPhase::Restoring(i) => self.stuck || restored_up_to(identity, self.saved, i as int),
            SwitchPhase::Undoing(i) => self.stuck || restored_up_to(identity, self.saved, i as int),
            SwitchPhase::Finished(end) => end == SwitchEnd::Stuck || identity == self.saved,
        }
    }
}

/// Whether the first `parts` parts of `identity`, in the order user, group,
/// supplementary groups, are those of `saved`.
pub open spec fn restored_up_to(identity: IdentityView, saved: IdentityView, parts: int) -> bool {
    &&& parts > 0 ==> identity.euid == saved.euid
    &&& parts > 1 ==> identity.egid == saved.egid
    &&& parts > 2 ==> identity.groups == saved.groups
}

/// Whether the first `parts` parts of `identity`, in the order supplementary
/// groups, group, user, are those of `target`.
pub open spec fn entered_up_to(identity: IdentityView, target: IdentityView, parts: int) -> bool {
    &&& parts > 0 ==> identity.groups == target.groups
    &&& parts > 1 ==> identity.egid == target.egid
    &&& parts > 2 ==> identity.euid == target.euid
}

/// The identity of a process after it tried `change`: changed if the
/// attempt succeeded, the same if it failed.
pub open spec fn attempted(identity: IdentityView, change: IdentityChange, ok: bool) -> IdentityView {
    if ok {
        change.apply(identity)
    } else {
        identity
    }
}

/// A switch of the process's identity to that of a principal, and back.
///
/// The switch remembers the identity that the process had before, and says
/// step by step what to do: `begin` names the first step into the new
/// identity; `step_done` takes the result of a step and names what follows;
/// `work_done` is to be called when the work under the new identity is over,
/// whether it succeeded or failed, and names the first step back.
#[derive(Debug)]
pub struct IdentitySwitch {
    saved: Identity,
    target: Identity,
    phase: SwitchPhase,
    stuck: bool,
}

impl View for IdentitySwitch {
    type V = SwitchView;

    closed spec fn view(&self) -> SwitchView {
        SwitchView {
            saved: self.saved@,
            target: self.target@,
            phase: self.phase,
            stuck: self.stuck,
        }
    }
}

impl IdentitySwitch {
    /// The identity to come back to.
    pub open spec fn saved(&self) -> IdentityView {
        self@.saved
    }

    /// The identity to switch to.
    pub open spec fn target(&self) -> IdentityView {
        self@.target
    }

    /// Plans the switch of a process whose identity is `current` to
    /// `principal`, with `groups` as its supplementary groups.
    pub(crate) fn new(current: Identity, principal: &Principal, groups: Option<&Vec<u32>>) -> (switch:
        IdentitySwitch)
        ensures
            switch@ == (SwitchView {
                saved: current@,
                target: target_identity(principal@, groups_view(groups)),
                phase: SwitchPhase::Ready,
                stuck: false,
            }),
            switch@.wf(),
    {
        let target: Identity = match groups {
            None => {
                let mut own: Vec<u32> = Vec::new();
                own.push(principal.user.gid);
                assert(own@ =~= seq![principal.user.gid]);
                Identity { euid: principal.user.uid, egid: principal.user.gid, groups: own }
            },
            Some(groups) => {
                let egid: u32 = if groups.len() > 0 {
                    groups[0]
                } else {
                    principal.user.gid
                };
                Identity { euid: principal.user.uid, egid, groups: groups.clone() }
            },
        };
        IdentitySwitch { saved: current, target, phase: SwitchPhase::Ready, stuck: false }
    }

    /// How far the switch has come.
    pub fn phase(&self) -> (phase: SwitchPhase)
        ensures
            phase == self@.phase,
    {
        self.phase
    }

    /// The step into the new identity with number `k`.
    fn enter_step(&self, k: usize) -> (step: IdentityStep)
        requires
            k < 3,
        ensures
            step@ == enter_changes(self@.target)[k as int],
    {
        if k == 0 {
            IdentityStep::SetGroups(self.target.groups.clone())
        } else if k == 1 {
            IdentityStep::SetEgid(self.target.egid)
        } else {
            IdentityStep::SetEuid(self.target.euid)
        }
    }

    /// The step back with number `i`.
    fn restore_step(&self, i: usize) -> (step: IdentityStep)
        requires
            i < 3,
        ensures
            step@ == restore_changes(self@.saved)[i as int],
    {
        if i == 0 {
            IdentityStep::SetEuid(self.saved.euid)
        } else if i == 1 {
            IdentityStep::SetEgid(self.saved.egid)
        } else {
            IdentityStep::SetGroups(self.saved.groups.clone())
        }
    }

    /// Starts the switch: names the first step into the new identity.
    pub fn begin(&mut self) -> (action: SwitchAction)
        requires
            old(self)@.wf(),
            old(self)@.phase == SwitchPhase::Ready,
        ensures
            final(self)@.wf(),
            (final(self)@, action@) == old(self)@.begin(),
    {
        self.phase = SwitchPhase::Entering(0);
        SwitchAction::Perform(self.enter_step(0))
    }

    /// Takes the result of the step that was being taken, and names what
    /// follows.
    pub fn step_done(&mut self, ok: bool) -> (action: SwitchAction)
        requires
            old(self)@.wf(),
            old(self)@.pending() is Some,
        ensures
            final(self)@.wf(),
            (final(self)@, action@) == old(self)@.step_done(ok),
    {
        match self.phase {
            SwitchPhase::Entering(k) => {
                if ok {
                    if k == 2 {
                        self.phase = SwitchPhase::Working;
                        SwitchAction::Work
                    } else {
                        self.phase = SwitchPhase::Entering(k + 1);
                        SwitchAction::Perform(self.enter_step(k + 1))
                    }
                } else if k == 0 {
                    self.phase = SwitchPhase::Finished(SwitchEnd::NotEntered);
                    SwitchAction::Finish(SwitchEnd::NotEntered)
                } else {
                    self.phase = SwitchPhase::Undoing(3 - k);
                    SwitchAction::Perform(self.restore_step(3 - k))
                }
            },
            SwitchPhase::Restoring(i) => {
                self.stuck = self.stuck || !ok;
                if i == 2 {
                    let end: SwitchEnd = if self.stuck {
                        SwitchEnd::Stuck
                    } else {
                        SwitchEnd::Restored
                    };
                    self.phase = SwitchPhase::Finished(end);
                    SwitchAction::Finish(end)
                } else {
                    self.phase = SwitchPhase::Restoring(i + 1);
                    SwitchAction::Perform(self.restore_step(i + 1))
                }
            },
            SwitchPhase::Undoing(i) => {
                self.stuck = self.stuck || !ok;
                if i == 2 {
                    let end: SwitchEnd = if self.stuck {
                        SwitchEnd::Stuck
                    } else {
                        SwitchEnd::NotEntered
                    };
                    self.phase = SwitchPhase::Finished(end);
                    SwitchAction::Finish(end)
                } else {
                    self.phase = SwitchPhase::Undoing(i + 1);
                    SwitchAction::Perform(self.restore_step(i + 1))
                }
            },
            _ => SwitchAction::Finish(SwitchEnd::Stuck),
        }
    }

    /// Takes note that the work is over, however it went, and names the
    /// first step back.
    pub fn work_done(&mut self) -> (action: SwitchAction)
        requires
            old(self)@.wf(),
            old(self)@.phase == SwitchPhase::Working,
        ensures
            final(self)@.wf(),
            (final(self)@, action@) == old(self)@.work_done(),
    {
        self.phase = SwitchPhase::Restoring(0);
        SwitchAction::Perform(self.restore_step(0))
    }

    /// The identity that the process had before the switch.
    pub fn saved_identity(&self) -> (saved: &Identity)
        ensures
            saved@ == self.saved(),
    {
        &self.saved
    }

    /// The identity that the work runs under.
    pub fn target_identity(&self) -> (target: &Identity)
        ensures
            target@ == self.target(),
    {
        &self.target
    }

    /// The steps into the new identity: supplementary groups, then group,
    /// then user. Taken from the saved identity, they lead to the target.
    pub fn enter_steps(&self) -> (steps: Vec<IdentityStep>)
        ensures
            changes_of(steps@) == enter_changes(self.target()),
            apply_all(changes_of(steps@), self.saved()) == self.target(),
    {
        let mut steps: Vec<IdentityStep> = Vec::new();
        steps.push(IdentityStep::SetGroups(self.target.groups.clone()));
        steps.push(IdentityStep::SetEgid(self.target.egid));
        steps.push(IdentityStep::SetEuid(self.target.euid));
        proof {
            assert(changes_of(steps@) =~= enter_changes(self.target()));
            lemma_enter_reaches_target(self.saved(), self.target());
        }
        steps
    }

    /// The steps back to the saved identity: user, then group, then
    /// supplementary groups. Whatever the identity is when they are taken,
    /// they lead to the saved one.
    pub fn restore_steps(&self) -> (steps: Vec<IdentityStep>)
        ensures
            changes_of(steps@) == restore_changes(self.saved()),
            forall|during: IdentityView| #[trigger]
                apply_all(changes_of(steps@), during) == self.saved(),
    {
        let mut steps: Vec<IdentityStep> = Vec::new();
        steps.push(IdentityStep::SetEuid(self.saved.euid));
        steps.push(IdentityStep::SetEgid(self.saved.egid));
        steps.push(IdentityStep::SetGroups(self.saved.groups.clone()));
        proof {
            assert(changes_of(steps@) =~= restore_changes(self.saved()));
            assert forall|during: IdentityView| #[trigger]
                apply_all(restore_changes(self.saved()), during) == self.saved() by {
                lemma_restore_reaches_saved(self.saved(), during);
            }
        }
        steps
    }
}

/// Unfolds `apply_all` on up to three changes.
proof fn lemma_apply_three(changes: Seq<IdentityChange>, id: IdentityView)
    requires
        changes.len() <= 3,
    ensures
        changes.len() == 0 ==> apply_all(changes, id) == id,
        changes.len() == 1 ==> apply_all(changes, id) == changes[0].apply(id),
        changes.len() == 2 ==> apply_all(changes, id) == changes[1].apply(changes[0].apply(id)),
        changes.len() == 3 ==> apply_all(changes, id) == changes[2].apply(
            changes[1].apply(changes[0].apply(id)),
        ),
    decreases changes.len(),
{
    if changes.len() > 0 {
        lemma_apply_three(changes.drop_last(), id);
    }
}

/// Entering from any identity leads to the target of the switch.
pub proof fn lemma_enter_reaches_target(from: IdentityView, target: IdentityView)
    ensures
        apply_all(enter_changes(target), from) == target,
{
    lemma_apply_three(enter_changes(target), from);
}

/// The steps back lead to the saved identity from every identity.
pub proof fn lemma_restore_reaches_saved(saved: IdentityView, during: IdentityView)
    ensures
        apply_all(restore_changes(saved), during) == saved,
{
    lemma_apply_three(restore_changes(saved), during);
}

/// Acting as a principal and coming back leaves the identity of the process
/// exactly as it was, whatever happened to it in between: the steps back are
/// the same whether the work in between succeeded or failed, and they do not
/// depend on the identity they start from.
pub proof fn lemma_identity_restored(
    before: IdentityView,
    principal: AuthEntryView,
    groups: Option<Seq<u32>>,
    during: IdentityView,
)
    ensures
        apply_all(enter_changes(target_identity(principal, groups)), before) == target_identity(
            principal,
            groups,
        ),
        apply_all(restore_changes(before), during) == before,
        apply_all(
            restore_changes(before),
            apply_all(enter_changes(target_identity(principal, groups)), before),
        ) == before,
{
    let target = target_identity(principal, groups);
    lemma_enter_reaches_target(before, target);
    lemma_restore_reaches_saved(before, during);
    lemma_restore_reaches_saved(before, target);
}

/// For a process that runs as the super-user, every step into another
/// identity and every step back is permitted when it is taken in the order
/// given.
pub proof fn lemma_order_permitted(saved: IdentityView, target: IdentityView, real_gid: u32)
    requires
        saved.euid == 0,
    ensures
        all_permitted(enter_changes(target), saved, 0, real_gid),
        all_permitted(restore_changes(saved), target, 0, real_gid),
{
    let enter = enter_changes(target);
    assert(enter.drop_last().drop_last().drop_last().len() == 0);
    lemma_apply_three(enter.drop_last(), saved);
    lemma_apply_three(enter.drop_last().drop_last(), saved);
    assert(all_permitted(enter.drop_last().drop_last().drop_last(), saved, 0, real_gid));
    assert(all_permitted(enter.drop_last().drop_last(), saved, 0, real_gid));
    assert(all_permitted(enter.drop_last(), saved, 0, real_gid));
    let restore = restore_changes(saved);
    assert(restore.drop_last().drop_last().drop_last().len() == 0);
    lemma_apply_three(restore.drop_last(), target);
    lemma_apply_three(restore.drop_last().drop_last(), target);
    assert(all_permitted(restore.drop_last().drop_last().drop_last(), target, 0, real_gid));
    assert(all_permitted(restore.drop_last().drop_last(), target, 0, real_gid));
    assert(all_permitted(restore.drop_last(), target, 0, real_gid));
}

/// Why the user comes last on the way in: once the effective user is no
/// longer the super-user, the supplementary groups can no longer be changed.
pub proof fn lemma_user_first_locks_out(saved: IdentityView, target: IdentityView, real_gid: u32)
    requires
        target.euid != 0,
    ensures
        !IdentityChange::SetGroups(target.groups).permitted(
            IdentityChange::SetEuid(target.euid).apply(saved),
            0,
            real_gid,
        ),
{
}

/// A switch never loses track of the identity of the process.
///
/// If the switch is consistent with the identity of the process, and the
/// step it named does what is reported of it, then the switch is consistent
/// with the identity afterwards. The work may leave any identity behind. So
/// when a switch ends other than stuck, the identity of the process is the
/// one it had before the switch began, whether the work succeeded or
/// failed, and whether or not the process got as far as the work.
pub proof fn lemma_switch_keeps_track(
    switch: SwitchView,
    identity: IdentityView,
    ok: bool,
    after_work: IdentityView,
)
    requires
        switch.wf(),
        switch.consistent(identity),
    ensures
        switch.phase == SwitchPhase::Ready ==> switch.begin().0.wf() && switch.begin().0.consistent(
            identity,
        ),
        switch.pending() matches Some(change) ==> switch.step_done(ok).0.wf() && switch.step_done(
            ok,
        ).0.consistent(attempted(identity, change, ok)),
        switch.phase == SwitchPhase::Working ==> switch.work_done().0.wf()
            && switch.work_done().0.consistent(after_work),
        switch.phase matches SwitchPhase::Finished(end) ==> end == SwitchEnd::Stuck || identity
            == switch.saved,
{
}

/// The work runs only under the identity asked for: when a switch names the
/// work as the next thing to do, the identity of the process is the target
/// of the switch, if every step did what was reported of it.
pub proof fn lemma_work_runs_as_target(switch: SwitchView, identity: IdentityView, ok: bool)
    requires
        switch.wf(),
        switch.consistent(identity),
        switch.pending() is Some,
        switch.step_done(ok).1 == SwitchActionView::Work,
    ensures
        ok,
        switch.phase == SwitchPhase::Entering(2),
        attempted(identity, switch.pending().unwrap(), ok) == switch.target,
{
}

} // verus!
