//! How far a ceremony has come, as a frontend sees it.

use vstd::prelude::*;

use crate::manager::DeviceManager;
use crate::operation::{IdentityCeremonyKind, IdentityCeremonyProgress, IdentityCeremonyStage};
use crate::state::{
    IdentitySetupJournal, IdentitySetupPhase, IdentitySetupStage, IdentitySetupSubject,
};

verus! {

/// The phase of a ceremony of some kind.
pub open spec fn phase_of(kind: IdentityCeremonyKind) -> IdentitySetupPhase {
    match kind {
        IdentityCeremonyKind::InitialEnrollment => IdentitySetupPhase::InitialEnrollment,
        IdentityCeremonyKind::AddMouse => IdentitySetupPhase::AddMouse,
        IdentityCeremonyKind::Restore => IdentitySetupPhase::Restore,
        IdentityCeremonyKind::ForeignAdoption => IdentitySetupPhase::ForeignAdoption,
        IdentityCeremonyKind::BleAssociation => IdentitySetupPhase::BleAssociation,
    }
}

pub fn ceremony_phase(kind: IdentityCeremonyKind) -> (r: IdentitySetupPhase)
    ensures
        r == phase_of(kind),
{
    match kind {
        IdentityCeremonyKind::InitialEnrollment => IdentitySetupPhase::InitialEnrollment,
        IdentityCeremonyKind::AddMouse => IdentitySetupPhase::AddMouse,
        IdentityCeremonyKind::Restore => IdentitySetupPhase::Restore,
        IdentityCeremonyKind::ForeignAdoption => IdentitySetupPhase::ForeignAdoption,
        IdentityCeremonyKind::BleAssociation => IdentitySetupPhase::BleAssociation,
    }
}

/// The mouse that is being processed: the first enrollment has two, every
/// other ceremony one.
pub open spec fn current_step(
    phase: IdentitySetupPhase,
    stage: IdentitySetupStage,
    presented: nat,
) -> u8 {
    if !(phase is InitialEnrollment) {
        1
    } else {
        match stage {
            IdentitySetupStage::AwaitingCapture => if presented == 0 {
                1
            } else {
                2
            },
            IdentitySetupStage::Stamping => if presented == 0 {
                1
            } else {
                presented as u8
            },
            IdentitySetupStage::Finalizing => 2,
        }
    }
}

/// The progress of a ceremony, about its latest subject.
pub open spec fn progress_with(
    phase: IdentitySetupPhase,
    stage: IdentitySetupStage,
    subjects: Seq<IdentitySetupSubject>,
) -> IdentityCeremonyProgress {
    IdentityCeremonyProgress {
        kind: match phase {
            IdentitySetupPhase::InitialEnrollment => IdentityCeremonyKind::InitialEnrollment,
            IdentitySetupPhase::AddMouse => IdentityCeremonyKind::AddMouse,
            IdentitySetupPhase::Restore => IdentityCeremonyKind::Restore,
            IdentitySetupPhase::ForeignAdoption => IdentityCeremonyKind::ForeignAdoption,
            IdentitySetupPhase::BleAssociation => IdentityCeremonyKind::BleAssociation,
        },
        stage: match stage {
            IdentitySetupStage::AwaitingCapture => IdentityCeremonyStage::AwaitingReconnect,
            IdentitySetupStage::Stamping => IdentityCeremonyStage::Stamping,
            IdentitySetupStage::Finalizing => IdentityCeremonyStage::Complete,
        },
        step: Some(current_step(phase, stage, subjects.len())),
        total_steps: Some(
            if phase is InitialEnrollment {
                2
            } else {
                1
            },
        ),
        identity: if subjects.len() > 0 {
            subjects.last().device_id
        } else {
            None
        },
        physical_id: if subjects.len() > 0 {
            match subjects.last().token {
                Some(token) => Some(token),
                None => subjects.last().old_token,
            }
        } else {
            None
        },
        endpoint: if subjects.len() > 0 {
            Some(subjects.last().endpoint)
        } else {
            None
        },
    }
}

/// The progress that a journal stands for.
pub open spec fn progress_of(journal: IdentitySetupJournal) -> IdentityCeremonyProgress {
    progress_with(journal.phase, journal.stage, journal.subjects@)
}

/// The same progress at another stage.
pub open spec fn progress_at(
    progress: IdentityCeremonyProgress,
    stage: IdentityCeremonyStage,
) -> IdentityCeremonyProgress {
    IdentityCeremonyProgress { stage, ..progress }
}

/// Describes the progress of a ceremony by its journal.
pub fn ceremony_progress_from_journal(journal: &IdentitySetupJournal) -> (r:
    IdentityCeremonyProgress)
    ensures
        r == progress_of(*journal),
{
    let kind = match journal.phase {
        IdentitySetupPhase::InitialEnrollment => IdentityCeremonyKind::InitialEnrollment,
        IdentitySetupPhase::AddMouse => IdentityCeremonyKind::AddMouse,
        IdentitySetupPhase::Restore => IdentityCeremonyKind::Restore,
        IdentitySetupPhase::ForeignAdoption => IdentityCeremonyKind::ForeignAdoption,
        IdentitySetupPhase::BleAssociation => IdentityCeremonyKind::BleAssociation,
    };
    let stage = match journal.stage {
        IdentitySetupStage::AwaitingCapture => IdentityCeremonyStage::AwaitingReconnect,
        IdentitySetupStage::Stamping => IdentityCeremonyStage::Stamping,
        IdentitySetupStage::Finalizing => IdentityCeremonyStage::Complete,
    };
    let count: usize = journal.subjects.len();
    let (step, total_steps): (u8, u8) = match journal.phase {
        IdentitySetupPhase::InitialEnrollment => {
            let step: u8 = match journal.stage {
                IdentitySetupStage::AwaitingCapture => if count == 0 {
                    1
                } else {
                    2
                },
                IdentitySetupStage::Stamping => if count == 0 {
                    1
                } else {
                    #[verifier::truncate]
                    (count as u8)
                },
                IdentitySetupStage::Finalizing => 2,
            };
            (step, 2)
        },
        _ => (1, 1),
    };
    if count == 0 {
        return IdentityCeremonyProgress {
            kind,
            stage,
            step: Some(step),
            total_steps: Some(total_steps),
            identity: None,
            physical_id: None,
            endpoint: None,
        };
    }
    let subject = &journal.subjects[count - 1];
    let physical_id = match subject.token {
        Some(token) => Some(token),
        None => subject.old_token,
    };
    IdentityCeremonyProgress {
        kind,
        stage,
        step: Some(step),
        total_steps: Some(total_steps),
        identity: subject.device_id.clone(),
        physical_id,
        endpoint: Some(subject.endpoint.clone()),
    }
}

impl DeviceManager {
    /// The progress of the running ceremony, if there is one. The journal is
    /// durable: after an interruption it tells which action comes next.
    pub fn identity_ceremony_progress(&self) -> (r: Option<IdentityCeremonyProgress>)
        ensures
            r == (match self.state.identity_setup {
                Some(journal) => Some(progress_of(journal)),
                None => None,
            }),
    {
        match &self.state.identity_setup {
            Some(journal) => Some(ceremony_progress_from_journal(journal)),
            None => None,
        }
    }
}

/// The progress names the ceremony and where it stands. The first enrollment
/// has two steps, one for each mouse, and every other ceremony has one. The
/// mouse that it speaks of is the one presented last, with its own token, or
/// with the one it gives up where it has none yet.
pub proof fn law_progress_tells_the_journal(
    journal: &IdentitySetupJournal,
    r: IdentityCeremonyProgress,
)
    requires
        call_ensures(ceremony_progress_from_journal, (journal,), r),
    ensures
        r.kind is InitialEnrollment <==> journal.phase is InitialEnrollment,
        r.kind is AddMouse <==> journal.phase is AddMouse,
        r.kind is Restore <==> journal.phase is Restore,
        r.kind is ForeignAdoption <==> journal.phase is ForeignAdoption,
        r.kind is BleAssociation <==> journal.phase is BleAssociation,
        r.stage is AwaitingReconnect <==> journal.stage is AwaitingCapture,
        r.stage is Stamping <==> journal.stage is Stamping,
        r.stage is Complete <==> journal.stage is Finalizing,
        !(journal.phase is InitialEnrollment) ==> r.step == Some(1u8) && r.total_steps == Some(1u8),
        journal.phase is InitialEnrollment ==> {
            &&& r.total_steps == Some(2u8)
            &&& journal.subjects@.len() == 0 && !(journal.stage is Finalizing) ==> r.step == Some(
                1u8,
            )
            &&& journal.subjects@.len() == 1 && journal.stage is Stamping ==> r.step == Some(1u8)
            &&& journal.subjects@.len() == 1 && journal.stage is AwaitingCapture ==> r.step == Some(
                2u8,
            )
            &&& journal.subjects@.len() == 2 || journal.stage is Finalizing ==> r.step == Some(2u8)
        },
        journal.subjects@.len() == 0 ==> r.identity is None && r.physical_id is None && r.endpoint
            is None,
        journal.subjects@.len() > 0 ==> {
            let last = journal.subjects@[journal.subjects@.len() - 1];
            &&& r.identity == last.device_id
            &&& r.endpoint == Some(last.endpoint)
            &&& last.token is Some ==> r.physical_id == last.token
            &&& last.token is None ==> r.physical_id == last.old_token
        },
{
}

/// The progress of the running ceremony is that of its journal, and there is
/// none without a ceremony.
pub proof fn law_progress_needs_a_ceremony(
    manager: &DeviceManager,
    journal: &IdentitySetupJournal,
    of_journal: IdentityCeremonyProgress,
    r: Option<IdentityCeremonyProgress>,
)
    requires
        call_ensures(DeviceManager::identity_ceremony_progress, (manager,), r),
        call_ensures(ceremony_progress_from_journal, (journal,), of_journal),
    ensures
        r is None <==> manager.state.identity_setup is None,
        manager.state.identity_setup == Some(*journal) ==> r == Some(of_journal),
{
}

} // verus!
