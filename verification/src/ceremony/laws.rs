//! What ceremonies as a whole keep.

use vstd::prelude::*;

use crate::ceremony::begin::{begin_refusal, is_opened};
use crate::ceremony::finalize::{enrolled_key, finalize_refusal, finalized};
use crate::ceremony::progress::phase_of;
use crate::ceremony::reconnect::awaits_mouse;
use crate::ceremony::stamp::{
    law_stamped_profiles_are_never_rewritten, pending_profiles, StampRun,
};
use crate::ceremony::steps::{awaits_migration_choice, is_irreversible};
use crate::device::logical_key;
use crate::discovery::resolution::{
    is_known, law_known_token_resolves, owns, owns_alone, token_resolution, unassociated,
};
use crate::operation::{
    IdentityCeremonyKind, IdentityCeremonyProgress, IdentityResolution, UnassociatedReason,
};
use crate::protocol::{PhysicalId, ProfileId};
use crate::session::Step;
use crate::slots::ProfileMap;
use crate::state::{IdentitySetupJournal, IdentitySetupSubject, IdentityStampProgress, StateFile};

verus! {

/// A ceremony that was just begun can be cancelled, and cancelling it brings
/// the state back to what it was.
pub proof fn law_cancel_undoes_begin(
    before: StateFile,
    kind: IdentityCeremonyKind,
    target: Option<Seq<char>>,
    journal: IdentitySetupJournal,
)
    requires
        begin_refusal(before, kind, target) is None,
        is_opened(journal, phase_of(kind)),
    ensures
        !is_irreversible(journal),
        ({
            let begun = StateFile { identity_setup: Some(journal), ..before };
            StateFile { identity_setup: None, ..begun } == before
        }),
{
}

/// After an addition or an adoption the mouse's token resolves to the new
/// mouse, provided that nobody had it before.
pub proof fn law_added_mouse_is_found(before: StateFile, skip_migration: bool, after: StateFile)
    requires
        before.inventory(),
        finalize_refusal(before) is None,
        finalized(before, skip_migration, after),
        before.identity_setup->0.phase is AddMouse || before.identity_setup->0.phase
            is ForeignAdoption,
        !is_known(before.devices@, before.identity_setup->0.subjects@[0].token->0),
        !before.identity_setup->0.subjects@[0].token->0.is_reserved(),
    ensures
        ({
            let token = before.identity_setup->0.subjects@[0].token->0;
            let key = logical_key(before.next_device_number as nat);
            &&& owns_alone(after.devices@, key, token)
            &&& token_resolution(after.devices@, after.identity_setup, token)
                == (IdentityResolution::Resolved { identity: after.devices@[key].identity.id })
        }),
{
    let token = before.identity_setup->0.subjects@[0].token->0;
    let key = logical_key(before.next_device_number as nat);
    assert(owns(after.devices@, key, token));
    assert forall|other: Seq<char>| #[trigger] owns(after.devices@, other, token) implies other
        == key by {
        if other != key {
            assert(owns(before.devices@, other, token));
        }
    }
    law_known_token_resolves(after.devices@, after.identity_setup, key, token);
}

/// After a restore the new token resolves to the restored mouse and the old
/// one to nobody, provided that the old one was only this mouse's and the new
/// one nobody's.
pub proof fn law_restore_retires_the_old_token(
    before: StateFile,
    skip_migration: bool,
    after: StateFile,
    old_token: PhysicalId,
)
    requires
        finalize_refusal(before) is None,
        finalized(before, skip_migration, after),
        before.identity_setup->0.phase is Restore,
        owns_alone(
            before.devices@,
            before.identity_setup->0.subjects@[0].device_id->0@,
            old_token,
        ),
        !is_known(before.devices@, before.identity_setup->0.subjects@[0].token->0),
        !old_token.is_reserved(),
        !before.identity_setup->0.subjects@[0].token->0.is_reserved(),
    ensures
        ({
            let subject = before.identity_setup->0.subjects@[0];
            let key = subject.device_id->0@;
            let token = subject.token->0;
            &&& token_resolution(after.devices@, after.identity_setup, old_token) == unassociated(
                UnassociatedReason::Unknown,
                Some(old_token),
            )
            &&& token_resolution(after.devices@, after.identity_setup, token)
                == (IdentityResolution::Resolved { identity: before.devices@[key].identity.id })
        }),
{
    let subject = before.identity_setup->0.subjects@[0];
    let key = subject.device_id->0@;
    let token = subject.token->0;
    assert(owns(before.devices@, key, old_token));
    assert(is_known(before.devices@, old_token));
    assert(token != old_token);
    if is_known(after.devices@, old_token) {
        let other = choose|other: Seq<char>| #[trigger] owns(after.devices@, other, old_token);
        if other != key {
            assert(owns(before.devices@, other, old_token));
        }
    }
    assert(owns(after.devices@, key, token));
    assert forall|other: Seq<char>| #[trigger] owns(after.devices@, other, token) implies other
        == key by {
        if other != key {
            assert(owns(before.devices@, other, token));
        }
    }
    law_known_token_resolves(after.devices@, after.identity_setup, key, token);
}

/// After the first enrollment each token resolves to the mouse that got it,
/// provided that the tokens differ.
pub proof fn law_enrolled_mice_are_told_apart(
    before: StateFile,
    skip_migration: bool,
    after: StateFile,
    index: int,
)
    requires
        finalize_refusal(before) is None,
        finalized(before, skip_migration, after),
        before.identity_setup->0.phase is InitialEnrollment,
        0 <= index < before.identity_setup->0.subjects@.len(),
        before.identity_setup->0.subjects@[index].token is Some,
        !before.identity_setup->0.subjects@[index].token->0.is_reserved(),
        forall|other: int|
            0 <= other < before.identity_setup->0.subjects@.len() && other != index ==> (
            #[trigger] before.identity_setup->0.subjects@[other]).token
                != before.identity_setup->0.subjects@[index].token,
    ensures
        ({
            let token = before.identity_setup->0.subjects@[index].token->0;
            let key = enrolled_key(before.next_device_number, index);
            token_resolution(after.devices@, after.identity_setup, token)
                == (IdentityResolution::Resolved { identity: after.devices@[key].identity.id })
        }),
{
    let subjects = before.identity_setup->0.subjects@;
    let first = before.next_device_number;
    let token = subjects[index].token->0;
    let key = enrolled_key(first, index);
    assert(owns(after.devices@, key, token));
    assert forall|other: Seq<char>| #[trigger] owns(after.devices@, other, token) implies other
        == key by {
        let at = choose|at: int|
            0 <= at < subjects.len() && other == #[trigger] enrolled_key(first, at);
        if at != index {
            assert(after.devices@[enrolled_key(first, at)].identity.physical_id
                == subjects[at].token);
        }
    }
    law_known_token_resolves(after.devices@, after.identity_setup, key, token);
}

/// Once nothing is pending on a mouse, all of it is stamped.
pub proof fn law_nothing_pending_is_fully_stamped(subject: IdentitySetupSubject)
    requires
        subject.captured is Some,
        pending_profiles(subject).len() == 0,
        subject.stamp_progress != ProfileMap::<IdentityStampProgress>::empty(),
        forall|profile: ProfileId| #[trigger]
            subject.stamp_progress.at(profile) is Some ==> subject.captured->0.profiles.at(profile)
                is Some,
    ensures
        subject.fully_stamped(),
{
    assert forall|profile: ProfileId| #[trigger]
        subject.stamp_progress.at(profile) is Some implies subject.stamp_progress.at(profile)
        == Some(IdentityStampProgress::Stamped) by {
        law_stamped_profiles_are_never_rewritten(subject, profile);
    }
    assert(subject.stamp_progress.at(ProfileId::One) == subject.stamp_progress.one);
    assert(subject.stamp_progress.at(ProfileId::Two) == subject.stamp_progress.two);
    assert(subject.stamp_progress.at(ProfileId::Three) == subject.stamp_progress.three);
    assert(subject.stamp_progress.at(ProfileId::Four) == subject.stamp_progress.four);
    assert(subject.stamp_progress.at(ProfileId::Five) == subject.stamp_progress.five);
}

/// The first enrollment takes two mice: after the first one it waits for
/// another, and after the second one for the migration choice, once both are
/// stamped.
pub proof fn law_enrollment_takes_two_mice(
    run: StampRun,
    before: StateFile,
    after: StateFile,
    step: Step<StampRun, IdentityCeremonyProgress>,
)
    requires
        run.phase is InitialEnrollment,
        run.advances(before, after, step),
        before.identity_setup is Some,
        before.identity_setup->0.phase is InitialEnrollment,
        before.identity_setup->0.subjects@.len() > 0,
    ensures
        run.await_second && before.identity_setup->0.subjects@.len() == 1 ==> awaits_mouse(
            after.identity_setup->0,
        ),
        !run.await_second && before.identity_setup->0.subjects@.len() == 2
            && after.identity_setup->0.subjects@[0].fully_stamped()
            && after.identity_setup->0.subjects@[1].fully_stamped() ==> awaits_migration_choice(
            after.identity_setup->0,
        ),
        after.devices@ == before.devices@,
        after.identity_mode == before.identity_mode,
{
}

} // verus!
