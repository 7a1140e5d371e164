//! Minting physical-identity tokens.

use vstd::prelude::*;

use crate::ceremony::finalize::{refusal, refused};
use crate::discovery::resolution::{
    carries, is_known, is_known_token, is_reserved_token, is_token, journal_reserves,
    journal_reserves_token, sets_aside,
};
use crate::error::{ManagerError, ManagerErrorView};
use crate::manager::DeviceManager;
use crate::protocol::PhysicalId;
use crate::state::{IdentitySetupPhase, StateFile};

verus! {

/// The error of the system's random source.
#[verifier::external_type_specification]
#[verifier::external_body]
pub struct ExRandomSourceError(getrandom::Error);

/// Draws sixteen random bytes with `getrandom::fill`.
///
/// Nothing is claimed about the bytes: they come from the system's random
/// source and differ from call to call. The call may fail.
#[verifier::external_body]
fn draw_bytes() -> (r: Result<[u8; 16], getrandom::Error>) {
    let mut bytes = [0_u8; 16];
    getrandom::fill(&mut bytes)?;
    Ok(bytes)
}

/// How many times a token is drawn before minting gives up.
pub const MINT_ATTEMPTS: usize = 16;

/// A token that may be given to a mouse: not reserved, and neither in use, nor
/// claimed by the running ceremony, nor the one that is being replaced.
pub open spec fn is_fresh_token(
    state: StateFile,
    old_token: Option<PhysicalId>,
    token: PhysicalId,
) -> bool {
    &&& !token.is_reserved()
    &&& !is_known(state.devices@, token)
    &&& state.identity_setup matches Some(journal) ==> !journal_reserves(journal, token)
    &&& old_token != Some(token)
}

/// What one draw leads to.
#[derive(Debug, PartialEq, Eq)]
pub enum MintStep {
    Minted(PhysicalId),
    /// The token will not do; draw again.
    Again,
    Failed(ManagerError),
}

/// The refusal after too many unusable draws.
pub open spec fn mint_refusal(phase: IdentitySetupPhase) -> ManagerErrorView {
    refusal(phase, "token-generation"@, "could not mint a unique physical identity token"@)
}

impl DeviceManager {
    /// Judges one draw, or the failure of the random source to make one.
    pub fn judge_draw(
        &self,
        phase: IdentitySetupPhase,
        old_token: Option<PhysicalId>,
        attempt: usize,
        draw: Result<[u8; 16], getrandom::Error>,
    ) -> (r: MintStep)
        ensures
            match draw {
                Err(source) => r matches MintStep::Failed(error) && error@
                    == (ManagerErrorView::TokenGeneration { source }),
                Ok(bytes) => {
                    let token = PhysicalId { token: bytes };
                    if is_fresh_token(self.state, old_token, token) {
                        r == MintStep::Minted(token)
                    } else if attempt + 1 < MINT_ATTEMPTS {
                        r is Again
                    } else {
                        r matches MintStep::Failed(error) && error@ == mint_refusal(phase)
                    }
                },
            },
    {
        let token = match draw {
            Err(source) => {
                return MintStep::Failed(ManagerError::TokenGeneration { source });
            },
            Ok(bytes) => PhysicalId::from_token_bytes(bytes),
        };
        let reserved: bool = match &self.state.identity_setup {
            Some(journal) => journal_reserves_token(journal, token),
            None => false,
        };
        if !is_reserved_token(token) && !is_known_token(&self.state.devices, token) && !reserved
            && !is_token(&old_token, token) {
            return MintStep::Minted(token);
        }
        if attempt < MINT_ATTEMPTS - 1 {
            return MintStep::Again;
        }
        MintStep::Failed(
            refused(phase, "token-generation", "could not mint a unique physical identity token"),
        )
    }

    /// Mints a random token that collides with nothing on record.
    ///
    /// Whether it succeeds depends on the random source; a token that is
    /// handed out is always a fresh one.
    pub fn mint_unique_token(
        &self,
        phase: IdentitySetupPhase,
        old_token: Option<PhysicalId>,
    ) -> (r: Result<PhysicalId, ManagerError>)
        ensures
            match r {
                Ok(token) => is_fresh_token(self.state, old_token, token),
                Err(error) => error@ is TokenGeneration || error@ == mint_refusal(phase),
            },
    {
        let mut attempt: usize = 0;
        while attempt < MINT_ATTEMPTS
            invariant
                attempt <= MINT_ATTEMPTS,
            decreases MINT_ATTEMPTS - attempt,
        {
            match self.judge_draw(phase, old_token, attempt, draw_bytes()) {
                MintStep::Minted(token) => {
                    return Ok(token);
                },
                MintStep::Failed(error) => {
                    return Err(error);
                },
                MintStep::Again => {},
            }
            attempt = attempt + 1;
        }
        Err(refused(phase, "token-generation", "could not mint a unique physical identity token"))
    }
}

/// A fresh token is nobody's: no stored mouse has it, and it is neither the
/// reserved one nor the one that is being replaced.
pub proof fn law_fresh_tokens_are_unique(
    state: StateFile,
    old_token: Option<PhysicalId>,
    token: PhysicalId,
    key: Seq<char>,
)
    requires
        is_fresh_token(state, old_token, token),
        state.devices@.dom().contains(key),
    ensures
        state.devices@[key].identity.physical_id != Some(token),
        !token.is_reserved(),
        old_token != Some(token),
{
    if state.devices@[key].identity.physical_id == Some(token) {
        assert(crate::discovery::resolution::owns(state.devices@, key, token));
    }
}

/// A drawn token is taken exactly where it has a byte that is not zero, no
/// stored mouse carries it, no subject of the running ceremony has it or gives
/// it up, and it is not the one that is being replaced. Fifteen draws that will
/// not do are drawn again, the sixteenth ends in a refusal.
pub proof fn law_only_fresh_tokens_are_minted(
    manager: &DeviceManager,
    phase: IdentitySetupPhase,
    old_token: Option<PhysicalId>,
    attempt: usize,
    bytes: [u8; 16],
    r: MintStep,
)
    requires
        call_ensures(
            DeviceManager::judge_draw,
            (manager, phase, old_token, attempt, Ok(bytes)),
            r,
        ),
    ensures
        ({
            let token = PhysicalId { token: bytes };
            let zero = forall|i: int| 0 <= i < 16 ==> #[trigger] bytes[i] == 0;
            let carried = exists|key: Seq<char>| #[trigger]
                carries(manager.state.devices, key, token);
            let aside = manager.state.identity_setup is Some && sets_aside(
                manager.state.identity_setup->0,
                token,
            );
            &&& r is Minted <==> !zero && !carried && !aside && old_token != Some(token)
            &&& r matches MintStep::Minted(minted) ==> minted == token
            &&& r is Again ==> attempt < 15
            &&& r is Failed ==> attempt >= 15
        }),
{
    let token = PhysicalId { token: bytes };
    assert forall|key: Seq<char>| #[trigger] carries(manager.state.devices, key, token)
        == crate::discovery::resolution::owns(manager.state.devices@, key, token) by {}
    assert forall|key: Seq<char>| #[trigger] crate::discovery::resolution::owns(
        manager.state.devices@,
        key,
        token,
    ) == carries(manager.state.devices, key, token) by {}
    if let Some(journal) = manager.state.identity_setup {
        assert(journal_reserves(journal, token) == sets_aside(journal, token));
    }
    assert(is_known(manager.state.devices@, token) == (exists|key: Seq<char>| #[trigger]
        carries(manager.state.devices, key, token)));
    assert(forall|i: int| 0 <= i < 16 ==> #[trigger] bytes[i] == token.token[i]);
    assert(token.is_reserved() == (forall|i: int| 0 <= i < 16 ==> #[trigger] bytes[i] == 0));
}

/// Minting that gives up says so in a word, and a random source that fails is
/// an error of its own.
pub proof fn law_failed_minting_says_why(
    manager: &DeviceManager,
    phase: IdentitySetupPhase,
    old_token: Option<PhysicalId>,
    attempt: usize,
    draw: Result<[u8; 16], getrandom::Error>,
    r: MintStep,
)
    requires
        call_ensures(DeviceManager::judge_draw, (manager, phase, old_token, attempt, draw), r),
        r is Failed,
    ensures
        draw matches Err(cause) ==> (r matches MintStep::Failed(error) && (
        error@ matches ManagerErrorView::TokenGeneration { source } && source == cause)),
        draw is Ok ==> (r matches MintStep::Failed(error) && (
        error@ matches ManagerErrorView::IdentityCeremonyRefused { phase: of, reason, detail } && of
            == phase && reason == "token-generation"@)),
{
}

} // verus!
