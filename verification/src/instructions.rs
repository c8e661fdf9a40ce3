//! The three operations on the registry, each as one atomic step: it is
//! either applied in full or refused with the registry left as it was.

use vstd::prelude::*;

use crate::attestation::{attestation_of, verify};
use crate::encoding::RequestTradingArgs;
use crate::error::Errors;
use crate::guard::{authorization_of, authorize_admin};
use crate::identity::{sentinel_bytes, Pubkey};
use crate::registry::AgentRegistry;

verus! {

/// The parties to `initialize_agent`.
#[derive(Clone, Copy, Debug)]
pub struct InitializeAgent {
    /// The authenticated caller, who becomes the admin of the new agent.
    pub signer: Pubkey,
}

/// The parties to `request_trading`.
#[derive(Clone, Copy, Debug)]
pub struct RequestTrading {
    /// The authenticated caller. Anyone may submit a request: what
    /// authorizes it is the signature it carries.
    pub signer: Pubkey,
}

/// The arguments of `update_tee_key`.
#[derive(Clone, Copy, Debug)]
pub struct UpdateTeeKeyArgs {
    /// The key to register.
    pub tee_key: Pubkey,
}

/// The parties to `update_tee_key`.
#[derive(Clone, Copy, Debug)]
pub struct UpdateTeeKey {
    /// The admin whose agent record is to be changed.
    pub agent_admin: Pubkey,
    /// The authenticated caller.
    pub signer: Pubkey,
}

/// The state of the registry after `signer` asks for an agent, and the answer given.
pub open spec fn initialize_agent_step(
    agents: Map<Seq<u8>, Seq<u8>>,
    signer: Seq<u8>,
) -> (Map<Seq<u8>, Seq<u8>>, Result<(), Errors>) {
    if agents.contains_key(signer) {
        (agents, Err(Errors::AlreadyExists))
    } else {
        (agents.insert(signer, sentinel_bytes()), Ok(()))
    }
}

/// The state of the registry after `signer` asks to register `new_key` for
/// the agent of `agent_admin`, and the answer given.
pub open spec fn update_tee_key_step(
    agents: Map<Seq<u8>, Seq<u8>>,
    agent_admin: Seq<u8>,
    signer: Seq<u8>,
    new_key: Seq<u8>,
) -> (Map<Seq<u8>, Seq<u8>>, Result<(), Errors>) {
    if !agents.contains_key(agent_admin) {
        (agents, Err(Errors::NotFound))
    } else if authorization_of(agent_admin, signer) is Err {
        (agents, Err(Errors::UnauthorizedSigner))
    } else {
        (agents.insert(agent_admin, new_key), Ok(()))
    }
}

/// The answer given to a trade request.
pub open spec fn request_trading_answer(
    agents: Map<Seq<u8>, Seq<u8>>,
    request: RequestTradingArgs,
) -> Result<(), Errors> {
    if !agents.contains_key(request.agent_admin@) {
        Err(Errors::NotFound)
    } else {
        attestation_of(agents[request.agent_admin@], request)
    }
}

/// Registers an agent whose admin is the caller, with the sentinel as its
/// TEE key.
///
/// Refused with `AlreadyExists` when the caller already has an agent.
pub fn initialize_agent(
    registry: &mut AgentRegistry,
    ctx: &InitializeAgent,
) -> (outcome: Result<(), Errors>)
    ensures
        (final(registry)@, outcome) == initialize_agent_step(old(registry)@, ctx.signer@),
{
    match registry.create(ctx.signer) {
        Ok(_) => Ok(()),
        Err(e) => Err(e),
    }
}

/// Checks that a trade request carries a valid attestation from the TEE key
/// of the agent that it names. The registry is only read, and the caller's
/// identity plays no part.
///
/// Refused with `NotFound` when the named admin has no agent, with
/// `InvalidPublicKey` when the agent's key is the sentinel or does not
/// decode, and with `InvalidSignature` when the signature does not check.
pub fn request_trading(
    registry: &AgentRegistry,
    _ctx: &RequestTrading,
    args: &RequestTradingArgs,
) -> (outcome: Result<(), Errors>)
    ensures
        outcome == request_trading_answer(registry@, *args),
{
    match registry.get(&args.agent_admin) {
        Ok(record) => verify(&record, args),
        Err(e) => Err(e),
    }
}

/// Registers a new TEE key for the agent of `ctx.agent_admin`.
///
/// Refused with `NotFound` when that admin has no agent, and with
/// `UnauthorizedSigner` when the caller is not that admin; the registry is
/// then unchanged.
pub fn update_tee_key(
    registry: &mut AgentRegistry,
    ctx: &UpdateTeeKey,
    args: &UpdateTeeKeyArgs,
) -> (outcome: Result<(), Errors>)
    ensures
        (final(registry)@, outcome) == update_tee_key_step(
            old(registry)@,
            ctx.agent_admin@,
            ctx.signer@,
            args.tee_key@,
        ),
        ctx.signer@ != ctx.agent_admin@ ==> final(registry)@ == old(registry)@,
        ctx.signer@ != ctx.agent_admin@ && old(registry)@.contains_key(ctx.agent_admin@)
            ==> outcome == Err::<(), Errors>(Errors::UnauthorizedSigner),
{
    let record = match registry.get(&ctx.agent_admin) {
        Ok(record) => record,
        Err(e) => {
            return Err(e);
        },
    };
    match authorize_admin(&record, &ctx.signer) {
        Ok(_) => {},
        Err(e) => {
            return Err(e);
        },
    }
    match registry.set_tee_key(&ctx.agent_admin, args.tee_key) {
        Ok(_) => Ok(()),
        Err(e) => Err(e),
    }
}

/// Whether going from `before` to `after` kept every record, and changed
/// the key of no admin but `target`.
pub open spec fn touches_only(
    before: Map<Seq<u8>, Seq<u8>>,
    after: Map<Seq<u8>, Seq<u8>>,
    target: Seq<u8>,
) -> bool {
    forall|admin: Seq<u8>|
        #[trigger] before.contains_key(admin) ==> after.contains_key(admin) && (admin != target
            ==> after[admin] == before[admin])
}

/// A second `initialize_agent` by the same caller is refused with
/// `AlreadyExists` and changes nothing, whatever the first one answered.
pub proof fn lemma_second_initialize_refused(agents: Map<Seq<u8>, Seq<u8>>, signer: Seq<u8>)
    ensures
        ({
            let first = initialize_agent_step(agents, signer);
            let second = initialize_agent_step(first.0, signer);
            second.1 == Err::<(), Errors>(Errors::AlreadyExists) && second.0 == first.0
        }),
{
}

/// A caller who is not the admin of a registered agent cannot change its
/// key: the update is refused with `UnauthorizedSigner` and the registry
/// stays as it was.
pub proof fn lemma_unauthorized_update_refused(
    agents: Map<Seq<u8>, Seq<u8>>,
    agent_admin: Seq<u8>,
    signer: Seq<u8>,
    new_key: Seq<u8>,
)
    requires
        agents.contains_key(agent_admin),
        signer != agent_admin,
    ensures
        update_tee_key_step(agents, agent_admin, signer, new_key) == (
            agents,
            Err::<(), Errors>(Errors::UnauthorizedSigner),
        ),
{
}

/// The life of an agent: its admin registers it with the sentinel as key,
/// and every update by the admin then puts the new key in place.
pub proof fn lemma_admin_rotates_key(
    agents: Map<Seq<u8>, Seq<u8>>,
    admin: Seq<u8>,
    first_key: Seq<u8>,
    second_key: Seq<u8>,
)
    requires
        !agents.contains_key(admin),
    ensures
        ({
            let registered = initialize_agent_step(agents, admin);
            let rotated = update_tee_key_step(registered.0, admin, admin, first_key);
            let rotated_again = update_tee_key_step(rotated.0, admin, admin, second_key);
            &&& registered.1 is Ok && registered.0[admin] == sentinel_bytes()
            &&& rotated.1 is Ok && rotated.0[admin] == first_key
            &&& rotated_again.1 is Ok && rotated_again.0[admin] == second_key
        }),
{
}

/// A request for an agent whose key was never rotated is refused with
/// `InvalidPublicKey`, whatever it carries: the sentinel attests nothing.
pub proof fn lemma_unrotated_agent_attests_nothing(
    agents: Map<Seq<u8>, Seq<u8>>,
    request: RequestTradingArgs,
)
    requires
        !agents.contains_key(request.agent_admin@),
    ensures
        request_trading_answer(
            initialize_agent_step(agents, request.agent_admin@).0,
            request,
        ) == Err::<(), Errors>(Errors::InvalidPublicKey),
{
}

/// No operation removes a record, and none changes the key of an agent
/// other than the one it is aimed at.
pub proof fn lemma_steps_touch_one_record(
    agents: Map<Seq<u8>, Seq<u8>>,
    target: Seq<u8>,
    signer: Seq<u8>,
    new_key: Seq<u8>,
)
    ensures
        touches_only(agents, initialize_agent_step(agents, signer).0, signer),
        touches_only(agents, update_tee_key_step(agents, target, signer, new_key).0, target),
{
}

} // verus!
