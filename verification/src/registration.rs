//! The order and the identifiers under which the envelope types are registered
//! in a Fory instance.
use vstd::prelude::*;

verus! {

/// The identifier of the first envelope type. Those of the others follow it in
/// the order of registration.
pub const FIRST_ENVELOPE_ID: u32 = 2;

/// The first identifier that is left to the types of a service.
pub const FIRST_USER_ID: u32 = 100;

/// The envelope types that travel over the wire, in the order in which they are
/// registered.
#[derive(Debug, Clone, Copy, PartialEq, Eq, Structural)]
pub enum EnvelopeType {
    TraceContext,
    ServerError,
    Result,
    Request,
    Response,
    ClientMessage,
}

/// The envelope types in the order of their registration.
pub open spec fn registration_order() -> Seq<EnvelopeType> {
    seq![
        EnvelopeType::TraceContext,
        EnvelopeType::ServerError,
        EnvelopeType::Result,
        EnvelopeType::Request,
        EnvelopeType::Response,
        EnvelopeType::ClientMessage,
    ]
}

impl EnvelopeType {
    /// The place of the type in the order of registration.
    pub open spec fn place(self) -> int {
        match self {
            EnvelopeType::TraceContext => 0,
            EnvelopeType::ServerError => 1,
            EnvelopeType::Result => 2,
            EnvelopeType::Request => 3,
            EnvelopeType::Response => 4,
            EnvelopeType::ClientMessage => 5,
        }
    }

    /// The identifier under which the type is registered.
    pub fn type_id(self) -> (id: u32)
        ensures
            id == FIRST_ENVELOPE_ID + self.place(),
    {
        match self {
            EnvelopeType::TraceContext => 2,
            EnvelopeType::ServerError => 3,
            EnvelopeType::Result => 4,
            EnvelopeType::Request => 5,
            EnvelopeType::Response => 6,
            EnvelopeType::ClientMessage => 7,
        }
    }

    /// The name of the type.
    pub open spec fn name_text(self) -> Seq<char> {
        match self {
            EnvelopeType::TraceContext => "ForyTraceContext"@,
            EnvelopeType::ServerError => "ForyServerError"@,
            EnvelopeType::Result => "ForyResult"@,
            EnvelopeType::Request => "ForyRequest"@,
            EnvelopeType::Response => "ForyResponse"@,
            EnvelopeType::ClientMessage => "ForyClientMessage"@,
        }
    }

    /// The name of the type.
    pub fn name(self) -> (text: &'static str)
        ensures
            text@ == self.name_text(),
    {
        match self {
            EnvelopeType::TraceContext => "ForyTraceContext",
            EnvelopeType::ServerError => "ForyServerError",
            EnvelopeType::Result => "ForyResult",
            EnvelopeType::Request => "ForyRequest",
            EnvelopeType::Response => "ForyResponse",
            EnvelopeType::ClientMessage => "ForyClientMessage",
        }
    }
}

/// What to do next when the envelope types are registered.
#[derive(Debug)]
pub enum RegistrationStep<E> {
    /// Register `envelope` under `id` as a type with its own serializer, and come
    /// back with the outcome.
    Register { envelope: EnvelopeType, id: u32 },
    /// All envelope types are registered.
    Finished,
    /// A registration failed. The types after it are not registered.
    Failed(E),
}

/// The step after `previous`, the last registration and its outcome. `None` asks
/// for the first step.
///
/// The types are registered one after the other, each under its own identifier,
/// and the first failure ends it.
///
/// One Fory instance takes the envelopes of one message type: Fory refuses a type
/// or an identifier that is registered already, so a second run on the same
/// instance fails at its first step.
pub fn register_envelope_types<E>(previous: Option<(EnvelopeType, Result<(), E>)>) -> (step:
    RegistrationStep<E>)
    ensures
        step == next_step(previous),
{
    let envelope = match previous {
        None => EnvelopeType::TraceContext,
        Some((_, Err(e))) => return RegistrationStep::Failed(e),
        Some((EnvelopeType::TraceContext, Ok(()))) => EnvelopeType::ServerError,
        Some((EnvelopeType::ServerError, Ok(()))) => EnvelopeType::Result,
        Some((EnvelopeType::Result, Ok(()))) => EnvelopeType::Request,
        Some((EnvelopeType::Request, Ok(()))) => EnvelopeType::Response,
        Some((EnvelopeType::Response, Ok(()))) => EnvelopeType::ClientMessage,
        Some((EnvelopeType::ClientMessage, Ok(()))) => return RegistrationStep::Finished,
    };
    RegistrationStep::Register { envelope, id: envelope.type_id() }
}

/// The registration at a place in the order, or the end of it.
pub open spec fn step_at<E>(place: int) -> RegistrationStep<E> {
    if 0 <= place < registration_order().len() {
        RegistrationStep::Register {
            envelope: registration_order()[place],
            id: (FIRST_ENVELOPE_ID + place) as u32,
        }
    } else {
        RegistrationStep::Finished
    }
}

/// The step after `previous`.
pub open spec fn next_step<E>(previous: Option<(EnvelopeType, Result<(), E>)>) -> RegistrationStep<
    E,
> {
    match previous {
        None => step_at(0),
        Some((_, Err(e))) => RegistrationStep::Failed(e),
        Some((envelope, Ok(_))) => step_at(envelope.place() + 1),
    }
}

/// The first step that is no registration, when the registrations from the step
/// after `previous` have these outcomes, from the place `at` on; or the first
/// registration that has none.
pub open spec fn run<E>(
    previous: Option<(EnvelopeType, Result<(), E>)>,
    outcomes: Seq<Result<(), E>>,
    at: nat,
) -> RegistrationStep<E>
    decreases outcomes.len() - at,
{
    match next_step(previous) {
        RegistrationStep::Register { envelope, .. } if at < outcomes.len() => run(
            Some((envelope, outcomes[at as int])),
            outcomes,
            at + 1,
        ),
        step => step,
    }
}

/// Where every registration succeeds, the types are registered in their order,
/// each under the identifier of its place, and nothing is left to do after the
/// last.
pub proof fn law_registration_goes_through_all_types<E>(outcomes: Seq<Result<(), E>>)
    requires
        outcomes.len() <= registration_order().len(),
        forall|i: int| 0 <= i < outcomes.len() ==> outcomes[i] is Ok,
    ensures
        run(None, outcomes, 0) == step_at::<E>(outcomes.len() as int),
{
    lemma_run_goes_on(outcomes, 0, None);
}

/// The first registration that fails ends it, with its error.
pub proof fn law_registration_ends_at_the_first_failure<E>(outcomes: Seq<Result<(), E>>, k: int)
    requires
        0 <= k < registration_order().len(),
        k < outcomes.len(),
        outcomes[k] is Err,
        forall|i: int| 0 <= i < k ==> outcomes[i] is Ok,
    ensures
        run(None, outcomes, 0) == RegistrationStep::Failed(outcomes[k]->Err_0),
{
    lemma_run_stops(outcomes, k, 0, None);
}

/// A run whose step is at the place `at` goes on to the end of the outcomes.
proof fn lemma_run_goes_on<E>(
    outcomes: Seq<Result<(), E>>,
    at: nat,
    previous: Option<(EnvelopeType, Result<(), E>)>,
)
    requires
        at <= outcomes.len() <= registration_order().len(),
        forall|i: int| 0 <= i < outcomes.len() ==> outcomes[i] is Ok,
        next_step(previous) == step_at::<E>(at as int),
    ensures
        run(previous, outcomes, at) == step_at::<E>(outcomes.len() as int),
    decreases outcomes.len() - at,
{
    if at < outcomes.len() {
        let next = Some((registration_order()[at as int], outcomes[at as int]));
        lemma_run_goes_on(outcomes, at + 1, next);
    }
}

/// A run whose step is at the place `at`, at or before that of the failure, ends
/// with the failure.
proof fn lemma_run_stops<E>(
    outcomes: Seq<Result<(), E>>,
    k: int,
    at: nat,
    previous: Option<(EnvelopeType, Result<(), E>)>,
)
    requires
        at <= k < registration_order().len(),
        k < outcomes.len(),
        outcomes[k] is Err,
        forall|i: int| 0 <= i < k ==> outcomes[i] is Ok,
        next_step(previous) == step_at::<E>(at as int),
    ensures
        run(previous, outcomes, at) == RegistrationStep::Failed(outcomes[k]->Err_0),
    decreases k - at,
{
    let next = Some((registration_order()[at as int], outcomes[at as int]));
    if at < k {
        lemma_run_stops(outcomes, k, at + 1, next);
    } else {
        reveal_with_fuel(run, 2);
    }
}

/// No two envelope types share an identifier, and all identifiers lie below
/// those that are left to the types of a service.
pub proof fn law_envelope_ids_are_distinct(a: EnvelopeType, b: EnvelopeType)
    ensures
        FIRST_ENVELOPE_ID + a.place() == FIRST_ENVELOPE_ID + b.place() ==> a == b,
        FIRST_ENVELOPE_ID <= FIRST_ENVELOPE_ID + a.place() < FIRST_USER_ID,
{
}

/// The identifier of each type.
pub proof fn law_identifiers_of_the_types(envelope: EnvelopeType, id: u32)
    requires
        call_ensures(EnvelopeType::type_id, (envelope,), id),
    ensures
        envelope is TraceContext ==> id == 2,
        envelope is ServerError ==> id == 3,
        envelope is Result ==> id == 4,
        envelope is Request ==> id == 5,
        envelope is Response ==> id == 6,
        envelope is ClientMessage ==> id == 7,
{
}

/// The name of each type.
pub proof fn law_names_of_the_types(envelope: EnvelopeType, text: &'static str)
    requires
        call_ensures(EnvelopeType::name, (envelope,), text),
    ensures
        text@ == envelope.name_text(),
        envelope is TraceContext ==> text@ == "ForyTraceContext"@,
        envelope is ServerError ==> text@ == "ForyServerError"@,
        envelope is Result ==> text@ == "ForyResult"@,
        envelope is Request ==> text@ == "ForyRequest"@,
        envelope is Response ==> text@ == "ForyResponse"@,
        envelope is ClientMessage ==> text@ == "ForyClientMessage"@,
{
}

/// Which type is registered after which, and under which identifier; the first
/// failure ends it with its error, and success of the last with none.
pub proof fn law_registration_steps<E>(
    previous: Option<(EnvelopeType, Result<(), E>)>,
    step: RegistrationStep<E>,
)
    requires
        call_ensures(register_envelope_types::<E>, (previous,), step),
    ensures
        match previous {
            None => step == (RegistrationStep::<E>::Register {
                envelope: EnvelopeType::TraceContext,
                id: 2,
            }),
            Some((_, Err(e))) => step == RegistrationStep::<E>::Failed(e),
            Some((EnvelopeType::TraceContext, Ok(_))) => step == (RegistrationStep::<E>::Register {
                envelope: EnvelopeType::ServerError,
                id: 3,
            }),
            Some((EnvelopeType::ServerError, Ok(_))) => step == (RegistrationStep::<E>::Register {
                envelope: EnvelopeType::Result,
                id: 4,
            }),
            Some((EnvelopeType::Result, Ok(_))) => step == (RegistrationStep::<E>::Register {
                envelope: EnvelopeType::Request,
                id: 5,
            }),
            Some((EnvelopeType::Request, Ok(_))) => step == (RegistrationStep::<E>::Register {
                envelope: EnvelopeType::Response,
                id: 6,
            }),
            Some((EnvelopeType::Response, Ok(_))) => step == (RegistrationStep::<E>::Register {
                envelope: EnvelopeType::ClientMessage,
                id: 7,
            }),
            Some((EnvelopeType::ClientMessage, Ok(_))) => step == RegistrationStep::<E>::Finished,
        },
{
}

} // verus!
