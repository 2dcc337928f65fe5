use std::any::Any;

use fory::{Error, Fory, ForyDefault, ReadContext, Serializer, TypeId, TypeResolver, WriteContext};
use fory_core::{RefMode, StructSerializer, TypeInfo};
use fory_envelope::envelope::{
    ForyClientMessage, ForyRequest, ForyResponse, ForyResult, ForyServerError, ForyTraceContext,
};
use fory_envelope::registration::{register_envelope_types, EnvelopeType, RegistrationStep};
use fory_envelope::wire::{WireError, WireValue};

/// A value of the library as a type that Fory can register.
struct Registered<V>(V);

impl<V: WireValue + 'static> ForyDefault for Registered<V> {
    fn fory_default() -> Self {
        Registered(V::fory_default())
    }
}

impl<V: WireValue + 'static> Serializer for Registered<V> {
    fn fory_write_data(&self, context: &mut WriteContext) -> Result<(), Error> {
        self.0.fory_write_data(context).map_err(|e| e.into_fory())
    }

    fn fory_read_data(context: &mut ReadContext) -> Result<Self, Error>
    where
        Self: Sized + ForyDefault,
    {
        match V::fory_read_data(context) {
            Ok(v) => Ok(Registered(v)),
            Err(e) => Err(e.into_fory()),
        }
    }

    fn fory_type_id_dyn(&self, type_resolver: &TypeResolver) -> Result<TypeId, Error> {
        Self::fory_get_type_id(type_resolver)
    }

    fn as_any(&self) -> &dyn Any {
        self
    }
}

/// Registers the envelope types of a service whose messages are `V`.
fn register_all<V: WireValue + 'static>(fory: &mut Fory) -> Result<(), Error> {
    let mut previous = None;
    loop {
        match register_envelope_types::<Error>(previous) {
            RegistrationStep::Finished => return Ok(()),
            RegistrationStep::Failed(e) => return Err(e),
            RegistrationStep::Register { envelope, id } => {
                let outcome = match envelope {
                    EnvelopeType::TraceContext => {
                        fory.register_serializer::<Registered<ForyTraceContext>>(id)
                    }
                    EnvelopeType::ServerError => {
                        fory.register_serializer::<Registered<ForyServerError>>(id)
                    }
                    EnvelopeType::Result => {
                        fory.register_serializer::<Registered<ForyResult<V>>>(id)
                    }
                    EnvelopeType::Request => {
                        fory.register_serializer::<Registered<ForyRequest<V>>>(id)
                    }
                    EnvelopeType::Response => {
                        fory.register_serializer::<Registered<ForyResponse<V>>>(id)
                    }
                    EnvelopeType::ClientMessage => {
                        fory.register_serializer::<Registered<ForyClientMessage<V>>>(id)
                    }
                };
                previous = Some((envelope, outcome));
            }
        }
    }
}

/// The request of a greeting service, with one method.
#[derive(Debug, Clone)]
enum HelloRequest {
    Hello { name: String },
}

impl ForyDefault for HelloRequest {
    fn fory_default() -> Self {
        HelloRequest::Hello { name: String::new() }
    }
}

impl Serializer for HelloRequest {
    fn fory_write_data(&self, context: &mut WriteContext) -> Result<(), Error> {
        let HelloRequest::Hello { name } = self;
        name.fory_write(context, RefMode::None, false, false)
    }

    fn fory_read_data(context: &mut ReadContext) -> Result<Self, Error>
    where
        Self: Sized + ForyDefault,
    {
        let name = String::fory_read(context, RefMode::None, false)?;
        Ok(HelloRequest::Hello { name })
    }

    fn fory_type_id_dyn(&self, type_resolver: &TypeResolver) -> Result<TypeId, Error> {
        Self::fory_get_type_id(type_resolver)
    }

    fn fory_static_type_id() -> TypeId {
        TypeId::STRUCT
    }

    fn as_any(&self) -> &dyn Any {
        self
    }
}

impl StructSerializer for HelloRequest {
    fn fory_type_index() -> u32 {
        0
    }

    fn fory_read_compatible(
        context: &mut ReadContext,
        _type_info: std::rc::Rc<TypeInfo>,
    ) -> Result<Self, Error> {
        <Self as Serializer>::fory_read_data(context)
    }
}

impl WireValue for HelloRequest {
    type Model = ();

    fn fory_default() -> Self {
        HelloRequest::Hello { name: <String as WireValue>::fory_default() }
    }

    fn fory_write_data(&self, context: &mut WriteContext) -> Result<(), WireError> {
        let HelloRequest::Hello { name } = self;
        WireValue::fory_write_data(name, context)
    }

    fn fory_read_data(context: &mut ReadContext) -> Result<Self, WireError> {
        let name = <String as WireValue>::fory_read_data(context)?;
        Ok(HelloRequest::Hello { name })
    }
}

#[test]
fn envelope_and_user_types_coexist_in_same_registry() {
    let mut fory = Fory::default();
    register_all::<HelloRequest>(&mut fory).expect("register_envelope_types should not fail");
    fory.register::<HelloRequest>(100).expect("register HelloRequest should not fail");
    // Both are usable.
    let req = HelloRequest::Hello { name: "test".to_string() };
    let bytes = fory.serialize(&req).unwrap();
    let decoded: HelloRequest = fory.deserialize(&bytes).unwrap();
    assert!(matches!(decoded, HelloRequest::Hello { name } if name == "test"));
}

#[test]
fn registered_envelopes_pass_through_fory() {
    let mut fory = Fory::default();
    register_all::<String>(&mut fory).unwrap();
    let msg = Registered(ForyClientMessage::Request(ForyRequest {
        id: 7,
        trace: ForyTraceContext { trace_id: 1, span_id: 2, sampling: 1 },
        deadline_ns: 3,
        message: "ping".to_string(),
    }));
    let bytes = fory.serialize(&msg).unwrap();
    let back: Registered<ForyClientMessage<String>> = fory.deserialize(&bytes).unwrap();
    match back.0 {
        ForyClientMessage::Request(r) => {
            assert_eq!((r.id, r.deadline_ns, r.message.as_str()), (7, 3, "ping"));
            assert_eq!((r.trace.trace_id, r.trace.span_id, r.trace.sampling), (1, 2, 1));
        }
        other => panic!("{:?}", other),
    }
    let resp: Registered<ForyResponse<String>> =
        Registered(ForyResponse { request_id: 7, message: ForyResult::Success("pong".into()) });
    let bytes = fory.serialize(&resp).unwrap();
    let back: Registered<ForyResponse<String>> = fory.deserialize(&bytes).unwrap();
    assert_eq!(back.0.request_id, 7);
    assert!(matches!(back.0.message, ForyResult::Success(s) if s == "pong"));
}

#[test]
fn one_instance_takes_one_message_type() {
    let mut fory = Fory::default();
    register_all::<String>(&mut fory).unwrap();
    assert!(register_all::<u32>(&mut fory).is_err());
}

#[test]
fn the_steps_go_through_the_types_in_order() {
    let order = [
        (EnvelopeType::TraceContext, 2, "ForyTraceContext"),
        (EnvelopeType::ServerError, 3, "ForyServerError"),
        (EnvelopeType::Result, 4, "ForyResult"),
        (EnvelopeType::Request, 5, "ForyRequest"),
        (EnvelopeType::Response, 6, "ForyResponse"),
        (EnvelopeType::ClientMessage, 7, "ForyClientMessage"),
    ];
    let mut previous: Option<(EnvelopeType, Result<(), String>)> = None;
    for (expected, expected_id, name) in order {
        match register_envelope_types(previous) {
            RegistrationStep::Register { envelope, id } => {
                assert_eq!(envelope, expected);
                assert_eq!(id, expected_id);
                assert_eq!(envelope.type_id(), expected_id);
                assert_eq!(envelope.name(), name);
                previous = Some((envelope, Ok(())));
            }
            other => panic!("{:?}", other),
        }
    }
    assert!(matches!(register_envelope_types(previous), RegistrationStep::Finished));
}

#[test]
fn the_first_failure_ends_the_registration() {
    for envelope in [
        EnvelopeType::TraceContext,
        EnvelopeType::ServerError,
        EnvelopeType::Result,
        EnvelopeType::Request,
        EnvelopeType::Response,
        EnvelopeType::ClientMessage,
    ] {
        let step = register_envelope_types(Some((envelope, Err("taken"))));
        assert!(matches!(step, RegistrationStep::Failed("taken")));
    }
}
