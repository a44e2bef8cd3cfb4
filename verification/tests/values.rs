use request_layer::{
    result_frame, value_frame, DomainError, ExecError, Once, ResultMarker, SealedRequestLayer,
    SerializeMarker, Serialized,
};
use serde::ser::Error as _;
use serde_json::Value;

struct NoWireFormat;

impl serde::Serialize for NoWireFormat {
    fn serialize<S: serde::Serializer>(&self, _serializer: S) -> Result<S::Ok, S::Error> {
        Err(S::Error::custom("no wire format"))
    }
}

fn domain_error() -> DomainError {
    DomainError { code: 404, message: String::from("no such user") }
}

#[test]
fn serialized_value_becomes_ok_frame() {
    let frame = value_frame(serde_json::to_value(42));
    assert_eq!(frame.unwrap(), Value::from(42));
}

#[test]
fn serialization_failure_becomes_serializing_error() {
    let frame = value_frame(serde_json::to_value(NoWireFormat));
    match frame {
        Err(ExecError::SerializingResultErr(cause)) => {
            assert_eq!(cause.to_string(), "no wire format")
        }
        other => panic!("unexpected frame: {:?}", other),
    }
}

#[test]
fn resolver_error_becomes_resolver_frame() {
    let frame = result_frame(Err(domain_error()));
    match frame {
        Err(ExecError::ErrResolverError(error)) => assert_eq!(error, domain_error()),
        other => panic!("unexpected frame: {:?}", other),
    }
}

#[test]
fn resolver_value_is_serialized_frame() {
    let frame = result_frame(Ok(serde_json::to_value("hello")));
    assert_eq!(frame.unwrap(), Value::from("hello"));
}

#[test]
fn resolver_value_without_wire_format_is_serializing_error() {
    let frame = result_frame(Ok(serde_json::to_value(NoWireFormat)));
    assert!(matches!(frame, Err(ExecError::SerializingResultErr(_))));
}

#[test]
fn once_gives_its_frame_then_ends() {
    let mut once = Once::new(Ok(Value::from(7)));
    assert_eq!(once.size_hint(), (1, Some(1)));
    assert_eq!(once.poll_next().unwrap().unwrap(), Value::from(7));
    assert_eq!(once.size_hint(), (0, Some(0)));
    assert!(once.poll_next().is_none());
    assert!(once.poll_next().is_none());
}

#[test]
fn value_shape_yields_exactly_the_serialized_value() {
    let value: Serialized = serde_json::to_value(vec![1, 2, 3]);
    let mut stream = SealedRequestLayer::<SerializeMarker>::exec(value);
    let first = stream.poll_next();
    assert_eq!(first.unwrap().unwrap(), Value::from(vec![1, 2, 3]));
    assert!(stream.poll_next().is_none());
}

#[test]
fn value_shape_without_wire_format_yields_exactly_the_error() {
    let value: Serialized = serde_json::to_value(NoWireFormat);
    let mut stream = SealedRequestLayer::<SerializeMarker>::exec(value);
    assert!(matches!(stream.poll_next(), Some(Err(ExecError::SerializingResultErr(_)))));
    assert!(stream.poll_next().is_none());
}

#[test]
fn fallible_value_shape_yields_exactly_the_resolver_error() {
    let returned: Result<Serialized, DomainError> = Err(domain_error());
    let mut stream = SealedRequestLayer::<ResultMarker>::exec(returned);
    match stream.poll_next() {
        Some(Err(ExecError::ErrResolverError(error))) => {
            assert_eq!(error.code, 404);
            assert_eq!(error.message, "no such user");
        }
        other => panic!("unexpected frame: {:?}", other),
    }
    assert!(stream.poll_next().is_none());
    assert!(stream.poll_next().is_none());
}

#[test]
fn fallible_value_shape_yields_the_value() {
    let returned: Result<Serialized, DomainError> = Ok(serde_json::to_value(true));
    let mut stream = SealedRequestLayer::<ResultMarker>::exec(returned);
    assert_eq!(stream.poll_next().unwrap().unwrap(), Value::Bool(true));
    assert!(stream.poll_next().is_none());
}
