use coerce::actor::message::{
    remote_envelope, Envelope, EnvelopeType, Message, MessageUnwrapErr, MessageWrapErr,
};

#[derive(Debug, PartialEq)]
struct Plain(u32);

impl Message for Plain {
    type Result = u32;
}

#[derive(Debug, PartialEq)]
struct Wired(u8);

impl Message for Wired {
    type Result = u8;

    fn as_bytes(&self) -> Result<Vec<u8>, MessageWrapErr> {
        if self.0 == 0xff {
            Err(MessageWrapErr::SerializationErr)
        } else {
            Ok(vec![self.0])
        }
    }

    fn from_bytes(bytes: Vec<u8>) -> Result<Self, MessageUnwrapErr> {
        match bytes.as_slice() {
            [b] => Ok(Wired(*b)),
            _ => Err(MessageUnwrapErr::DeserializationErr),
        }
    }

    fn read_remote_result(bytes: Vec<u8>) -> Result<u8, MessageUnwrapErr> {
        bytes.first().copied().ok_or(MessageUnwrapErr::DeserializationErr)
    }

    fn write_remote_result(res: u8) -> Result<Vec<u8>, MessageWrapErr> {
        Ok(vec![res])
    }
}

#[test]
fn local_envelope_carries_the_message_itself() {
    match Plain(3).into_envelope(EnvelopeType::Local) {
        Ok(Envelope::Local(m)) => assert_eq!(m, Plain(3)),
        _ => panic!("local envelope"),
    }
    assert_eq!(Plain::from_envelope(Envelope::Local(Plain(4))), Ok(Plain(4)));
}

#[test]
fn message_without_encoding_is_not_transmittable() {
    assert!(matches!(
        Plain(3).into_envelope(EnvelopeType::Remote),
        Err(MessageWrapErr::NotTransmittable)
    ));
    assert_eq!(Plain(3).as_bytes(), Err(MessageWrapErr::NotTransmittable));
    assert_eq!(Plain::from_bytes(vec![1]), Err(MessageUnwrapErr::NotTransmittable));
    assert_eq!(
        Plain::from_envelope(Envelope::Remote(vec![1])),
        Err(MessageUnwrapErr::NotTransmittable)
    );
    assert_eq!(Plain::read_remote_result(vec![1]), Err(MessageUnwrapErr::NotTransmittable));
    assert_eq!(Plain::write_remote_result(1), Err(MessageWrapErr::NotTransmittable));
}

#[test]
fn remote_envelope_carries_the_encoding() {
    match Wired(7).into_envelope(EnvelopeType::Remote) {
        Ok(envelope) => assert_eq!(envelope.into_bytes(), vec![7]),
        Err(_) => panic!("remote envelope"),
    }
    assert!(matches!(
        Wired(0xff).into_envelope(EnvelopeType::Remote),
        Err(MessageWrapErr::SerializationErr)
    ));
    assert_eq!(Wired::from_envelope(Envelope::Remote(vec![9])), Ok(Wired(9)));
    assert_eq!(
        Wired::from_envelope(Envelope::Remote(vec![])),
        Err(MessageUnwrapErr::DeserializationErr)
    );
    assert_eq!(Wired::read_remote_result(vec![5]), Ok(5));
    assert_eq!(Wired::write_remote_result(5), Ok(vec![5]));
    assert!(matches!(
        remote_envelope::<Wired>(Ok(vec![1, 2])),
        Ok(Envelope::Remote(bytes)) if bytes == vec![1, 2]
    ));
    assert!(matches!(
        remote_envelope::<Wired>(Err(MessageWrapErr::Unknown)),
        Err(MessageWrapErr::Unknown)
    ));
}

#[test]
fn errors_say_what_went_wrong() {
    assert_eq!(MessageWrapErr::NotTransmittable.message(), "Message serialisation not supported, messages must override Message::as_remote_envelop and Message::write_remote_result");
    assert_eq!(MessageWrapErr::SerializationErr.message(), "Message failed to serialise");
    assert_eq!(MessageWrapErr::Unknown.message(), "Message failed to serialise, unknown error");
    assert_eq!(MessageUnwrapErr::NotTransmittable.message(), "Message deserialisation not supported, messages must override Message::as_remote_envelope, Message::from_remote_envelope, Message::read_remote_result, and Message::write_remote_result");
    assert_eq!(MessageUnwrapErr::DeserializationErr.message(), "Message failed to deserialise");
    assert_eq!(MessageUnwrapErr::Unknown.message(), "Message failed to deserialise, unknown error");
}
