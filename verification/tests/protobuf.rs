use abci::error::DecodeError;
use abci::request::{self, Request};
use abci::response::{self, ApplySnapshotChunkResult, Response};
use abci::wire;
use prost::Message;
use std::convert::TryFrom;
use tendermint_proto::abci as pb;

/// The protobuf message of the records that these tests send.
fn request_message(record: wire::Request) -> pb::Request {
    let value = match record.value {
        Some(wire::RequestValue::Echo(echo)) => {
            Some(pb::request::Value::Echo(pb::RequestEcho { message: echo.message }))
        },
        Some(wire::RequestValue::Flush) => Some(pb::request::Value::Flush(pb::RequestFlush {})),
        None => None,
        Some(other) => panic!("not sent in these tests: {:?}", other),
    };
    pb::Request { value }
}

/// The record of the protobuf messages that these tests receive.
fn request_record(message: pb::Request) -> wire::Request {
    let value = match message.value {
        Some(pb::request::Value::Echo(echo)) => {
            Some(wire::RequestValue::Echo(wire::RequestEcho { message: echo.message }))
        },
        Some(pb::request::Value::Flush(_)) => Some(wire::RequestValue::Flush),
        None => None,
        Some(other) => panic!("not received in these tests: {:?}", other),
    };
    wire::Request { value }
}

fn response_record(message: pb::Response) -> wire::Response {
    let value = match message.value {
        Some(pb::response::Value::ApplySnapshotChunk(answer)) => {
            Some(wire::ResponseValue::ApplySnapshotChunk(wire::ResponseApplySnapshotChunk {
                result: answer.result,
                refetch_chunks: answer.refetch_chunks,
                reject_senders: answer.reject_senders,
            }))
        },
        None => None,
        Some(other) => panic!("not received in these tests: {:?}", other),
    };
    wire::Response { value }
}

#[test]
fn echo_ping_travels_as_bytes_and_comes_back() {
    let echo = Request::Echo(request::Echo { message: "ping".to_string() });
    let bytes = request_message(wire::Request::from(echo.clone())).encode_to_vec();
    assert_eq!(bytes, vec![0x0a, 0x06, 0x0a, 0x04, b'p', b'i', b'n', b'g']);
    let message = pb::Request::decode(bytes.as_slice()).unwrap();
    assert_eq!(Request::try_from(request_record(message)), Ok(echo));
}

#[test]
fn flush_travels_as_an_empty_payload() {
    let bytes = request_message(wire::Request::from(Request::Flush)).encode_to_vec();
    assert_eq!(bytes, vec![0x12, 0x00]);
    let message = pb::Request::decode(bytes.as_slice()).unwrap();
    assert_eq!(Request::try_from(request_record(message)), Ok(Request::Flush));
}

#[test]
fn no_bytes_are_a_missing_payload() {
    let message = pb::Request::decode(&[][..]).unwrap();
    assert_eq!(Request::try_from(request_record(message)), Err(DecodeError::MissingPayload));
}

#[test]
fn chunk_result_six_on_the_wire_is_unknown() {
    // Selector 15, a payload of two bytes: field 1 holds 6.
    let bytes = [0x7a, 0x02, 0x08, 0x06];
    let message = pb::Response::decode(&bytes[..]).unwrap();
    assert_eq!(
        Response::try_from(response_record(message)),
        Err(DecodeError::UnknownEnumValue(6))
    );
}

#[test]
fn chunk_result_three_on_the_wire_is_retry() {
    // Selector 15: result 3, one chunk to refetch (packed), one sender.
    let bytes = [0x7a, 0x09, 0x08, 0x03, 0x12, 0x01, 0x00, 0x1a, 0x02, b'n', b'7'];
    let message = pb::Response::decode(&bytes[..]).unwrap();
    assert_eq!(
        Response::try_from(response_record(message)),
        Ok(Response::ApplySnapshotChunk(response::ApplySnapshotChunk {
            result: ApplySnapshotChunkResult::Retry,
            refetch_chunks: vec![0],
            reject_senders: vec!["n7".to_string()],
        }))
    );
}

#[test]
fn an_absent_chunk_result_on_the_wire_is_unknown() {
    // Selector 15 with an empty payload.
    let bytes = [0x7a, 0x00];
    let message = pb::Response::decode(&bytes[..]).unwrap();
    assert_eq!(
        Response::try_from(response_record(message)),
        Ok(Response::ApplySnapshotChunk(response::ApplySnapshotChunk::default()))
    );
}
