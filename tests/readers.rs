use wascc_actor::error::{Error, HostError};
use wascc_actor::events::read_event_id;
use wascc_actor::extras::{read_guid, read_random, read_sequence};
use wascc_actor::host::{acknowledge, relay};
use wascc_actor::keyvalue::{read_exists, read_list_count, read_list_values, read_set_count, read_set_values, read_sum, read_value};
use wascc_actor::messaging::reply_subject_of;
use wascc_actor::objectstore::{read_blob_info, read_blob_list, read_chunk_size, read_container, Blob, Container};
use wascc_codec::serialize;

fn down() -> HostError {
    HostError { message: "down".to_string() }
}

#[test]
fn relay_and_acknowledge_pass_replies_and_failures() {
    assert_eq!(relay(Ok(vec![1, 2])), Ok(vec![1, 2]));
    assert_eq!(relay(Err(down())), Err(Error::Host(down())));
    assert_eq!(acknowledge(Ok(vec![1, 2])), Ok(()));
    assert_eq!(acknowledge(Err(down())), Err(Error::Host(down())));
}

#[test]
fn key_value_readers_interpret_records() {
    let found = serialize(wascc_codec::keyvalue::GetResponse { value: "v".to_string(), exists: true }).unwrap();
    assert_eq!(read_value(Ok(found.clone())), Ok(Some("v".to_string())));
    assert_eq!(read_exists(Ok(found)), Ok(true));
    let absent = serialize(wascc_codec::keyvalue::GetResponse { value: "stale".to_string(), exists: false }).unwrap();
    assert_eq!(read_value(Ok(absent)), Ok(None));
    let sum = serialize(wascc_codec::keyvalue::AddResponse { value: i32::MIN }).unwrap();
    assert_eq!(read_sum(Ok(sum)), Ok(i32::MIN));
    let zero = serialize(wascc_codec::keyvalue::ListResponse { new_count: 0 }).unwrap();
    assert_eq!(read_list_count(Ok(zero)), Ok(0));
    let most = serialize(wascc_codec::keyvalue::SetOperationResponse { new_count: i32::MAX }).unwrap();
    assert_eq!(read_set_count(Ok(most)), Ok(i32::MAX as usize));
    let negative = serialize(wascc_codec::keyvalue::SetOperationResponse { new_count: -1 }).unwrap();
    assert!(matches!(read_set_count(Ok(negative)), Err(Error::Decode(_))));
    let none = serialize(wascc_codec::keyvalue::ListRangeResponse { values: vec![] }).unwrap();
    assert_eq!(read_list_values(Ok(none)), Ok(vec![]));
    let members = serialize(wascc_codec::keyvalue::SetQueryResponse { values: vec!["a".to_string()] }).unwrap();
    assert_eq!(read_set_values(Ok(members)), Ok(vec!["a".to_string()]));
    assert_eq!(read_value(Err(down())), Err(Error::Host(down())));
    assert!(matches!(read_value(Ok(vec![])), Err(Error::Decode(_))));
}

#[test]
fn blob_store_readers_interpret_records() {
    let c = serialize(wascc_codec::blobstore::Container { id: "c".to_string() }).unwrap();
    assert_eq!(read_container(Ok(c)), Ok(Container { id: "c".to_string() }));
    let empty = serialize(wascc_codec::blobstore::BlobList { blobs: vec![] }).unwrap();
    assert_eq!(read_blob_list(Ok(empty)).unwrap().blobs, vec![]);
    let b = serialize(wascc_codec::blobstore::Blob { id: "b".to_string(), container: "c".to_string(), byte_size: 3 }).unwrap();
    assert_eq!(
        read_blob_info(Ok(b)),
        Ok(Some(Blob { id: "b".to_string(), container: "c".to_string(), byte_size: 3 }))
    );
    assert_eq!(read_chunk_size(Ok(vec![]), 64), Ok(64));
    assert_eq!(read_chunk_size(Err(down()), 64), Err(Error::Host(down())));
}

#[test]
fn extras_and_event_readers_interpret_records() {
    let result = serialize(wascc_codec::extras::GeneratorResult {
        guid: Some("g".to_string()),
        sequence_number: 12,
        random_number: 34,
    })
    .unwrap();
    assert_eq!(read_guid(Ok(result.clone())), Ok("g".to_string()));
    assert_eq!(read_sequence(Ok(result.clone())), Ok(12));
    assert_eq!(read_random(Ok(result)), Ok(34));
    let written = serialize(wascc_codec::eventstreams::WriteResponse { event_id: "e-9".to_string() }).unwrap();
    assert_eq!(read_event_id(Ok(written)), Ok("e-9".to_string()));
}

#[test]
fn absent_reply_subject_is_empty() {
    assert_eq!(reply_subject_of(None), "");
    assert_eq!(reply_subject_of(Some("inbox.1")), "inbox.1");
}
