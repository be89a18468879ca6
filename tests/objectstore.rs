use std::cell::RefCell;

use wascc_actor::error::{Error, HostError};
use wascc_actor::host::Host;
use wascc_actor::objectstore::{Blob, BlobList, Container, ObjectStoreHostBinding, Transfer};
use wascc_codec::blobstore as records;
use wascc_codec::{deserialize, serialize};

/// A host that records every dispatch and gives one fixed answer.
struct Recorder {
    answer: Result<Vec<u8>, HostError>,
    calls: RefCell<Vec<(String, String, String, Vec<u8>)>>,
}

impl Recorder {
    fn answering(answer: Result<Vec<u8>, HostError>) -> Recorder {
        Recorder { answer, calls: RefCell::new(vec![]) }
    }

    fn call(&self, i: usize) -> (String, String, String, Vec<u8>) {
        self.calls.borrow()[i].clone()
    }

    fn count(&self) -> usize {
        self.calls.borrow().len()
    }
}

impl Host for &Recorder {
    fn call(&self, binding: &str, capability: &str, operation: &str, payload: &[u8]) -> Result<Vec<u8>, HostError> {
        self.calls.borrow_mut().push((binding.to_string(), capability.to_string(), operation.to_string(), payload.to_vec()));
        self.answer.clone()
    }
}

fn blob(id: &str, container: &str, byte_size: u64) -> Blob {
    Blob { id: id.to_string(), container: container.to_string(), byte_size }
}

fn failure() -> HostError {
    HostError { message: "no such bucket".to_string() }
}

#[test]
fn start_upload_with_dividing_chunk_size() {
    let host = Recorder::answering(Ok(vec![]));
    let store = ObjectStoreHostBinding::with_host("default", &host);
    let t = store.start_upload(&blob("photo", "album", 0), 100, 1000).unwrap();
    assert_eq!(
        t,
        Transfer {
            blob_id: "photo".to_string(),
            container: "album".to_string(),
            chunk_size: 100,
            total_size: 1000,
            total_chunks: 10,
            remainder: 0,
            context: None,
        }
    );
}

#[test]
fn start_upload_keeps_the_partial_chunk() {
    let host = Recorder::answering(Ok(vec![]));
    let store = ObjectStoreHostBinding::with_host("default", &host);
    let t = store.start_upload(&blob("photo", "album", 0), 300, 1000).unwrap();
    assert_eq!(t.total_chunks, 3);
    assert_eq!(t.remainder, 100);
    assert_eq!(t.total_chunks * t.chunk_size + t.remainder, t.total_size);
    let t = store.start_upload(&blob("photo", "album", 0), 4096, 10).unwrap();
    assert_eq!((t.total_chunks, t.remainder), (0, 10));
    let t = store.start_upload(&blob("photo", "album", 0), 7, 0).unwrap();
    assert_eq!((t.total_chunks, t.remainder), (0, 0));
    let t = store.start_upload(&blob("photo", "album", 0), 1, u64::MAX).unwrap();
    assert_eq!((t.total_chunks, t.remainder), (u64::MAX, 0));
}

#[test]
fn split_describes_whole_and_partial_chunks() {
    let t = Transfer::split("b", "c", 16, 100, Some("ctx".to_string()));
    assert_eq!((t.total_chunks, t.remainder), (6, 4));
    assert_eq!(t.context, Some("ctx".to_string()));
}

#[test]
fn start_upload_announces_an_empty_first_chunk() {
    let host = Recorder::answering(Ok(b"ignored".to_vec()));
    let store = ObjectStoreHostBinding::with_host("uploads", &host);
    store.start_upload(&blob("photo", "album", 0), 256, 1024).unwrap();
    let (binding, capability, operation, payload) = host.call(0);
    assert_eq!((binding.as_str(), capability.as_str(), operation.as_str()), ("uploads", "wascc:blobstore", "StartUpload"));
    let chunk = deserialize::<records::FileChunk>(&payload).unwrap();
    assert_eq!(
        chunk,
        records::FileChunk {
            sequence_no: 0,
            container: "album".to_string(),
            id: "photo".to_string(),
            total_bytes: 1024,
            chunk_size: 256,
            context: None,
            chunk_bytes: vec![],
        }
    );
}

#[test]
fn start_upload_surfaces_host_failure() {
    let host = Recorder::answering(Err(failure()));
    let store = ObjectStoreHostBinding::with_host("default", &host);
    assert_eq!(store.start_upload(&blob("photo", "album", 0), 10, 100), Err(Error::Host(failure())));
}

#[test]
fn upload_chunk_sends_offset_as_sequence_number() {
    let host = Recorder::answering(Ok(vec![]));
    let store = ObjectStoreHostBinding::with_host("default", &host);
    let t = Transfer::split("photo", "album", 4, 10, None);
    store.upload_chunk(&t, 8, &[9, 9]).unwrap();
    let (_, _, operation, payload) = host.call(0);
    assert_eq!(operation, "UploadChunk");
    let chunk = deserialize::<records::FileChunk>(&payload).unwrap();
    assert_eq!(chunk.sequence_no, 8);
    assert_eq!(chunk.chunk_bytes, vec![9, 9]);
    assert_eq!((chunk.chunk_size, chunk.total_bytes), (4, 10));
    assert_eq!((chunk.id.as_str(), chunk.container.as_str()), ("photo", "album"));
}

#[test]
fn start_download_uses_blob_size_and_context() {
    let host = Recorder::answering(Ok(vec![]));
    let store = ObjectStoreHostBinding::with_host("default", &host);
    let t = store.start_download(&blob("video", "films", 2500), 1000, Some("session-7".to_string())).unwrap();
    assert_eq!((t.total_size, t.total_chunks, t.remainder), (2500, 2, 500));
    assert_eq!(t.context, Some("session-7".to_string()));
    let (_, _, operation, payload) = host.call(0);
    assert_eq!(operation, "StartDownload");
    let req = deserialize::<records::StreamRequest>(&payload).unwrap();
    assert_eq!(
        req,
        records::StreamRequest {
            id: "video".to_string(),
            container: "films".to_string(),
            chunk_size: 1000,
            context: Some("session-7".to_string()),
        }
    );
}

#[test]
fn get_blob_info_with_empty_id_is_none() {
    let reply = serialize(records::Blob { id: String::new(), container: "album".to_string(), byte_size: 0 }).unwrap();
    let host = Recorder::answering(Ok(reply));
    let store = ObjectStoreHostBinding::with_host("default", &host);
    assert_eq!(store.get_blob_info("album", "missing"), Ok(None));
    let req = deserialize::<records::Blob>(&host.call(0).3).unwrap();
    assert_eq!(req, records::Blob { id: "missing".to_string(), container: "album".to_string(), byte_size: 0 });
    assert_eq!(host.call(0).2, "GetObjectInfo");
}

#[test]
fn get_blob_info_returns_reported_blob() {
    let reply = serialize(records::Blob { id: "photo".to_string(), container: "album".to_string(), byte_size: 77 }).unwrap();
    let host = Recorder::answering(Ok(reply));
    let store = ObjectStoreHostBinding::with_host("default", &host);
    assert_eq!(store.get_blob_info("album", "photo"), Ok(Some(blob("photo", "album", 77))));
}

#[test]
fn list_objects_returns_blobs_in_order() {
    let reply = serialize(records::BlobList {
        blobs: vec![
            records::Blob { id: "a".to_string(), container: "c".to_string(), byte_size: 1 },
            records::Blob { id: "b".to_string(), container: "c".to_string(), byte_size: 2 },
        ],
    })
    .unwrap();
    let host = Recorder::answering(Ok(reply));
    let store = ObjectStoreHostBinding::with_host("default", &host);
    assert_eq!(store.list_objects("c"), Ok(BlobList { blobs: vec![blob("a", "c", 1), blob("b", "c", 2)] }));
    assert_eq!(deserialize::<records::Container>(&host.call(0).3).unwrap().id, "c");
    assert_eq!(host.call(0).2, "ListObjects");
}

#[test]
fn create_container_returns_reported_container() {
    let reply = serialize(records::Container { id: "album".to_string() }).unwrap();
    let host = Recorder::answering(Ok(reply));
    let store = ObjectStoreHostBinding::with_host("default", &host);
    assert_eq!(store.create_container("album"), Ok(Container { id: "album".to_string() }));
    assert_eq!(deserialize::<records::Container>(&host.call(0).3).unwrap().id, "album");
    assert_eq!(host.call(0).2, "CreateContainer");
}

#[test]
fn remove_operations_send_their_records() {
    let host = Recorder::answering(Ok(vec![7]));
    let store = ObjectStoreHostBinding::with_host("default", &host);
    assert_eq!(store.remove_object("photo", "album"), Ok(()));
    assert_eq!(store.remove_container("album"), Ok(()));
    let removed = deserialize::<records::Blob>(&host.call(0).3).unwrap();
    assert_eq!(removed, records::Blob { id: "photo".to_string(), container: "album".to_string(), byte_size: 0 });
    assert_eq!(deserialize::<records::Container>(&host.call(1).3).unwrap().id, "album");
    assert_eq!((host.call(0).2.as_str(), host.call(1).2.as_str()), ("RemoveObject", "RemoveContainer"));
}

#[test]
fn malformed_blob_store_reply_is_decode_error() {
    let host = Recorder::answering(Ok(vec![0xc1]));
    let store = ObjectStoreHostBinding::with_host("default", &host);
    assert!(matches!(store.create_container("c"), Err(Error::Decode(_))));
    assert!(matches!(store.list_objects("c"), Err(Error::Decode(_))));
    assert!(matches!(store.get_blob_info("c", "b"), Err(Error::Decode(_))));
}

#[test]
fn every_object_store_operation_surfaces_host_failure() {
    let host = Recorder::answering(Err(failure()));
    let store = ObjectStoreHostBinding::with_host("default", &host);
    let e = Error::Host(failure());
    let b = blob("photo", "album", 10);
    assert_eq!(store.create_container("album"), Err(e.clone()));
    assert_eq!(store.remove_container("album"), Err(e.clone()));
    assert_eq!(store.remove_object("photo", "album"), Err(e.clone()));
    assert_eq!(store.list_objects("album"), Err(e.clone()));
    assert_eq!(store.get_blob_info("album", "photo"), Err(e.clone()));
    assert_eq!(store.start_upload(&b, 5, 10), Err(e.clone()));
    assert_eq!(store.upload_chunk(&Transfer::split("photo", "album", 5, 10, None), 0, &[1]), Err(e.clone()));
    assert_eq!(store.start_download(&b, 5, None), Err(e.clone()));
    assert_eq!(host.count(), 8);
}

fn offered(chunk_size: u64) -> Vec<u8> {
    serialize(records::Transfer {
        blob_id: "photo".to_string(),
        container: "album".to_string(),
        chunk_size,
        total_size: 1000,
        total_chunks: 0,
        context: None,
    })
    .unwrap()
}

#[test]
fn store_chosen_chunk_size_is_authoritative() {
    let host = Recorder::answering(Ok(offered(256)));
    let store = ObjectStoreHostBinding::with_host("default", &host);
    let t = store.start_upload(&blob("photo", "album", 0), 100, 1000).unwrap();
    assert_eq!((t.chunk_size, t.total_chunks, t.remainder), (256, 3, 232));
    let t = store.start_download(&blob("photo", "album", 1000), 100, None).unwrap();
    assert_eq!((t.chunk_size, t.total_chunks, t.remainder), (256, 3, 232));
}

#[test]
fn zero_chunk_size_in_reply_keeps_requested_size() {
    let host = Recorder::answering(Ok(offered(0)));
    let store = ObjectStoreHostBinding::with_host("default", &host);
    let t = store.start_upload(&blob("photo", "album", 0), 100, 1000).unwrap();
    assert_eq!((t.chunk_size, t.total_chunks, t.remainder), (100, 10, 0));
}
