//! The object (blob) store capability: containers, blob metadata, and the
//! chunked transfer convention for moving blob contents.
//!
//! A transfer is described on the guest side only: [`Transfer`] records the
//! blob, the chunk size, the total size and how that size splits into whole
//! chunks and a final partial chunk. The binding keeps no transfer state of its
//! own; sending the chunks in order, resuming and detecting completion are the
//! caller's and the host's concern.

use crate::codec::{
    blob_fields, opt_text, pack_blob, pack_container, pack_file_chunk, pack_stream_request, unpack_blob, unpack_blob_list,
    unpack_container, unpack_transfer, unpacked, Record, RecordKind,
};
use crate::error::{Error, HostError};
use crate::host::{acknowledge, acknowledged, address, reads, send, Dispatch, Host, WapcHost, DEFAULT_BINDING};
use crate::msgpack::{nesting_within, within_nesting, NESTED_TOO_DEEP};
use vstd::prelude::*;

verus! {

/// The capability identifier of a blob store.
pub const CAPID_BLOBSTORE: &'static str = "wascc:blobstore";
/// The operation that creates a container.
pub const OP_CREATE_CONTAINER: &'static str = "CreateContainer";
/// The operation that removes a container.
pub const OP_REMOVE_CONTAINER: &'static str = "RemoveContainer";
/// The operation that removes a blob.
pub const OP_REMOVE_OBJECT: &'static str = "RemoveObject";
/// The operation that lists the blobs of a container.
pub const OP_LIST_OBJECTS: &'static str = "ListObjects";
/// The operation that carries one chunk of an upload.
pub const OP_UPLOAD_CHUNK: &'static str = "UploadChunk";
/// The operation that arms a download.
pub const OP_START_DOWNLOAD: &'static str = "StartDownload";
/// The operation that announces an upload.
pub const OP_START_UPLOAD: &'static str = "StartUpload";
/// The operation by which the host delivers one chunk of a download to the actor.
pub const OP_RECEIVE_CHUNK: &'static str = "ReceiveChunk";
/// The operation that reads a blob's metadata.
pub const OP_GET_OBJECT_INFO: &'static str = "GetObjectInfo";

/// A namespace of blobs.
#[derive(Clone, Debug, PartialEq, Eq)]
pub struct Container {
    pub id: String,
}

/// A named byte object within a container.
#[derive(Clone, Debug, PartialEq, Eq)]
pub struct Blob {
    pub id: String,
    pub container: String,
    pub byte_size: u64,
}

/// The blobs of a container.
#[derive(Clone, Debug, PartialEq, Eq)]
pub struct BlobList {
    pub blobs: Vec<Blob>,
}

/// The guest-side description of a chunked upload or download.
///
/// The blob's `total_size` splits into `total_chunks` whole chunks of
/// `chunk_size` bytes and a final partial chunk of `remainder` bytes, which is
/// empty where the chunk size divides the total size.
#[derive(Clone, Debug, PartialEq, Eq)]
pub struct Transfer {
    pub blob_id: String,
    pub container: String,
    pub chunk_size: u64,
    pub total_size: u64,
    pub total_chunks: u64,
    pub remainder: u64,
    /// An opaque value that the host echoes with every chunk of the transfer.
    pub context: Option<String>,
}

impl Transfer {
    /// The number of whole chunks and the size of the final partial chunk are
    /// those of `total_size` divided by `chunk_size`.
    pub open spec fn wf(&self) -> bool {
        &&& self.chunk_size > 0
        &&& self.total_chunks == self.total_size / self.chunk_size
        &&& self.remainder == self.total_size % self.chunk_size
    }

    /// This transfer moves the given blob in chunks of the given size.
    pub open spec fn describes(
        &self,
        blob_id: Seq<char>,
        container: Seq<char>,
        chunk_size: u64,
        total_size: u64,
        context: Option<String>,
    ) -> bool {
        &&& self.wf()
        &&& self.blob_id@ == blob_id
        &&& self.container@ == container
        &&& self.chunk_size == chunk_size
        &&& self.total_size == total_size
        &&& self.context == context
    }

    /// Describes the transfer of `total_size` bytes of a blob in chunks of `chunk_size` bytes.
    pub fn split(blob_id: &str, container: &str, chunk_size: u64, total_size: u64, context: Option<String>) -> (r: Transfer)
        requires
            chunk_size > 0,
        ensures
            r.describes(blob_id@, container@, chunk_size, total_size, context),
    {
        Transfer {
            blob_id: blob_id.to_string(),
            container: container.to_string(),
            chunk_size,
            total_size,
            total_chunks: total_size / chunk_size,
            remainder: total_size % chunk_size,
            context,
        }
    }
}

/// The whole chunks and the final partial chunk of a transfer cover the blob
/// exactly: no byte is left out, and the partial chunk is shorter than a chunk.
/// It is empty exactly where the chunk size divides the total size.
pub proof fn transfer_covers_blob(t: Transfer)
    requires
        t.wf(),
    ensures
        t.total_chunks * t.chunk_size + t.remainder == t.total_size,
        t.remainder < t.chunk_size,
        (t.remainder == 0) <==> (t.total_size % t.chunk_size == 0),
        t.total_size % t.chunk_size == 0 ==> t.total_chunks * t.chunk_size == t.total_size,
{
    vstd::arithmetic::div_mod::lemma_fundamental_div_mod(t.total_size as int, t.chunk_size as int);
}

/// A binding to one instance of the blob store capability.
pub struct ObjectStoreHostBinding<H> {
    binding: String,
    host: H,
}

impl<H> View for ObjectStoreHostBinding<H> {
    /// The binding name that every dispatch of this binding addresses.
    type V = Seq<char>;

    closed spec fn view(&self) -> Seq<char> {
        self.binding@
    }
}

impl Default for ObjectStoreHostBinding<WapcHost> {
    fn default() -> (r: Self)
        ensures
            r@ == DEFAULT_BINDING@,
    {
        ObjectStoreHostBinding::with_host(DEFAULT_BINDING, WapcHost)
    }
}

/// Creates a binding to the named blob store.
pub fn host(binding: &str) -> (r: ObjectStoreHostBinding<WapcHost>)
    ensures
        r@ == binding@,
{
    ObjectStoreHostBinding::with_host(binding, WapcHost)
}

/// Creates a binding to the default blob store.
pub fn default() -> (r: ObjectStoreHostBinding<WapcHost>)
    ensures
        r@ == DEFAULT_BINDING@,
{
    ObjectStoreHostBinding::with_host(DEFAULT_BINDING, WapcHost)
}

/// The meaning of a reply that is a container record: that container.
pub open spec fn container_meaning(record: Record, r: Result<Container, Error>) -> bool {
    match record {
        Record::Container { id } => r is Ok && r->Ok_0.id@ == id,
        _ => false,
    }
}

/// `r` is what the host's `reply` to a container creation means.
pub open spec fn container_answer(reply: Result<Vec<u8>, HostError>, r: Result<Container, Error>) -> bool {
    reads(reply, RecordKind::Container, r, |record, r| container_meaning(record, r))
}

/// The meaning of a reply that is a blob list: its blobs, in order.
pub open spec fn blob_list_meaning(record: Record, r: Result<BlobList, Error>) -> bool {
    match record {
        Record::BlobList { blobs } => r is Ok && blob_fields(r->Ok_0.blobs@) == blobs,
        _ => false,
    }
}

/// `r` is what the host's `reply` to a listing means.
pub open spec fn blob_list_answer(reply: Result<Vec<u8>, HostError>, r: Result<BlobList, Error>) -> bool {
    reads(reply, RecordKind::BlobList, r, |record, r| blob_list_meaning(record, r))
}

/// The meaning of a reply to a metadata query: no blob where the record's
/// identifier is empty, and otherwise the blob that the record describes.
pub open spec fn blob_info_meaning(record: Record, r: Result<Option<Blob>, Error>) -> bool {
    match record {
        Record::Blob { id, container, byte_size } => r is Ok && if id.len() == 0 {
            r->Ok_0 is None
        } else {
            r->Ok_0 is Some && r->Ok_0->Some_0.id@ == id && r->Ok_0->Some_0.container@ == container
                && r->Ok_0->Some_0.byte_size == byte_size
        },
        _ => false,
    }
}

/// `r` is what the host's `reply` to a metadata query means.
pub open spec fn blob_info_answer(reply: Result<Vec<u8>, HostError>, r: Result<Option<Blob>, Error>) -> bool {
    reads(reply, RecordKind::Blob, r, |record, r| blob_info_meaning(record, r))
}

/// The chunk size that a transfer proceeds with, given the bytes of the host's
/// reply to its start: the chunk size of a transfer record in the reply, where
/// the reply is one (nested no deeper than a reply may be) and that size is
/// not 0, and otherwise the size that was asked for.
pub open spec fn agreed_chunk_size(reply: Seq<u8>, requested: u64) -> u64 {
    if !nesting_within(reply) {
        requested
    } else {
        match unpacked(reply, RecordKind::Transfer) {
            Some(Record::Transfer { chunk_size, .. }) => if chunk_size > 0 {
                chunk_size
            } else {
                requested
            },
            _ => requested,
        }
    }
}

/// `r` is what the host's `reply` to the start of a transfer of `total_size`
/// bytes of a blob, in chunks of `requested` bytes, means: the transfer, in
/// chunks of the size that the reply settles.
pub open spec fn transfer_answer(
    reply: Result<Vec<u8>, HostError>,
    r: Result<Transfer, Error>,
    blob_id: Seq<char>,
    container: Seq<char>,
    requested: u64,
    total_size: u64,
    context: Option<String>,
) -> bool {
    match reply {
        Err(e) => r == Err::<Transfer, Error>(Error::Host(e)),
        Ok(b) => r is Ok && r->Ok_0.describes(blob_id, container, agreed_chunk_size(b@, requested), total_size, context),
    }
}

/// Reads the host's reply to the start of a transfer as the chunk size to use:
/// the store's choice where it reports one, and otherwise `requested`.
pub fn read_chunk_size(reply: Result<Vec<u8>, HostError>, requested: u64) -> (r: Result<u64, Error>)
    ensures
        match reply {
            Ok(bytes) => r == Ok::<u64, Error>(agreed_chunk_size(bytes@, requested)),
            Err(e) => r == Err::<u64, Error>(Error::Host(e)),
        },
{
    match reply {
        Err(e) => Err(Error::Host(e)),
        Ok(bytes) => if !within_nesting(bytes.as_slice()) {
            Ok(requested)
        } else {
            match unpack_transfer(bytes.as_slice()) {
                Ok((_, _, chunk_size, _, _, _)) => if chunk_size > 0 {
                    Ok(chunk_size)
                } else {
                    Ok(requested)
                },
                Err(_) => Ok(requested),
            }
        },
    }
}

/// Reads the host's reply to a container creation as the container it reports.
pub fn read_container(reply: Result<Vec<u8>, HostError>) -> (r: Result<Container, Error>)
    ensures
        container_answer(reply, r),
{
    match reply {
        Err(e) => Err(Error::Host(e)),
        Ok(bytes) => if !within_nesting(bytes.as_slice()) {
            Err(Error::Decode(NESTED_TOO_DEEP.to_string()))
        } else {
            match unpack_container(bytes.as_slice()) {
                Ok(container) => Ok(container),
                Err(m) => Err(Error::Decode(m)),
            }
        },
    }
}

/// Reads the host's reply to a listing as the blobs it names.
pub fn read_blob_list(reply: Result<Vec<u8>, HostError>) -> (r: Result<BlobList, Error>)
    ensures
        blob_list_answer(reply, r),
{
    match reply {
        Err(e) => Err(Error::Host(e)),
        Ok(bytes) => if !within_nesting(bytes.as_slice()) {
            Err(Error::Decode(NESTED_TOO_DEEP.to_string()))
        } else {
            match unpack_blob_list(bytes.as_slice()) {
                Ok(blobs) => Ok(BlobList { blobs }),
                Err(m) => Err(Error::Decode(m)),
            }
        },
    }
}

/// Reads the host's reply to a metadata query: a blob record with an empty
/// identifier means that there is no such blob.
pub fn read_blob_info(reply: Result<Vec<u8>, HostError>) -> (r: Result<Option<Blob>, Error>)
    ensures
        blob_info_answer(reply, r),
{
    match reply {
        Err(e) => Err(Error::Host(e)),
        Ok(bytes) => if !within_nesting(bytes.as_slice()) {
            Err(Error::Decode(NESTED_TOO_DEEP.to_string()))
        } else {
            match unpack_blob(bytes.as_slice()) {
                Ok(blob) => if blob.id.as_str().is_empty() {
                    Ok(None)
                } else {
                    Ok(Some(blob))
                },
                Err(m) => Err(Error::Decode(m)),
            }
        },
    }
}

impl<H: Host> ObjectStoreHostBinding<H> {
    /// Creates a binding to the named blob store that dispatches through the given host.
    pub fn with_host(binding: &str, host: H) -> (r: Self)
        ensures
            r@ == binding@,
    {
        ObjectStoreHostBinding { binding: binding.to_string(), host }
    }

    /// The dispatch that creates the container `name`.
    pub fn create_container_dispatch(&self, name: &str) -> (r: Dispatch)
        ensures
            r.carries(self@, CAPID_BLOBSTORE@, OP_CREATE_CONTAINER@, Record::Container { id: name@ }),
    {
        address(self.binding.as_str(), CAPID_BLOBSTORE, OP_CREATE_CONTAINER, pack_container(name))
    }

    /// Creates a new container named `name` and returns the container that the store reports.
    pub fn create_container(&self, name: &str) -> (r: Result<Container, Error>)
        ensures
            exists|reply| container_answer(reply, r),
    {
        read_container(send(&self.host, &self.create_container_dispatch(name)))
    }

    /// The dispatch that removes the container `name`.
    pub fn remove_container_dispatch(&self, name: &str) -> (r: Dispatch)
        ensures
            r.carries(self@, CAPID_BLOBSTORE@, OP_REMOVE_CONTAINER@, Record::Container { id: name@ }),
    {
        address(self.binding.as_str(), CAPID_BLOBSTORE, OP_REMOVE_CONTAINER, pack_container(name))
    }

    /// Removes the container named `name`. Whether a container that still holds
    /// blobs can be removed is up to the store.
    pub fn remove_container(&self, name: &str) -> (r: Result<(), Error>)
        ensures
            exists|reply| r == acknowledged(reply),
    {
        acknowledge(send(&self.host, &self.remove_container_dispatch(name)))
    }

    /// The dispatch that removes the blob `name` from `container`.
    pub fn remove_object_dispatch(&self, name: &str, container: &str) -> (r: Dispatch)
        ensures
            r.carries(
                self@,
                CAPID_BLOBSTORE@,
                OP_REMOVE_OBJECT@,
                Record::Blob { id: name@, container: container@, byte_size: 0 },
            ),
    {
        address(self.binding.as_str(), CAPID_BLOBSTORE, OP_REMOVE_OBJECT, pack_blob(name, container, 0))
    }

    /// Removes the blob `name` from `container`.
    pub fn remove_object(&self, name: &str, container: &str) -> (r: Result<(), Error>)
        ensures
            exists|reply| r == acknowledged(reply),
    {
        acknowledge(send(&self.host, &self.remove_object_dispatch(name, container)))
    }

    /// The dispatch that lists the blobs of `container`.
    pub fn list_objects_dispatch(&self, container: &str) -> (r: Dispatch)
        ensures
            r.carries(self@, CAPID_BLOBSTORE@, OP_LIST_OBJECTS@, Record::Container { id: container@ }),
    {
        address(self.binding.as_str(), CAPID_BLOBSTORE, OP_LIST_OBJECTS, pack_container(container))
    }

    /// Lists the blobs of `container`.
    pub fn list_objects(&self, container: &str) -> (r: Result<BlobList, Error>)
        ensures
            exists|reply| blob_list_answer(reply, r),
    {
        read_blob_list(send(&self.host, &self.list_objects_dispatch(container)))
    }

    /// The dispatch that reads the metadata of blob `id` in `container`.
    pub fn get_blob_info_dispatch(&self, container: &str, id: &str) -> (r: Dispatch)
        ensures
            r.carries(
                self@,
                CAPID_BLOBSTORE@,
                OP_GET_OBJECT_INFO@,
                Record::Blob { id: id@, container: container@, byte_size: 0 },
            ),
    {
        address(self.binding.as_str(), CAPID_BLOBSTORE, OP_GET_OBJECT_INFO, pack_blob(id, container, 0))
    }

    /// Reads the metadata of blob `id` in `container`, without its bytes; `None`
    /// where the store knows no such blob.
    pub fn get_blob_info(&self, container: &str, id: &str) -> (r: Result<Option<Blob>, Error>)
        ensures
            exists|reply| blob_info_answer(reply, r),
    {
        read_blob_info(send(&self.host, &self.get_blob_info_dispatch(container, id)))
    }

    /// The dispatch that announces the upload of `total_bytes` bytes into `blob`
    /// in chunks of `chunk_size` bytes: a chunk record with no bytes and
    /// sequence number 0.
    pub fn start_upload_dispatch(&self, blob: &Blob, chunk_size: u64, total_bytes: u64) -> (r: Dispatch)
        ensures
            r.carries(
                self@,
                CAPID_BLOBSTORE@,
                OP_START_UPLOAD@,
                Record::FileChunk {
                    sequence_no: 0,
                    container: blob.container@,
                    id: blob.id@,
                    total_bytes,
                    chunk_size,
                    context: None,
                    chunk_bytes: Seq::empty(),
                },
            ),
    {
        let no_bytes: Vec<u8> = Vec::new();
        let payload = pack_file_chunk(
            0,
            blob.container.as_str(),
            blob.id.as_str(),
            total_bytes,
            chunk_size,
            None,
            no_bytes.as_slice(),
        );
        address(self.binding.as_str(), CAPID_BLOBSTORE, OP_START_UPLOAD, payload)
    }

    /// Announces the upload of `total_bytes` bytes into `blob`, in chunks of
    /// `chunk_size` bytes. The chunks are then sent one by one with
    /// [`upload_chunk`](Self::upload_chunk). The requested chunk size is a
    /// suggestion: where the store's reply is a transfer record with a chunk
    /// size, that size is the one the returned transfer uses.
    pub fn start_upload(&self, blob: &Blob, chunk_size: u64, total_bytes: u64) -> (r: Result<Transfer, Error>)
        requires
            chunk_size > 0,
        ensures
            exists|reply| transfer_answer(reply, r, blob.id@, blob.container@, chunk_size, total_bytes, None),
    {
        let reply = send(&self.host, &self.start_upload_dispatch(blob, chunk_size, total_bytes));
        let ghost sent = reply;
        match read_chunk_size(reply, chunk_size) {
            Ok(agreed) => {
                let t = Transfer::split(blob.id.as_str(), blob.container.as_str(), agreed, total_bytes, None);
                assert(transfer_answer(sent, Ok::<Transfer, Error>(t), blob.id@, blob.container@, chunk_size, total_bytes, None));
                Ok(t)
            },
            Err(e) => {
                assert(transfer_answer(sent, Err::<Transfer, Error>(e), blob.id@, blob.container@, chunk_size, total_bytes, None));
                Err(e)
            },
        }
    }

    /// The dispatch that carries the chunk `bytes` of `transfer`, starting at
    /// byte `offset` of the blob. The offset travels as the chunk's sequence
    /// number; the transfer's context travels with it.
    pub fn upload_chunk_dispatch(&self, transfer: &Transfer, offset: u64, bytes: &[u8]) -> (r: Dispatch)
        ensures
            r.carries(
                self@,
                CAPID_BLOBSTORE@,
                OP_UPLOAD_CHUNK@,
                Record::FileChunk {
                    sequence_no: offset,
                    container: transfer.container@,
                    id: transfer.blob_id@,
                    total_bytes: transfer.total_size,
                    chunk_size: transfer.chunk_size,
                    context: opt_text(transfer.context),
                    chunk_bytes: bytes@,
                },
            ),
    {
        let payload = pack_file_chunk(
            offset,
            transfer.container.as_str(),
            transfer.blob_id.as_str(),
            transfer.total_size,
            transfer.chunk_size,
            transfer.context.clone(),
            bytes,
        );
        address(self.binding.as_str(), CAPID_BLOBSTORE, OP_UPLOAD_CHUNK, payload)
    }

    /// Sends one chunk of an upload announced by [`start_upload`](Self::start_upload).
    /// `offset` is the position in the blob, in bytes, of the chunk's first
    /// byte. Nothing is read from the reply but its success.
    pub fn upload_chunk(&self, transfer: &Transfer, offset: u64, bytes: &[u8]) -> (r: Result<(), Error>)
        ensures
            exists|reply| r == acknowledged(reply),
    {
        acknowledge(send(&self.host, &self.upload_chunk_dispatch(transfer, offset, bytes)))
    }

    /// The dispatch that arms the download of `blob` in chunks of `chunk_size` bytes.
    pub fn start_download_dispatch(&self, blob: &Blob, chunk_size: u64, context: Option<String>) -> (r: Dispatch)
        ensures
            r.carries(
                self@,
                CAPID_BLOBSTORE@,
                OP_START_DOWNLOAD@,
                Record::StreamRequest { id: blob.id@, container: blob.container@, chunk_size, context: opt_text(context) },
            ),
    {
        let payload = pack_stream_request(blob.id.as_str(), blob.container.as_str(), chunk_size, context);
        address(self.binding.as_str(), CAPID_BLOBSTORE, OP_START_DOWNLOAD, payload)
    }

    /// Asks the store to start a chunked download of `blob` in chunks of
    /// `chunk_size` bytes. The chunks then arrive at the actor as
    /// [`OP_RECEIVE_CHUNK`] messages, each carrying `context`. The returned
    /// transfer is computed here from the blob's size, with the store's chunk
    /// size where its reply reports one.
    pub fn start_download(&self, blob: &Blob, chunk_size: u64, context: Option<String>) -> (r: Result<Transfer, Error>)
        requires
            chunk_size > 0,
        ensures
            exists|reply| transfer_answer(reply, r, blob.id@, blob.container@, chunk_size, blob.byte_size, context),
    {
        let reply = send(&self.host, &self.start_download_dispatch(blob, chunk_size, context.clone()));
        let ghost sent = reply;
        match read_chunk_size(reply, chunk_size) {
            Ok(agreed) => {
                let ghost wanted = context;
                let t = Transfer::split(blob.id.as_str(), blob.container.as_str(), agreed, blob.byte_size, context);
                assert(transfer_answer(sent, Ok::<Transfer, Error>(t), blob.id@, blob.container@, chunk_size, blob.byte_size, wanted));
                Ok(t)
            },
            Err(e) => {
                assert(transfer_answer(sent, Err::<Transfer, Error>(e), blob.id@, blob.container@, chunk_size, blob.byte_size, context));
                Err(e)
            },
        }
    }
}

} // verus!
