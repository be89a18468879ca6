//! The key-value store capability. Every operation is one dispatch; atomicity,
//! range semantics and set algebra are the store's, and nothing of them is
//! computed here.

use crate::codec::{
    pack_add_request, pack_del_request, pack_get_request, pack_key_exists_query, pack_list_clear_request,
    pack_list_del_item_request, pack_list_push_request, pack_list_range_request, pack_set_add_request,
    pack_set_intersection_request, pack_set_query_request, pack_set_remove_request, pack_set_request,
    pack_set_union_request, texts, unpack_add_response, unpack_get_response, unpack_list_range_response,
    unpack_list_response, unpack_set_operation_response, unpack_set_query_response, Record, RecordKind,
};
use crate::error::{Error, HostError};
use crate::host::{acknowledge, acknowledged, address, reads, send, Dispatch, Host, WapcHost, DEFAULT_BINDING};
use crate::msgpack::{within_nesting, NESTED_TOO_DEEP};
use vstd::prelude::*;

verus! {

/// The capability identifier of a key-value store.
pub const CAPID_KEYVALUE: &'static str = "wascc:keyvalue";
pub const OP_ADD: &'static str = "Add";
pub const OP_GET: &'static str = "Get";
pub const OP_SET: &'static str = "Set";
pub const OP_DEL: &'static str = "Del";
pub const OP_CLEAR: &'static str = "Clear";
pub const OP_RANGE: &'static str = "Range";
pub const OP_PUSH: &'static str = "Push";
pub const OP_LIST_DEL: &'static str = "ListItemDelete";
pub const OP_SET_ADD: &'static str = "SetAdd";
pub const OP_SET_REMOVE: &'static str = "SetRemove";
pub const OP_SET_UNION: &'static str = "SetUnion";
pub const OP_SET_INTERSECT: &'static str = "SetIntersection";
pub const OP_SET_QUERY: &'static str = "SetQuery";
pub const OP_KEY_EXISTS: &'static str = "KeyExists";

/// A binding to one instance of the key-value store capability.
pub struct KeyValueStoreHostBinding<H> {
    binding: String,
    host: H,
}

impl<H> View for KeyValueStoreHostBinding<H> {
    /// The binding name that every dispatch of this binding addresses.
    type V = Seq<char>;

    closed spec fn view(&self) -> Seq<char> {
        self.binding@
    }
}

impl Default for KeyValueStoreHostBinding<WapcHost> {
    fn default() -> (r: Self)
        ensures
            r@ == DEFAULT_BINDING@,
    {
        KeyValueStoreHostBinding::with_host(DEFAULT_BINDING, WapcHost)
    }
}

/// Creates a binding to the named key-value store.
pub fn host(binding: &str) -> (r: KeyValueStoreHostBinding<WapcHost>)
    ensures
        r@ == binding@,
{
    KeyValueStoreHostBinding::with_host(binding, WapcHost)
}

/// Creates a binding to the default key-value store.
pub fn default() -> (r: KeyValueStoreHostBinding<WapcHost>)
    ensures
        r@ == DEFAULT_BINDING@,
{
    KeyValueStoreHostBinding::with_host(DEFAULT_BINDING, WapcHost)
}

/// The expiry, in seconds, that a set request carries: 0, meaning none, where
/// no expiry is given, and the greatest 32-bit number of seconds (some 68
/// years) where a longer one is given.
pub open spec fn expiry(expires: Option<u32>) -> i32 {
    match expires {
        Some(s) => if s > i32::MAX as u32 {
            i32::MAX
        } else {
            s as i32
        },
        None => 0,
    }
}

/// The position that a list index travels as: the index itself where it fits
/// in 32 bits, and otherwise the nearest 32-bit bound, which lies past the
/// same end of any list.
pub open spec fn position(i: isize) -> i32 {
    if i > i32::MAX as isize {
        i32::MAX
    } else if i < i32::MIN as isize {
        i32::MIN
    } else {
        i as i32
    }
}

/// Writes an expiry as the number of seconds a set request carries.
fn clamp_expiry(expires: Option<u32>) -> (r: i32)
    ensures
        r == expiry(expires),
{
    match expires {
        Some(s) => if s > i32::MAX as u32 {
            i32::MAX
        } else {
            s as i32
        },
        None => 0,
    }
}

/// Writes a list index as the position it travels as.
fn clamp_position(i: isize) -> (r: i32)
    ensures
        r == position(i),
{
    if i > i32::MAX as isize {
        i32::MAX
    } else if i < i32::MIN as isize {
        i32::MIN
    } else {
        i as i32
    }
}

/// The meaning of a reply to a read: the value where the key exists, and
/// nothing where it does not.
pub open spec fn value_meaning(record: Record, r: Result<Option<String>, Error>) -> bool {
    match record {
        Record::GetResponse { value, exists } => r is Ok && if exists {
            r->Ok_0 is Some && r->Ok_0->Some_0@ == value
        } else {
            r->Ok_0 is None
        },
        _ => false,
    }
}

/// `r` is what the host's `reply` to a read means.
pub open spec fn value_answer(reply: Result<Vec<u8>, HostError>, r: Result<Option<String>, Error>) -> bool {
    reads(reply, RecordKind::GetResponse, r, |record, r| value_meaning(record, r))
}

/// The meaning of a reply to an existence query: whether the key exists.
pub open spec fn exists_meaning(record: Record, r: Result<bool, Error>) -> bool {
    match record {
        Record::GetResponse { value, exists } => r == Ok::<bool, Error>(exists),
        _ => false,
    }
}

/// `r` is what the host's `reply` to an existence query means.
pub open spec fn exists_answer(reply: Result<Vec<u8>, HostError>, r: Result<bool, Error>) -> bool {
    reads(reply, RecordKind::GetResponse, r, |record, r| exists_meaning(record, r))
}

/// The meaning of a reply to an increment: the new value.
pub open spec fn sum_meaning(record: Record, r: Result<i32, Error>) -> bool {
    match record {
        Record::AddResponse { value } => r == Ok::<i32, Error>(value),
        _ => false,
    }
}

/// `r` is what the host's `reply` to an increment means.
pub open spec fn sum_answer(reply: Result<Vec<u8>, HostError>, r: Result<i32, Error>) -> bool {
    reads(reply, RecordKind::AddResponse, r, |record, r| sum_meaning(record, r))
}

/// The count that a reply reports, where it is not negative; a negative count
/// is no count, and a `Decode` error.
pub open spec fn count_meaning(new_count: i32, r: Result<usize, Error>) -> bool {
    if new_count >= 0 {
        r == Ok::<usize, Error>(new_count as usize)
    } else {
        r is Err && r->Err_0 is Decode
    }
}

/// `r` is what the host's `reply` to a change of a list means: the list's new length.
pub open spec fn list_count_answer(reply: Result<Vec<u8>, HostError>, r: Result<usize, Error>) -> bool {
    reads(
        reply,
        RecordKind::ListResponse,
        r,
        |record, r|
            match record {
                Record::ListResponse { new_count } => count_meaning(new_count, r),
                _ => false,
            },
    )
}

/// `r` is what the host's `reply` to a change of a set means: the set's new size.
pub open spec fn set_count_answer(reply: Result<Vec<u8>, HostError>, r: Result<usize, Error>) -> bool {
    reads(
        reply,
        RecordKind::SetOperationResponse,
        r,
        |record, r|
            match record {
                Record::SetOperationResponse { new_count } => count_meaning(new_count, r),
                _ => false,
            },
    )
}

/// `r` is what the host's `reply` to a range query of a list means: the values, in order.
pub open spec fn list_values_answer(reply: Result<Vec<u8>, HostError>, r: Result<Vec<String>, Error>) -> bool {
    reads(
        reply,
        RecordKind::ListRangeResponse,
        r,
        |record, r: Result<Vec<String>, Error>|
            match record {
                Record::ListRangeResponse { values } => r is Ok && texts(r->Ok_0@) == values,
                _ => false,
            },
    )
}

/// `r` is what the host's `reply` to a query of sets means: the members, as the store lists them.
pub open spec fn set_values_answer(reply: Result<Vec<u8>, HostError>, r: Result<Vec<String>, Error>) -> bool {
    reads(
        reply,
        RecordKind::SetQueryResponse,
        r,
        |record, r: Result<Vec<String>, Error>|
            match record {
                Record::SetQueryResponse { values } => r is Ok && texts(r->Ok_0@) == values,
                _ => false,
            },
    )
}

/// Turns a count that the store reports into a length; a negative count is malformed.
fn count(new_count: i32) -> (r: Result<usize, Error>)
    ensures
        count_meaning(new_count, r),
{
    if new_count >= 0 {
        Ok(new_count as usize)
    } else {
        Err(Error::Decode("the store reported a negative count".to_string()))
    }
}

/// Reads the host's reply to a read as the stored value, if the key exists.
pub fn read_value(reply: Result<Vec<u8>, HostError>) -> (r: Result<Option<String>, Error>)
    ensures
        value_answer(reply, r),
{
    match reply {
        Err(e) => Err(Error::Host(e)),
        Ok(bytes) => if !within_nesting(bytes.as_slice()) {
            Err(Error::Decode(NESTED_TOO_DEEP.to_string()))
        } else {
            match unpack_get_response(bytes.as_slice()) {
                Ok((value, exists)) => if exists {
                    Ok(Some(value))
                } else {
                    Ok(None)
                },
                Err(m) => Err(Error::Decode(m)),
            }
        },
    }
}

/// Reads the host's reply to an existence query.
pub fn read_exists(reply: Result<Vec<u8>, HostError>) -> (r: Result<bool, Error>)
    ensures
        exists_answer(reply, r),
{
    match reply {
        Err(e) => Err(Error::Host(e)),
        Ok(bytes) => if !within_nesting(bytes.as_slice()) {
            Err(Error::Decode(NESTED_TOO_DEEP.to_string()))
        } else {
            match unpack_get_response(bytes.as_slice()) {
                Ok((_, exists)) => Ok(exists),
                Err(m) => Err(Error::Decode(m)),
            }
        },
    }
}

/// Reads the host's reply to an increment as the new value.
pub fn read_sum(reply: Result<Vec<u8>, HostError>) -> (r: Result<i32, Error>)
    ensures
        sum_answer(reply, r),
{
    match reply {
        Err(e) => Err(Error::Host(e)),
        Ok(bytes) => if !within_nesting(bytes.as_slice()) {
            Err(Error::Decode(NESTED_TOO_DEEP.to_string()))
        } else {
            match unpack_add_response(bytes.as_slice()) {
                Ok(value) => Ok(value),
                Err(m) => Err(Error::Decode(m)),
            }
        },
    }
}

/// Reads the host's reply to a change of a list as the list's new length.
pub fn read_list_count(reply: Result<Vec<u8>, HostError>) -> (r: Result<usize, Error>)
    ensures
        list_count_answer(reply, r),
{
    match reply {
        Err(e) => Err(Error::Host(e)),
        Ok(bytes) => if !within_nesting(bytes.as_slice()) {
            Err(Error::Decode(NESTED_TOO_DEEP.to_string()))
        } else {
            match unpack_list_response(bytes.as_slice()) {
                Ok(new_count) => count(new_count),
                Err(m) => Err(Error::Decode(m)),
            }
        },
    }
}

/// Reads the host's reply to a change of a set as the set's new size.
pub fn read_set_count(reply: Result<Vec<u8>, HostError>) -> (r: Result<usize, Error>)
    ensures
        set_count_answer(reply, r),
{
    match reply {
        Err(e) => Err(Error::Host(e)),
        Ok(bytes) => if !within_nesting(bytes.as_slice()) {
            Err(Error::Decode(NESTED_TOO_DEEP.to_string()))
        } else {
            match unpack_set_operation_response(bytes.as_slice()) {
                Ok(new_count) => count(new_count),
                Err(m) => Err(Error::Decode(m)),
            }
        },
    }
}

/// Reads the host's reply to a range query of a list as the values it lists.
pub fn read_list_values(reply: Result<Vec<u8>, HostError>) -> (r: Result<Vec<String>, Error>)
    ensures
        list_values_answer(reply, r),
{
    match reply {
        Err(e) => Err(Error::Host(e)),
        Ok(bytes) => if !within_nesting(bytes.as_slice()) {
            Err(Error::Decode(NESTED_TOO_DEEP.to_string()))
        } else {
            match unpack_list_range_response(bytes.as_slice()) {
                Ok(values) => Ok(values),
                Err(m) => Err(Error::Decode(m)),
            }
        },
    }
}

/// Reads the host's reply to a query of sets as the members it lists.
pub fn read_set_values(reply: Result<Vec<u8>, HostError>) -> (r: Result<Vec<String>, Error>)
    ensures
        set_values_answer(reply, r),
{
    match reply {
        Err(e) => Err(Error::Host(e)),
        Ok(bytes) => if !within_nesting(bytes.as_slice()) {
            Err(Error::Decode(NESTED_TOO_DEEP.to_string()))
        } else {
            match unpack_set_query_response(bytes.as_slice()) {
                Ok(values) => Ok(values),
                Err(m) => Err(Error::Decode(m)),
            }
        },
    }
}

impl<H: Host> KeyValueStoreHostBinding<H> {
    /// Creates a binding to the named key-value store that dispatches through the given host.
    pub fn with_host(binding: &str, host: H) -> (r: Self)
        ensures
            r@ == binding@,
    {
        KeyValueStoreHostBinding { binding: binding.to_string(), host }
    }

    /// The dispatch that reads `key`.
    pub fn get_dispatch(&self, key: &str) -> (r: Dispatch)
        ensures
            r.carries(self@, CAPID_KEYVALUE@, OP_GET@, Record::GetRequest { key: key@ }),
    {
        address(self.binding.as_str(), CAPID_KEYVALUE, OP_GET, pack_get_request(key))
    }

    /// Reads the value stored at `key`; `None` where the key does not exist.
    pub fn get(&self, key: &str) -> (r: Result<Option<String>, Error>)
        ensures
            exists|reply| value_answer(reply, r),
    {
        read_value(send(&self.host, &self.get_dispatch(key)))
    }

    /// The dispatch that stores `value` at `key`.
    pub fn set_dispatch(&self, key: &str, value: &str, expires: Option<u32>) -> (r: Dispatch)
        ensures
            r.carries(self@, CAPID_KEYVALUE@, OP_SET@, Record::SetRequest { key: key@, value: value@, expires_s: expiry(expires) }),
    {
        let expires_s = clamp_expiry(expires);
        address(self.binding.as_str(), CAPID_KEYVALUE, OP_SET, pack_set_request(key, value, expires_s))
    }

    /// Stores `value` at `key`, to expire after `expires` seconds; without an
    /// expiry (sent as 0) it does not expire.
    pub fn set(&self, key: &str, value: &str, expires: Option<u32>) -> (r: Result<(), Error>)
        ensures
            exists|reply| r == acknowledged(reply),
    {
        acknowledge(send(&self.host, &self.set_dispatch(key, value, expires)))
    }

    /// The dispatch that adds `value` to the number at `key`.
    pub fn atomic_add_dispatch(&self, key: &str, value: i32) -> (r: Dispatch)
        ensures
            r.carries(self@, CAPID_KEYVALUE@, OP_ADD@, Record::AddRequest { key: key@, value }),
    {
        address(self.binding.as_str(), CAPID_KEYVALUE, OP_ADD, pack_add_request(key, value))
    }

    /// Adds `value` to the number stored at `key`, atomically on the store's side,
    /// and returns the new value.
    pub fn atomic_add(&self, key: &str, value: i32) -> (r: Result<i32, Error>)
        ensures
            exists|reply| sum_answer(reply, r),
    {
        read_sum(send(&self.host, &self.atomic_add_dispatch(key, value)))
    }

    /// The dispatch that appends `item` to the list at `key`.
    pub fn list_add_dispatch(&self, key: &str, item: &str) -> (r: Dispatch)
        ensures
            r.carries(self@, CAPID_KEYVALUE@, OP_PUSH@, Record::ListPushRequest { key: key@, value: item@ }),
    {
        address(self.binding.as_str(), CAPID_KEYVALUE, OP_PUSH, pack_list_push_request(key, item))
    }

    /// Appends `item` to the list at `key` and returns the list's new length.
    pub fn list_add(&self, key: &str, item: &str) -> (r: Result<usize, Error>)
        ensures
            exists|reply| list_count_answer(reply, r),
    {
        read_list_count(send(&self.host, &self.list_add_dispatch(key, item)))
    }

    /// The dispatch that removes `item` from the list at `key`.
    pub fn list_del_item_dispatch(&self, key: &str, item: &str) -> (r: Dispatch)
        ensures
            r.carries(self@, CAPID_KEYVALUE@, OP_LIST_DEL@, Record::ListDelItemRequest { key: key@, value: item@ }),
    {
        address(self.binding.as_str(), CAPID_KEYVALUE, OP_LIST_DEL, pack_list_del_item_request(key, item))
    }

    /// Removes `item` from the list at `key` and returns the list's new length.
    pub fn list_del_item(&self, key: &str, item: &str) -> (r: Result<usize, Error>)
        ensures
            exists|reply| list_count_answer(reply, r),
    {
        read_list_count(send(&self.host, &self.list_del_item_dispatch(key, item)))
    }

    /// The dispatch that removes `key`.
    pub fn del_key_dispatch(&self, key: &str) -> (r: Dispatch)
        ensures
            r.carries(self@, CAPID_KEYVALUE@, OP_DEL@, Record::DelRequest { key: key@ }),
    {
        address(self.binding.as_str(), CAPID_KEYVALUE, OP_DEL, pack_del_request(key))
    }

    /// Removes `key` and whatever is stored at it, a list or a set included.
    pub fn del_key(&self, key: &str) -> (r: Result<(), Error>)
        ensures
            exists|reply| r == acknowledged(reply),
    {
        acknowledge(send(&self.host, &self.del_key_dispatch(key)))
    }

    /// The dispatch that reads a range of the list at `key`; both positions travel as 32-bit integers, clamped to that range.
    pub fn list_range_dispatch(&self, key: &str, start: isize, stop_inclusive: isize) -> (r: Dispatch)
        ensures
            r.carries(self@, CAPID_KEYVALUE@, OP_RANGE@, Record::ListRangeRequest { key: key@, start: position(start), stop: position(stop_inclusive) }),
    {
        let start32 = clamp_position(start);
        let stop32 = clamp_position(stop_inclusive);
        address(self.binding.as_str(), CAPID_KEYVALUE, OP_RANGE, pack_list_range_request(key, start32, stop32))
    }

    /// Reads the items of the list at `key` from `start` to `stop_inclusive`; what
    /// negative or out-of-range positions mean is up to the store.
    pub fn list_range(&self, key: &str, start: isize, stop_inclusive: isize) -> (r: Result<Vec<String>, Error>)
        ensures
            exists|reply| list_values_answer(reply, r),
    {
        read_list_values(send(&self.host, &self.list_range_dispatch(key, start, stop_inclusive)))
    }

    /// The dispatch that empties the list at `key`.
    pub fn list_clear_dispatch(&self, key: &str) -> (r: Dispatch)
        ensures
            r.carries(self@, CAPID_KEYVALUE@, OP_CLEAR@, Record::ListClearRequest { key: key@ }),
    {
        address(self.binding.as_str(), CAPID_KEYVALUE, OP_CLEAR, pack_list_clear_request(key))
    }

    /// Empties the list at `key`, leaving the key in place.
    pub fn list_clear(&self, key: &str) -> (r: Result<(), Error>)
        ensures
            exists|reply| r == acknowledged(reply),
    {
        acknowledge(send(&self.host, &self.list_clear_dispatch(key)))
    }

    /// The dispatch that adds `value` to the set at `key`.
    pub fn set_add_dispatch(&self, key: &str, value: &str) -> (r: Dispatch)
        ensures
            r.carries(self@, CAPID_KEYVALUE@, OP_SET_ADD@, Record::SetAddRequest { key: key@, value: value@ }),
    {
        address(self.binding.as_str(), CAPID_KEYVALUE, OP_SET_ADD, pack_set_add_request(key, value))
    }

    /// Adds `value` to the set at `key` and returns the set's new size.
    pub fn set_add(&self, key: &str, value: &str) -> (r: Result<usize, Error>)
        ensures
            exists|reply| set_count_answer(reply, r),
    {
        read_set_count(send(&self.host, &self.set_add_dispatch(key, value)))
    }

    /// The dispatch that removes `value` from the set at `key`.
    pub fn set_remove_dispatch(&self, key: &str, value: &str) -> (r: Dispatch)
        ensures
            r.carries(self@, CAPID_KEYVALUE@, OP_SET_REMOVE@, Record::SetRemoveRequest { key: key@, value: value@ }),
    {
        address(self.binding.as_str(), CAPID_KEYVALUE, OP_SET_REMOVE, pack_set_remove_request(key, value))
    }

    /// Removes `value` from the set at `key` and returns the set's new size.
    pub fn set_remove(&self, key: &str, value: &str) -> (r: Result<usize, Error>)
        ensures
            exists|reply| set_count_answer(reply, r),
    {
        read_set_count(send(&self.host, &self.set_remove_dispatch(key, value)))
    }

    /// The dispatch that queries the union of the sets at `keys`.
    pub fn set_union_dispatch(&self, keys: Vec<String>) -> (r: Dispatch)
        ensures
            r.carries(self@, CAPID_KEYVALUE@, OP_SET_UNION@, Record::SetUnionRequest { keys: texts(keys@) }),
    {
        address(self.binding.as_str(), CAPID_KEYVALUE, OP_SET_UNION, pack_set_union_request(keys))
    }

    /// Returns the union of the sets at `keys`.
    pub fn set_union(&self, keys: Vec<String>) -> (r: Result<Vec<String>, Error>)
        ensures
            exists|reply| set_values_answer(reply, r),
    {
        read_set_values(send(&self.host, &self.set_union_dispatch(keys)))
    }

    /// The dispatch that queries the intersection of the sets at `keys`.
    pub fn set_intersect_dispatch(&self, keys: Vec<String>) -> (r: Dispatch)
        ensures
            r.carries(self@, CAPID_KEYVALUE@, OP_SET_INTERSECT@, Record::SetIntersectionRequest { keys: texts(keys@) }),
    {
        address(self.binding.as_str(), CAPID_KEYVALUE, OP_SET_INTERSECT, pack_set_intersection_request(keys))
    }

    /// Returns the intersection of the sets at `keys`.
    pub fn set_intersect(&self, keys: Vec<String>) -> (r: Result<Vec<String>, Error>)
        ensures
            exists|reply| set_values_answer(reply, r),
    {
        read_set_values(send(&self.host, &self.set_intersect_dispatch(keys)))
    }

    /// The dispatch that queries the members of the set at `key`.
    pub fn set_members_dispatch(&self, key: &str) -> (r: Dispatch)
        ensures
            r.carries(self@, CAPID_KEYVALUE@, OP_SET_QUERY@, Record::SetQueryRequest { key: key@ }),
    {
        address(self.binding.as_str(), CAPID_KEYVALUE, OP_SET_QUERY, pack_set_query_request(key))
    }

    /// Returns the members of the set at `key`.
    pub fn set_members(&self, key: &str) -> (r: Result<Vec<String>, Error>)
        ensures
            exists|reply| set_values_answer(reply, r),
    {
        read_set_values(send(&self.host, &self.set_members_dispatch(key)))
    }

    /// The dispatch that asks whether `key` exists.
    pub fn key_exists_dispatch(&self, key: &str) -> (r: Dispatch)
        ensures
            r.carries(self@, CAPID_KEYVALUE@, OP_KEY_EXISTS@, Record::KeyExistsQuery { key: key@ }),
    {
        address(self.binding.as_str(), CAPID_KEYVALUE, OP_KEY_EXISTS, pack_key_exists_query(key))
    }

    /// Tells whether `key` exists. A list or set that was cleared rather than
    /// deleted may still exist.
    pub fn key_exists(&self, key: &str) -> (r: Result<bool, Error>)
        ensures
            exists|reply| exists_answer(reply, r),
    {
        read_exists(send(&self.host, &self.key_exists_dispatch(key)))
    }
}

} // verus!
