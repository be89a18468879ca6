//! The nesting depth of a MessagePack value.
//!
//! The decoder that reads host replies recurses once for every level of arrays
//! and maps that it meets, and it has no limit of its own: a reply that nests
//! deeply enough exhausts the stack. Replies are therefore measured first, and
//! only those whose first value nests at most [`MAX_NESTING`] levels deep are
//! handed to the decoder.

use vstd::prelude::*;

verus! {

/// The deepest nesting of arrays and maps that a reply may have.
pub const MAX_NESTING: u64 = 32;

/// What a `Decode` error says of a reply that nests too deeply.
pub const NESTED_TOO_DEEP: &'static str = "the reply nests arrays and maps too deeply";

/// The two bytes at `p`, as a big-endian number.
pub open spec fn be2(b: Seq<u8>, p: int) -> int {
    b[p] as int * 256 + b[p + 1] as int
}

/// The four bytes at `p`, as a big-endian number.
pub open spec fn be4(b: Seq<u8>, p: int) -> int {
    ((b[p] as int * 256 + b[p + 1] as int) * 256 + b[p + 2] as int) * 256 + b[p + 3] as int
}

/// The head of the MessagePack value at `pos`, as (size of its head, size of
/// the data after the head, number of values that follow it, whether it is an
/// array or a map). A map of n pairs is followed by 2n values. `None` where
/// no value starts at `pos` or its head is cut short.
pub open spec fn head(b: Seq<u8>, pos: int) -> Option<(int, int, int, bool)> {
    let rest = b.len() - pos;
    if pos < 0 || rest < 1 {
        None
    } else {
        let m = b[pos];
        if m <= 0x7f || m >= 0xe0 || m == 0xc0 || m == 0xc2 || m == 0xc3 {
            Some((1, 0, 0, false))
        } else if m <= 0x8f {
            Some((1, 0, 2 * (m - 0x80), true))
        } else if m <= 0x9f {
            Some((1, 0, m - 0x90, true))
        } else if m <= 0xbf {
            Some((1, m - 0xa0, 0, false))
        } else if m == 0xc4 || m == 0xd9 {
            if rest < 2 { None } else { Some((2, b[pos + 1] as int, 0, false)) }
        } else if m == 0xc5 || m == 0xda {
            if rest < 3 { None } else { Some((3, be2(b, pos + 1), 0, false)) }
        } else if m == 0xc6 || m == 0xdb {
            if rest < 5 { None } else { Some((5, be4(b, pos + 1), 0, false)) }
        } else if m == 0xc7 {
            if rest < 3 { None } else { Some((3, b[pos + 1] as int, 0, false)) }
        } else if m == 0xc8 {
            if rest < 4 { None } else { Some((4, be2(b, pos + 1), 0, false)) }
        } else if m == 0xc9 {
            if rest < 6 { None } else { Some((6, be4(b, pos + 1), 0, false)) }
        } else if m == 0xcc || m == 0xd0 {
            Some((1, 1, 0, false))
        } else if m == 0xcd || m == 0xd1 {
            Some((1, 2, 0, false))
        } else if m == 0xca || m == 0xce || m == 0xd2 {
            Some((1, 4, 0, false))
        } else if m == 0xcb || m == 0xcf || m == 0xd3 {
            Some((1, 8, 0, false))
        } else if m == 0xd4 {
            Some((1, 2, 0, false))
        } else if m == 0xd5 {
            Some((1, 3, 0, false))
        } else if m == 0xd6 {
            Some((1, 5, 0, false))
        } else if m == 0xd7 {
            Some((1, 9, 0, false))
        } else if m == 0xd8 {
            Some((1, 17, 0, false))
        } else if m == 0xdc {
            if rest < 3 { None } else { Some((3, 0, be2(b, pos + 1), true)) }
        } else if m == 0xdd {
            if rest < 5 { None } else { Some((5, 0, be4(b, pos + 1), true)) }
        } else if m == 0xde {
            if rest < 3 { None } else { Some((3, 0, 2 * be2(b, pos + 1), true)) }
        } else if m == 0xdf {
            if rest < 5 { None } else { Some((5, 0, 2 * be4(b, pos + 1), true)) }
        } else {
            None
        }
    }
}

/// Where the value at `pos` ends, if it lies whole within `b` and nests at
/// most `depth` levels of arrays and maps deep.
pub open spec fn value_end(b: Seq<u8>, pos: int, depth: nat) -> Option<int>
    decreases depth, 0nat,
{
    match head(b, pos) {
        None => None,
        Some((size, data, items, nested)) => if pos + size + data > b.len() {
            None
        } else if !nested {
            Some(pos + size + data)
        } else if depth == 0 {
            None
        } else {
            values_end(b, pos + size, items as nat, (depth - 1) as nat)
        },
    }
}

/// Where the `count` values from `pos` on end, if each lies whole within `b`
/// and nests at most `depth` levels deep.
pub open spec fn values_end(b: Seq<u8>, pos: int, count: nat, depth: nat) -> Option<int>
    decreases depth, count + 1,
{
    if count == 0 {
        Some(pos)
    } else {
        match value_end(b, pos, depth) {
            None => None,
            Some(next) => values_end(b, next, (count - 1) as nat, depth),
        }
    }
}

/// The first value of `b` lies whole within it and nests at most
/// [`MAX_NESTING`] levels deep.
pub open spec fn nesting_within(b: Seq<u8>) -> bool {
    value_end(b, 0, MAX_NESTING as nat) is Some
}

fn read_be2(b: &[u8], p: usize) -> (r: u64)
    requires
        p + 2 <= b@.len(),
    ensures
        r == be2(b@, p as int),
{
    (b[p] as u64) * 256 + (b[p + 1] as u64)
}

fn read_be4(b: &[u8], p: usize) -> (r: u64)
    requires
        p + 4 <= b@.len(),
    ensures
        r == be4(b@, p as int),
{
    (((b[p] as u64) * 256 + (b[p + 1] as u64)) * 256 + (b[p + 2] as u64)) * 256 + (b[p + 3] as u64)
}

/// Reads the head of the value at `pos`.
fn read_head(b: &[u8], pos: usize) -> (r: Option<(usize, u64, u64, bool)>)
    requires
        pos <= b@.len(),
    ensures
        match r {
            Some((size, data, items, nested)) => head(b@, pos as int) == Some((size as int, data as int, items as int, nested)),
            None => head(b@, pos as int) is None,
        },
{
    let rest = b.len() - pos;
    if rest < 1 {
        return None;
    }
    let m = b[pos];
    if m <= 0x7f || m >= 0xe0 || m == 0xc0 || m == 0xc2 || m == 0xc3 {
        Some((1, 0, 0, false))
    } else if m <= 0x8f {
        Some((1, 0, 2 * (m - 0x80) as u64, true))
    } else if m <= 0x9f {
        Some((1, 0, (m - 0x90) as u64, true))
    } else if m <= 0xbf {
        Some((1, (m - 0xa0) as u64, 0, false))
    } else if m == 0xc4 || m == 0xd9 {
        if rest < 2 { None } else { Some((2, b[pos + 1] as u64, 0, false)) }
    } else if m == 0xc5 || m == 0xda {
        if rest < 3 { None } else { Some((3, read_be2(b, pos + 1), 0, false)) }
    } else if m == 0xc6 || m == 0xdb {
        if rest < 5 { None } else { Some((5, read_be4(b, pos + 1), 0, false)) }
    } else if m == 0xc7 {
        if rest < 3 { None } else { Some((3, b[pos + 1] as u64, 0, false)) }
    } else if m == 0xc8 {
        if rest < 4 { None } else { Some((4, read_be2(b, pos + 1), 0, false)) }
    } else if m == 0xc9 {
        if rest < 6 { None } else { Some((6, read_be4(b, pos + 1), 0, false)) }
    } else if m == 0xcc || m == 0xd0 {
        Some((1, 1, 0, false))
    } else if m == 0xcd || m == 0xd1 {
        Some((1, 2, 0, false))
    } else if m == 0xca || m == 0xce || m == 0xd2 {
        Some((1, 4, 0, false))
    } else if m == 0xcb || m == 0xcf || m == 0xd3 {
        Some((1, 8, 0, false))
    } else if m == 0xd4 {
        Some((1, 2, 0, false))
    } else if m == 0xd5 {
        Some((1, 3, 0, false))
    } else if m == 0xd6 {
        Some((1, 5, 0, false))
    } else if m == 0xd7 {
        Some((1, 9, 0, false))
    } else if m == 0xd8 {
        Some((1, 17, 0, false))
    } else if m == 0xdc {
        if rest < 3 { None } else { Some((3, 0, read_be2(b, pos + 1), true)) }
    } else if m == 0xdd {
        if rest < 5 { None } else { Some((5, 0, read_be4(b, pos + 1), true)) }
    } else if m == 0xde {
        if rest < 3 { None } else { Some((3, 0, 2 * read_be2(b, pos + 1), true)) }
    } else if m == 0xdf {
        if rest < 5 { None } else { Some((5, 0, 2 * read_be4(b, pos + 1), true)) }
    } else {
        None
    }
}

/// Finds where the value at `pos` ends, if it lies whole within `b` and nests
/// at most `depth` levels deep.
fn read_value_end(b: &[u8], pos: usize, depth: u64) -> (r: Option<usize>)
    requires
        pos <= b@.len(),
    ensures
        match r {
            Some(end) => value_end(b@, pos as int, depth as nat) == Some(end as int) && end <= b@.len(),
            None => value_end(b@, pos as int, depth as nat) is None,
        },
    decreases depth,
{
    match read_head(b, pos) {
        None => None,
        Some((size, data, items, nested)) => {
            if size > b.len() - pos || data > (b.len() - pos - size) as u64 {
                return None;
            }
            let start = pos + size;
            if !nested {
                return Some(start + data as usize);
            }
            if depth == 0 {
                return None;
            }
            let mut at = start;
            let mut left = items;
            while left > 0
                invariant
                    at <= b@.len(),
                    depth > 0,
                    value_end(b@, pos as int, depth as nat) == values_end(b@, at as int, left as nat, (depth - 1) as nat),
                decreases left,
            {
                match read_value_end(b, at, depth - 1) {
                    None => return None,
                    Some(next) => {
                        at = next;
                        left = left - 1;
                    },
                }
            }
            Some(at)
        },
    }
}

/// Tells whether the first value of `b` lies whole within it and nests at
/// most [`MAX_NESTING`] levels deep.
pub fn within_nesting(b: &[u8]) -> (r: bool)
    ensures
        r == nesting_within(b@),
{
    match read_value_end(b, 0, MAX_NESTING) {
        Some(_) => true,
        None => false,
    }
}

} // verus!
