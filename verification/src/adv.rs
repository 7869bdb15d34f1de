//! Advertisement payload construction.
//!
//! The advertisement names the device under a hard 31-byte cap: a flags
//! entry, a 16-bit service UUID list entry for the environmental-sensing
//! service, and the complete-local-name entry carrying the device name.
//! The bytes are assembled in a capacity-bounded vector so a name that does
//! not fit makes construction fail rather than truncate silently.

use vstd::prelude::*;

verus! {

/// Advertisement flags: general discoverable, single-mode low energy.
pub const ADV_FLAGS: u8 = 0x06;

/// Hard cap on an advertisement payload, in bytes.
pub const ADV_CAPACITY: usize = 31;

/// The advertisement entries that precede the device name take this many
/// bytes: the flags entry (3), the service UUID list entry (4), and the
/// length and type bytes of the name entry (2).
pub const ADV_OVERHEAD: usize = 9;

/// A capacity-bounded advertisement buffer. Verified code reads it only
/// through `adv_contents`; the capacity bookkeeping is the bounded vector's
/// own.
#[verifier::external_body]
pub struct AdvBuffer {
    inner: heapless::Vec<u8, 31>,
}

/// The bytes an advertisement buffer holds, in order.
pub uninterp spec fn adv_contents(b: AdvBuffer) -> Seq<u8>;

/// Relies on heapless::Vec::new: creates an empty vector.
#[verifier::external_body]
fn adv_buffer_new() -> (r: AdvBuffer)
    ensures
        adv_contents(r) == Seq::<u8>::empty(),
{
    AdvBuffer { inner: heapless::Vec::new() }
}

/// Relies on heapless::Vec::extend_from_slice: appends every element of the
/// slice in order when the result fits within the capacity (31), and
/// returns an error leaving the vector unmodified when it does not.
#[verifier::external_body]
fn adv_buffer_extend(b: &mut AdvBuffer, other: &[u8]) -> (accepted: bool)
    ensures
        accepted == (adv_contents(*old(b)).len() + other@.len() <= ADV_CAPACITY),
        accepted ==> adv_contents(*final(b)) == adv_contents(*old(b)) + other@,
        !accepted ==> adv_contents(*final(b)) == adv_contents(*old(b)),
{
    b.inner.extend_from_slice(other).is_ok()
}

/// Relies on heapless::Vec::as_slice: extracts the slice of all stored
/// bytes.
#[verifier::external_body]
pub fn adv_buffer_bytes(b: &AdvBuffer) -> (r: Vec<u8>)
    ensures
        r@ == adv_contents(*b),
{
    b.inner.as_slice().to_vec()
}

/// The advertisement payload for a device name: flags entry, 16-bit
/// service UUID list entry for the environmental-sensing service (0x181A),
/// and the complete-local-name entry carrying the name.
pub open spec fn adv_payload_spec(name: Seq<u8>) -> Seq<u8> {
    seq![
        2u8, 1u8, ADV_FLAGS,
        3u8, 3u8, 0x1Au8, 0x18u8,
        (name.len() + 1) as u8, 9u8,
    ] + name
}

/// Builds the advertisement payload for the given device name, or fails
/// (without truncating) when the name does not fit under the 31-byte cap.
pub fn build_adv_data(name: &[u8]) -> (r: Option<AdvBuffer>)
    ensures
        match r {
            Some(b) => name@.len() + ADV_OVERHEAD <= ADV_CAPACITY && adv_contents(b)
                == adv_payload_spec(name@),
            None => name@.len() + ADV_OVERHEAD > ADV_CAPACITY,
        },
{
    if name.len() > ADV_CAPACITY - ADV_OVERHEAD {
        return None;
    }
    let mut header: Vec<u8> = Vec::new();
    header.push(2u8);
    header.push(1u8);
    header.push(ADV_FLAGS);
    header.push(3u8);
    header.push(3u8);
    header.push(0x1Au8);
    header.push(0x18u8);
    header.push((name.len() + 1) as u8);
    header.push(9u8);
    let mut buf = adv_buffer_new();
    let ok_header = adv_buffer_extend(&mut buf, header.as_slice());
    let ok_name = adv_buffer_extend(&mut buf, name);
    if ok_header && ok_name {
        proof {
            assert(adv_contents(buf) =~= adv_payload_spec(name@));
        }
        Some(buf)
    } else {
        None
    }
}

/// Scan response payload spec: a 16-bit service UUID list entry naming the
/// device-information service (0x180A).
pub open spec fn scan_data_spec() -> Seq<u8> {
    seq![3u8, 3u8, 0x0Au8, 0x18u8]
}

/// Builds the fixed scan response payload.
pub fn scan_data() -> (r: Vec<u8>)
    ensures
        r@ == scan_data_spec(),
{
    let mut r: Vec<u8> = Vec::new();
    r.push(3u8);
    r.push(3u8);
    r.push(0x0Au8);
    r.push(0x18u8);
    proof {
        assert(r@ =~= scan_data_spec());
    }
    r
}

} // verus!
