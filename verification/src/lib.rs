//! Field access through shared references.
//!
//! A shared reference grants read access to the referent and its parts, but
//! never ownership of them: a field can be copied or borrowed through the
//! reference, while the referent's owner keeps the field itself. The
//! functions here read an owned record's payload through a shared reference
//! and prove that the value read is exactly the one the owner holds.

use vstd::prelude::*;

verus! {

/// Innermost record: a single integer payload.
pub struct Payload {
    pub value: i32,
}

/// Outer record owning a `Payload`.
pub struct Holder {
    pub payload: Payload,
}

/// Reads the payload's value through the shared reference `h`.
///
/// The `i32` is copied out through the reference; `*h` keeps ownership of
/// its `Payload` field, so the caller's record is untouched.
pub fn read_value(h: &Holder) -> (r: i32)
    ensures
        r == h.payload.value,
{
    h.payload.value
}

/// Borrows the non-`Copy` `Payload` field through the shared reference `h`
/// and reads its value from that borrow.
///
/// A shared reference to `Holder` yields a further shared borrow of its
/// field — the one legal access to non-`Copy` data behind it — while `*h`
/// keeps ownership of the `Payload` itself.
pub fn borrow_payload_value(h: &Holder) -> (r: i32)
    ensures
        r == h.payload.value,
{
    let p: &Payload = &h.payload;
    p.value
}

/// Builds a `Holder` whose payload is 1, takes a shared reference to it,
/// and reads the payload back through that reference.
pub fn test_move_behind_reference() -> (r: i32)
    ensures
        r == 1,
{
    let payload = Payload { value: 1 };
    let holder = Holder { payload };
    let borrowed = &holder;
    read_value(borrowed)
}

} // verus!
