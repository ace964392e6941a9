//! The transfer buffer: a `managed::ManagedSlice` of bytes, either owned
//! (a growing `Vec`) or borrowed (a caller's fixed slice).

use managed::ManagedSlice;
use vstd::prelude::*;

verus! {

#[verifier::external_type_specification]
#[verifier::external_body]
#[verifier::reject_recursive_types(T)]
pub struct ExManagedSlice<'a, T: 'a>(ManagedSlice<'a, T>);

/// The bytes a managed slice holds.
pub uninterp spec fn managed_contents(s: &ManagedSlice<u8>) -> Seq<u8>;

/// Whether a managed slice owns a `Vec` (else it borrows a fixed slice).
pub uninterp spec fn managed_is_owned(s: &ManagedSlice<u8>) -> bool;

/// Wraps an owned `Vec` (`ManagedSlice::Owned`); its contents are the vector's.
#[verifier::external_body]
pub(crate) fn storage_owned<'a>(v: Vec<u8>) -> (r: ManagedSlice<'a, u8>)
    ensures
        managed_contents(&r) == v@,
        managed_is_owned(&r),
{
    ManagedSlice::Owned(v)
}

/// Tells the two variants apart: `true` for `ManagedSlice::Owned`.
#[verifier::external_body]
pub(crate) fn storage_is_owned(s: &ManagedSlice<u8>) -> (r: bool)
    ensures
        r == managed_is_owned(s),
{
    match s {
        ManagedSlice::Owned(_) => true,
        ManagedSlice::Borrowed(_) => false,
    }
}

/// The slice behind the managed slice (`Deref::deref`); it holds the contents.
#[verifier::external_body]
pub(crate) fn storage_as_slice<'b>(s: &'b ManagedSlice<u8>) -> (r: &'b [u8])
    ensures
        r@ == managed_contents(s),
{
    &**s
}

/// Appends to an owned vector (`Vec::extend_from_slice`); the variant stays owned.
#[verifier::external_body]
pub(crate) fn storage_extend(s: &mut ManagedSlice<u8>, data: &[u8])
    requires
        managed_is_owned(old(s)),
    ensures
        managed_contents(final(s)) == managed_contents(old(s)) + data@,
        managed_is_owned(final(s)),
{
    if let ManagedSlice::Owned(v) = s {
        v.extend_from_slice(data);
    }
}

/// Shortens an owned vector to at most `len` bytes (`Vec::truncate`); the
/// variant stays owned.
#[verifier::external_body]
pub(crate) fn storage_truncate(s: &mut ManagedSlice<u8>, len: usize)
    requires
        managed_is_owned(old(s)),
    ensures
        managed_contents(final(s)) == (if len < managed_contents(old(s)).len() {
            managed_contents(old(s)).take(len as int)
        } else {
            managed_contents(old(s))
        }),
        managed_is_owned(final(s)),
{
    if let ManagedSlice::Owned(v) = s {
        v.truncate(len);
    }
}

/// Writes one byte through the slice (`DerefMut::deref_mut` and indexing);
/// the length and the variant stay.
#[verifier::external_body]
pub(crate) fn storage_set(s: &mut ManagedSlice<u8>, i: usize, b: u8)
    requires
        i < managed_contents(old(s)).len(),
    ensures
        managed_contents(final(s)) == managed_contents(old(s)).update(i as int, b),
        managed_is_owned(final(s)) == managed_is_owned(old(s)),
{
    (&mut **s)[i] = b;
}

} // verus!
