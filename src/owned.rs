//! An owned archive: a container together with the promise that its bytes
//! were checked, once, to hold a valid archived value.
use core::marker::PhantomData;
use rkyv::api::high::HighValidator;
use rkyv::bytecheck::CheckBytes;
use rkyv::rancor::Source;
use rkyv::{Archive, Portable};
use vstd::prelude::*;

pub use crate::stable::{StableBytes, StableBytesMut};

verus! {

/// Relies on `rkyv::access`: it walks `bytes` as an archived `T` and
/// reports whether they hold one. The outcome also depends on where the
/// buffer lies in memory (its alignment), so nothing is stated of it.
#[verifier::external_body]
fn check_archived<T, E>(bytes: &[u8]) -> (r: Result<(), E>)
    where
        T: Archive,
        T::Archived: Portable + for<'a> CheckBytes<HighValidator<'a, E>>,
        E: Source,
{
    match rkyv::access::<T::Archived, E>(bytes) {
        Ok(_) => Ok(()),
        Err(e) => Err(e),
    }
}

/// An owned archive: a container whose bytes were checked, once, to hold a
/// valid archived `T`.
///
/// The archive owns its container, so nothing else can reach the bytes:
/// they stay what was checked, and change only through
/// [`OwnedArchive::bytes_mut`]. Reads go straight to the container and check
/// nothing again.
pub struct OwnedArchive<T, C> {
    container: C,
    _type: PhantomData<T>,
}

impl<T, C> OwnedArchive<T, C> {
    /// The container that the archive owns.
    pub closed spec fn inner(&self) -> C {
        self.container
    }
}

impl<T, C: StableBytes> OwnedArchive<T, C> {
    /// The bytes of the archive.
    pub open spec fn view(&self) -> Seq<u8> {
        self.inner().stable_view()
    }

    /// Takes the container on the outcome of its check: an archive that owns
    /// it where the check passed, the check's error where it did not (the
    /// container is then dropped).
    fn from_checked<E>(container: C, checked: Result<(), E>) -> (r: Result<Self, E>)
        ensures
            checked is Ok <==> r is Ok,
            r matches Ok(a) ==> a.inner() == container,
            checked matches Err(e) ==> r == Err::<Self, E>(e),
    {
        match checked {
            Ok(()) => Ok(OwnedArchive { container, _type: PhantomData }),
            Err(e) => Err(e),
        }
    }

    /// Creates a new `OwnedArchive` from a container, checking once that its
    /// bytes hold a valid archived `T`.
    ///
    /// On success the archive owns the container and holds its bytes
    /// unchanged; on failure the validator's error is returned.
    pub fn new<E>(container: C) -> (r: Result<Self, E>)
        where
            T: Archive,
            T::Archived: Portable + for<'a> CheckBytes<HighValidator<'a, E>>,
            E: Source,
        ensures
            r matches Ok(a) ==> a.inner() == container && a@ == container.stable_view(),
    {
        let checked = check_archived::<T, E>(container.bytes());
        Self::from_checked(container, checked)
    }

    /// The archive's bytes, read straight from the container without any
    /// further check.
    pub fn bytes(&self) -> (r: &[u8])
        ensures
            r@ == self@,
    {
        self.container.bytes()
    }

    /// The container that holds the archive.
    pub fn container(&self) -> (r: &C)
        ensures
            *r == self.inner(),
    {
        &self.container
    }
}

impl<T, C: StableBytesMut> OwnedArchive<T, C> {
    /// The archive's bytes, mutably: the one path by which they change.
    ///
    /// What is written through the slice is what the archive reads
    /// afterwards. Writes must keep the archived layout valid (change a
    /// scalar in place, move nothing), since the bytes are not checked
    /// again.
    pub fn bytes_mut(&mut self) -> (r: &mut [u8])
        ensures
            r@ == old(self)@,
            final(self)@ == final(r)@,
    {
        self.container.bytes_mut()
    }
}

impl<T, C: Clone> Clone for OwnedArchive<T, C> {
    /// Clones the container's handle; the bytes are neither copied by the
    /// archive nor checked again.
    fn clone(&self) -> (r: Self)
        ensures
            cloned::<C>(self.inner(), r.inner()),
    {
        OwnedArchive { container: self.container.clone(), _type: PhantomData }
    }
}

/// An archive built from a container reads exactly the container's bytes.
pub proof fn lemma_reads_what_was_built<T, C: StableBytes>(container: C, a: OwnedArchive<T, C>)
    requires
        a.inner() == container,
    ensures
        a@ == container.stable_view(),
{
}

/// A clone of an archive reads exactly the bytes of the archive it was
/// cloned from.
pub proof fn lemma_clone_same_bytes<T>(a: OwnedArchive<T, Vec<u8>>, b: OwnedArchive<T, Vec<u8>>)
    requires
        cloned::<Vec<u8>>(a.inner(), b.inner()),
    ensures
        b@ == a@,
{
}

} // verus!
