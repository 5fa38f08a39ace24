//! Archives over memory-mapped files.
//!
//! The mapped bytes are only as stable as the file behind them: whoever maps
//! a file and hands it to [`OwnedArchive::from_mmap`] or
//! [`OwnedArchive::from_mmap_mut`] promises that no process (this one
//! included) modifies the file while the mapping lives. The containers here
//! can only be made through those two constructors, so that the promise is
//! made at a call that names it.
use memmap2::{Mmap, MmapMut};
use rkyv::api::high::HighValidator;
use rkyv::bytecheck::CheckBytes;
use rkyv::rancor::Source;
use rkyv::{Archive, Portable};
use vstd::prelude::*;

use crate::owned::OwnedArchive;
use crate::stable::{StableBytes, StableBytesMut};

verus! {

#[verifier::external_type_specification]
#[verifier::external_body]
pub struct ExMmap(Mmap);

#[verifier::external_type_specification]
#[verifier::external_body]
pub struct ExMmapMut(MmapMut);

/// The bytes of a read-only mapping.
pub uninterp spec fn mapped_contents(m: Mmap) -> Seq<u8>;

/// The bytes of a writable mapping.
pub uninterp spec fn mapped_contents_mut(m: MmapMut) -> Seq<u8>;

/// Relies on `<Mmap as Deref>::deref`: a slice over the mapped region, whose
/// bytes do not change while the file is left alone.
#[verifier::external_body]
fn mmap_deref(m: &Mmap) -> (r: &[u8])
    ensures
        r@ == mapped_contents(*m),
{
    m
}

/// Relies on `<MmapMut as Deref>::deref`: a slice over the mapped region,
/// whose bytes do not change while the file is left alone.
#[verifier::external_body]
fn mmap_mut_deref(m: &MmapMut) -> (r: &[u8])
    ensures
        r@ == mapped_contents_mut(*m),
{
    m
}

/// Relies on `<MmapMut as DerefMut>::deref_mut`: a mutable slice over the
/// mapped region, so what is written through it is what the mapping holds
/// after.
#[verifier::external_body]
fn mmap_mut_deref_mut(m: &mut MmapMut) -> (r: &mut [u8])
    ensures
        r@ == mapped_contents_mut(*old(m)),
        mapped_contents_mut(*final(m)) == final(r)@,
{
    m
}

/// A read-only mapping, as a container for an archive.
pub struct ContractMmap(Mmap);

/// A writable mapping, as a container for an archive.
pub struct ContractMmapMut(MmapMut);

impl ContractMmap {
    /// The mapping that the container holds.
    pub closed spec fn mapping(&self) -> Mmap {
        self.0
    }
}

impl ContractMmapMut {
    /// The mapping that the container holds.
    pub closed spec fn mapping(&self) -> MmapMut {
        self.0
    }
}

impl core::ops::Deref for ContractMmap {
    type Target = Mmap;

    fn deref(&self) -> (r: &Mmap)
        ensures
            *r == self.mapping(),
    {
        &self.0
    }
}

impl core::ops::Deref for ContractMmapMut {
    type Target = MmapMut;

    fn deref(&self) -> (r: &MmapMut)
        ensures
            *r == self.mapping(),
    {
        &self.0
    }
}

impl core::ops::DerefMut for ContractMmapMut {
    fn deref_mut(&mut self) -> (r: &mut MmapMut)
        ensures
            *r == old(self).mapping(),
            final(self).mapping() == *final(r),
    {
        &mut self.0
    }
}

impl StableBytes for ContractMmap {
    open spec fn stable_view(&self) -> Seq<u8> {
        mapped_contents(self.mapping())
    }

    fn bytes(&self) -> (r: &[u8]) {
        mmap_deref(&self.0)
    }
}

impl StableBytes for ContractMmapMut {
    open spec fn stable_view(&self) -> Seq<u8> {
        mapped_contents_mut(self.mapping())
    }

    fn bytes(&self) -> (r: &[u8]) {
        mmap_mut_deref(&self.0)
    }
}

impl StableBytesMut for ContractMmapMut {
    fn bytes_mut(&mut self) -> (r: &mut [u8]) {
        mmap_mut_deref_mut(&mut self.0)
    }
}

impl<T> OwnedArchive<T, ContractMmap> {
    /// Creates an archive over a read-only mapping, checking its bytes once.
    ///
    /// The caller promises that the mapped file is not modified, by any
    /// process, while the archive lives; the archive's reads rely on it.
    pub fn from_mmap<E>(container: Mmap) -> (r: Result<Self, E>)
        where
            T: Archive,
            T::Archived: Portable + for<'a> CheckBytes<HighValidator<'a, E>>,
            E: Source,
        ensures
            r matches Ok(a) ==> a@ == mapped_contents(container),
    {
        Self::new(ContractMmap(container))
    }
}

impl<T> OwnedArchive<T, ContractMmapMut> {
    /// Creates an archive over a writable mapping, checking its bytes once.
    ///
    /// The caller promises that the mapped file is modified by nobody else
    /// while the archive lives: the archive's own
    /// [`bytes_mut`](OwnedArchive::bytes_mut) is the one path for changes.
    pub fn from_mmap_mut<E>(container: MmapMut) -> (r: Result<Self, E>)
        where
            T: Archive,
            T::Archived: Portable + for<'a> CheckBytes<HighValidator<'a, E>>,
            E: Source,
        ensures
            r matches Ok(a) ==> a@ == mapped_contents_mut(container),
    {
        Self::new(ContractMmapMut(container))
    }
}

} // verus!
