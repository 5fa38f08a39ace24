//! Byte containers that hand out the same buffer on every access.
use std::rc::Rc;
use std::sync::Arc;
use rkyv::util::AlignedVec;
use vstd::prelude::*;

verus! {

/// A container whose bytes come from one buffer on every access.
///
/// `stable_view` is a function of the container alone, so two reads of the
/// same container give the same bytes: the contents change only through
/// [`StableBytesMut::bytes_mut`].
pub trait StableBytes {
    /// The bytes held by the container.
    ///
    /// Every container checked here defines it; the default only lets
    /// containers written outside the verifier implement the trait by
    /// `bytes` alone.
    closed spec fn stable_view(&self) -> Seq<u8> {
        Seq::empty()
    }

    /// Gets the underlying bytes.
    fn bytes(&self) -> (r: &[u8])
        ensures
            r@ == self.stable_view(),
    ;
}

/// A container whose one path for changing its bytes is `bytes_mut`.
pub trait StableBytesMut: StableBytes {
    /// Gets the underlying bytes mutably; what is written through the
    /// returned slice is exactly what the container holds afterwards.
    fn bytes_mut(&mut self) -> (r: &mut [u8])
        ensures
            r@ == old(self).stable_view(),
            final(self).stable_view() == final(r)@,
    ;
}

#[verifier::external_type_specification]
#[verifier::external_body]
pub struct ExAlignedVec<const A: usize>(AlignedVec<A>);

/// The bytes held by an aligned vector.
pub uninterp spec fn aligned_contents(v: AlignedVec) -> Seq<u8>;

/// Relies on `AlignedVec::as_slice`: a slice over the vector's elements.
#[verifier::external_body]
fn aligned_as_slice(v: &AlignedVec) -> (r: &[u8])
    ensures
        r@ == aligned_contents(*v),
{
    v.as_slice()
}

/// Relies on `AlignedVec::as_mut_slice`: a mutable slice over the vector's
/// elements, so what is written through it is what the vector holds after.
#[verifier::external_body]
fn aligned_as_mut_slice(v: &mut AlignedVec) -> (r: &mut [u8])
    ensures
        r@ == aligned_contents(*old(v)),
        aligned_contents(*final(v)) == final(r)@,
{
    v.as_mut_slice()
}

impl StableBytes for AlignedVec {
    open spec fn stable_view(&self) -> Seq<u8> {
        aligned_contents(*self)
    }

    fn bytes(&self) -> (r: &[u8]) {
        aligned_as_slice(self)
    }
}

impl StableBytesMut for AlignedVec {
    fn bytes_mut(&mut self) -> (r: &mut [u8]) {
        aligned_as_mut_slice(self)
    }
}

impl StableBytes for Vec<u8> {
    open spec fn stable_view(&self) -> Seq<u8> {
        self@
    }

    fn bytes(&self) -> (r: &[u8]) {
        self.as_slice()
    }
}

impl StableBytesMut for Vec<u8> {
    fn bytes_mut(&mut self) -> (r: &mut [u8]) {
        self.as_mut_slice()
    }
}

impl StableBytes for Box<[u8]> {
    open spec fn stable_view(&self) -> Seq<u8> {
        (**self)@
    }

    fn bytes(&self) -> (r: &[u8]) {
        &**self
    }
}

impl StableBytesMut for Box<[u8]> {
    fn bytes_mut(&mut self) -> (r: &mut [u8]) {
        &mut **self
    }
}

impl<'a> StableBytes for &'a [u8] {
    open spec fn stable_view(&self) -> Seq<u8> {
        (**self)@
    }

    fn bytes(&self) -> (r: &[u8]) {
        *self
    }
}

impl StableBytes for Arc<[u8]> {
    open spec fn stable_view(&self) -> Seq<u8> {
        (**self)@
    }

    fn bytes(&self) -> (r: &[u8]) {
        &**self
    }
}

impl StableBytes for Rc<[u8]> {
    open spec fn stable_view(&self) -> Seq<u8> {
        (**self)@
    }

    fn bytes(&self) -> (r: &[u8]) {
        &**self
    }
}

} // verus!
