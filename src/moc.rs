//! The compiled `moc3` asset.
//!
//! Creating a [`Moc`] takes three steps, the middle one being the engine's:
//! the data is copied to memory aligned as the engine requires
//! ([`MocBuffer::new`]), the engine probes its format version and revives it
//! in place, and [`Moc::new`] decides from the engine's answers whether the
//! asset is usable. After that the bytes are never written again.
use std::sync::Arc;

use aligned_utils::bytes::AlignedBytes;
use aligned_utils::stack::{Align16, Align64};
use vstd::prelude::*;

use crate::error::Error;
use crate::version::{moc_version_of, MocVersion};

verus! {

/// Necessary alignment for mocs (in bytes).
pub const ALIGN_OF_MOC: usize = 64;

/// Necessary alignment for models (in bytes).
pub const ALIGN_OF_MODEL: usize = 16;

/// The largest size of `moc3` data that the engine takes.
pub const MOC_SIZE_MAX: usize = 0xFFFF_FFFF;

/// Whether `n` bytes of `moc3` data can be taken: no more than `u32::MAX`,
/// and few enough to be laid out at the moc alignment (on a 64-bit target the
/// first bound implies the second).
pub open spec fn moc_size_ok(n: nat) -> bool {
    n <= MOC_SIZE_MAX && n + ALIGN_OF_MOC <= isize::MAX
}

/// Declares aligned-utils' heap byte array.
#[verifier::external_type_specification]
#[verifier::external_body]
pub struct ExAlignedBytes(AlignedBytes);

/// Declares aligned-utils' 64-byte alignment wrapper.
#[verifier::external_type_specification]
#[verifier::external_body]
#[verifier::reject_recursive_types(T)]
pub struct ExAlign64<T: ?Sized>(Align64<T>);

/// Declares aligned-utils' 16-byte alignment wrapper.
#[verifier::external_type_specification]
#[verifier::external_body]
#[verifier::reject_recursive_types(T)]
pub struct ExAlign16<T: ?Sized>(Align16<T>);

/// The bytes an aligned array holds.
pub uninterp spec fn aligned_contents(b: AlignedBytes) -> Seq<u8>;

/// The alignment an aligned array was allocated with.
pub uninterp spec fn aligned_alignment(b: AlignedBytes) -> nat;

/// `true` for a power of two.
pub open spec fn is_power_of_two(n: nat) -> bool
    decreases n,
{
    if n == 1 {
        true
    } else if n < 2 || n % 2 != 0 {
        false
    } else {
        is_power_of_two(n / 2)
    }
}

pub(crate) proof fn lemma_alignments_are_powers_of_two()
    ensures
        is_power_of_two(ALIGN_OF_MOC as nat),
        is_power_of_two(ALIGN_OF_MODEL as nat),
{
    assert(is_power_of_two(1));
    assert(is_power_of_two(2));
    assert(is_power_of_two(4));
    assert(is_power_of_two(8));
    assert(is_power_of_two(16));
    assert(is_power_of_two(32));
    assert(is_power_of_two(64));
}

/// Relies on `AlignedBytes::new_from_slice`: a copy of `bytes` at alignment
/// `align`. `Layout::from_size_align` panics unless `align` is a power of two
/// and the size rounded up to it fits in `isize`.
pub assume_specification[ AlignedBytes::new_from_slice ](bytes: &[u8], align: usize) -> (r:
    AlignedBytes)
    requires
        is_power_of_two(align as nat),
        bytes@.len() + align <= isize::MAX,
    ensures
        aligned_contents(r) == bytes@,
        aligned_alignment(r) == align,
;

/// Relies on `AlignedBytes::new_zeroed`: `len` zero bytes at alignment
/// `align`, under the same layout condition.
pub assume_specification[ AlignedBytes::new_zeroed ](len: usize, align: usize) -> (r: AlignedBytes)
    requires
        is_power_of_two(align as nat),
        len + align <= isize::MAX,
    ensures
        aligned_contents(r) == Seq::new(len as nat, |i: int| 0u8),
        aligned_alignment(r) == align,
;

/// Relies on `AlignedBytes::deref`: the slice of the bytes held.
pub assume_specification[ <AlignedBytes as core::ops::Deref>::deref ](b: &AlignedBytes) -> (r:
    &<AlignedBytes as core::ops::Deref>::Target)
    ensures
        r@ == aligned_contents(*b),
;

/// Relies on `AlignedBytes::deref_mut`: the slice of the bytes held, through
/// which the bytes, and not their number nor their alignment, may change.
pub assume_specification[ <AlignedBytes as core::ops::DerefMut>::deref_mut ](
    b: &mut AlignedBytes,
) -> (r: &mut <AlignedBytes as core::ops::Deref>::Target)
    ensures
        r@ == aligned_contents(*old(b)),
        final(r)@ == aligned_contents(*final(b)),
        aligned_contents(*final(b)).len() == aligned_contents(*old(b)).len(),
        aligned_alignment(*final(b)) == aligned_alignment(*old(b)),
;

/// Relies on `Arc::clone`: a second handle to the same value.
#[verifier::external_body]
fn share(a: &Arc<AlignedBytes>) -> (r: Arc<AlignedBytes>)
    ensures
        r == *a,
{
    Arc::clone(a)
}

/// Cubism moc, as the engine's own declaration lays it out: an opaque
/// record aligned to [`ALIGN_OF_MOC`].
pub struct csmMoc {
    _unused: Align64<[u8; 0]>,
}

/// Cubism model, as the engine's own declaration lays it out: an opaque
/// record aligned to [`ALIGN_OF_MODEL`].
pub struct csmModel {
    _unused: Align16<[u8; 0]>,
}

/// `moc3` data copied to memory aligned for the engine, not yet revived.
pub struct MocBuffer {
    data: AlignedBytes,
}

impl MocBuffer {
    /// The data is aligned for the engine and no larger than it takes.
    pub closed spec fn wf(&self) -> bool {
        &&& aligned_alignment(self.data) == ALIGN_OF_MOC
        &&& moc_size_ok(aligned_contents(self.data).len())
    }

    /// The bytes held.
    pub closed spec fn contents(&self) -> Seq<u8> {
        aligned_contents(self.data)
    }

    /// Copies `moc3` data to memory aligned for the engine; data larger than
    /// `u32::MAX` bytes, or too large to lay out, is refused.
    pub fn new(moc3_data: &[u8]) -> (r: Result<MocBuffer, Error>)
        ensures
            !moc_size_ok(moc3_data@.len()) ==> r matches Err(Error::MocDataTooLarge),
            moc_size_ok(moc3_data@.len()) ==> (r matches Ok(b) && b.wf() && b.contents()
                == moc3_data@),
    {
        if moc3_data.len() > MOC_SIZE_MAX || moc3_data.len() > (isize::MAX as usize) - ALIGN_OF_MOC {
            return Err(Error::MocDataTooLarge);
        }
        proof {
            lemma_alignments_are_powers_of_two();
        }
        let data = AlignedBytes::new_from_slice(moc3_data, ALIGN_OF_MOC);
        Ok(MocBuffer { data })
    }

    /// The number of bytes held.
    pub fn len(&self) -> (r: usize)
        ensures
            r == self.contents().len(),
    {
        let s: &[u8] = &self.data;
        s.len()
    }

    /// The bytes, for the engine to read.
    pub fn as_slice(&self) -> (r: &[u8])
        ensures
            r@ == self.contents(),
    {
        &self.data
    }

    /// The bytes, for the engine to revive in place.
    pub fn as_mut_slice(&mut self) -> (r: &mut [u8])
        ensures
            r@ == old(self).contents(),
            final(r)@ == final(self).contents(),
            final(self).wf() == old(self).wf(),
    {
        &mut self.data
    }
}

/// Cubism moc.
pub struct Moc {
    moc: Arc<AlignedBytes>,
    version: u32,
    latest: u32,
}

impl Moc {
    #[verifier::type_invariant]
    spec fn inv(&self) -> bool {
        &&& aligned_alignment(*self.moc) == ALIGN_OF_MOC
        &&& moc_size_ok(aligned_contents(*self.moc).len())
        &&& aligned_contents(*self.moc).len() > 0
        &&& moc_version_of(self.version).rank() <= moc_version_of(self.latest).rank()
    }

    /// The format version the engine reported for the bytes.
    pub closed spec fn spec_version(&self) -> MocVersion {
        moc_version_of(self.version)
    }

    /// The latest format version the engine supports.
    pub closed spec fn spec_latest(&self) -> MocVersion {
        moc_version_of(self.latest)
    }

    /// The revived bytes.
    pub closed spec fn spec_bytes(&self) -> Seq<u8> {
        aligned_contents(*self.moc)
    }

    /// The size of the revived bytes.
    pub open spec fn spec_size(&self) -> nat {
        self.spec_bytes().len()
    }

    /// Decides whether the engine can take data of format `version` when
    /// `latest` is the newest it supports.
    pub fn check_version(version: u32, latest: u32) -> (r: Result<MocVersion, Error>)
        ensures
            moc_version_of(version).rank() > moc_version_of(latest).rank() ==> r == Err::<
                MocVersion,
                Error,
            >(Error::InvalidMocVersion(version)),
            moc_version_of(version).rank() <= moc_version_of(latest).rank() ==> r == Ok::<
                MocVersion,
                Error,
            >(moc_version_of(version)),
    {
        let v = MocVersion::new(version);
        if v.is_newer_than(&MocVersion::new(latest)) {
            Err(Error::InvalidMocVersion(version))
        } else {
            Ok(v)
        }
    }

    /// Creates [`Moc`] from the aligned data and what the engine said of it:
    /// its format `version`, the `latest` version it supports, and whether
    /// reviving the data in place succeeded. Empty data is never a moc.
    pub fn new(buffer: MocBuffer, version: u32, latest: u32, revived: bool) -> (r: Result<
        Moc,
        Error,
    >)
        requires
            buffer.wf(),
        ensures
            moc_version_of(version).rank() > moc_version_of(latest).rank() ==> (r matches Err(
                Error::InvalidMocVersion(v),
            ) && v == version),
            moc_version_of(version).rank() <= moc_version_of(latest).rank() && (!revived
                || buffer.contents().len() == 0) ==> r matches Err(Error::InvalidMocData),
            moc_version_of(version).rank() <= moc_version_of(latest).rank() && revived
                && buffer.contents().len() > 0 ==> (r matches Ok(
                m,
            ) && m.spec_version() == moc_version_of(version) && m.spec_latest() == moc_version_of(
                latest,
            ) && m.spec_bytes() == buffer.contents()),
    {
        match Moc::check_version(version, latest) {
            Err(e) => Err(e),
            Ok(_) => {
                if !revived || buffer.len() == 0 {
                    Err(Error::InvalidMocData)
                } else {
                    Ok(Moc { moc: Arc::new(buffer.data), version, latest })
                }
            },
        }
    }

    /// Gets [`Moc`] format version, which never exceeds the latest version
    /// the engine supported when the moc was created.
    pub fn version(&self) -> (r: MocVersion)
        ensures
            r == self.spec_version(),
            r.rank() <= self.spec_latest().rank(),
    {
        proof {
            use_type_invariant(self);
        }
        MocVersion::new(self.version)
    }

    /// Gets the latest format version the engine supported when the moc was made.
    pub fn latest_version(&self) -> (r: MocVersion)
        ensures
            r == self.spec_latest(),
    {
        MocVersion::new(self.latest)
    }

    /// Gets the size of moc, which is never zero.
    pub fn moc_size(&self) -> (r: usize)
        ensures
            r == self.spec_size(),
            r > 0,
    {
        proof {
            use_type_invariant(self);
        }
        let s: &[u8] = &self.moc;
        s.len()
    }

    /// The revived bytes, for the engine to read.
    pub fn as_bytes(&self) -> (r: &[u8])
        ensures
            r@ == self.spec_bytes(),
    {
        &self.moc
    }
}

impl Clone for Moc {
    fn clone(&self) -> (r: Self)
        ensures
            r.spec_version() == self.spec_version(),
            r.spec_latest() == self.spec_latest(),
            r.spec_bytes() == self.spec_bytes(),
    {
        proof {
            use_type_invariant(self);
        }
        Moc { moc: share(&self.moc), version: self.version, latest: self.latest }
    }
}

} // verus!
