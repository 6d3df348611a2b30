//! Typed associated data of file-chunk encryption.

use vstd::prelude::*;
use crate::encoding::{
    lemma_u16_be_injective, lemma_u32_be_injective, lemma_u64_be_injective, u16_be,
    u16_to_be_bytes, u32_be, u32_to_be_bytes, u64_be, u64_to_be_bytes,
};

verus! {

/// The only format version in use.
pub const AAD_VERSION_V1: u8 = 1;

/// Length of the serialized associated data.
pub const AAD_LEN: usize = 15;

/// Associated data of one chunk: which file, which chunk, which cloud, and
/// the format version.
#[derive(Clone, Copy)]
pub struct Aad {
    file_id: u64,
    chunk: u32,
    cloud_id: u16,
    version: u8,
}

impl Aad {
    /// The file the chunk belongs to.
    pub closed spec fn spec_file_id(&self) -> u64 {
        self.file_id
    }

    /// The index of the chunk in its file.
    pub closed spec fn spec_chunk(&self) -> u32 {
        self.chunk
    }

    /// The cloud the chunk is stored in.
    pub closed spec fn spec_cloud_id(&self) -> u16 {
        self.cloud_id
    }

    /// The format version.
    pub closed spec fn spec_version(&self) -> u8 {
        self.version
    }

    /// The associated data of a chunk in the format version in use.
    pub closed spec fn of(file_id: u64, chunk: u32, cloud_id: u16) -> Aad {
        Aad { file_id, chunk, cloud_id, version: AAD_VERSION_V1 }
    }

    /// The fields of the associated data of a chunk are the ones given.
    pub proof fn lemma_of(file_id: u64, chunk: u32, cloud_id: u16)
        ensures
            Aad::of(file_id, chunk, cloud_id).spec_file_id() == file_id,
            Aad::of(file_id, chunk, cloud_id).spec_chunk() == chunk,
            Aad::of(file_id, chunk, cloud_id).spec_cloud_id() == cloud_id,
            Aad::of(file_id, chunk, cloud_id).spec_version() == AAD_VERSION_V1,
    {
    }

    /// The version is the one in use.
    pub open spec fn is_valid(&self) -> bool {
        self.spec_version() == AAD_VERSION_V1
    }

    /// The wire form: file id (8), chunk (4), cloud id (2), all big-endian,
    /// then the version (1).
    pub open spec fn wire(&self) -> Seq<u8> {
        u64_be(self.spec_file_id()) + u32_be(self.spec_chunk()) + u16_be(self.spec_cloud_id())
            + seq![self.spec_version()]
    }

    /// Two values with the same fields are the same value.
    pub proof fn lemma_fields_determine(a: Aad, b: Aad)
        requires
            a.spec_file_id() == b.spec_file_id(),
            a.spec_chunk() == b.spec_chunk(),
            a.spec_cloud_id() == b.spec_cloud_id(),
            a.spec_version() == b.spec_version(),
        ensures
            a == b,
    {
    }

    /// The wire form determines the value: serialization loses nothing.
    pub proof fn lemma_wire_injective(a: Aad, b: Aad)
        requires
            a.wire() == b.wire(),
        ensures
            a == b,
    {
        let x = a.wire();
        let y = b.wire();
        assert(x.len() == 15 && y.len() == 15);
        assert(u64_be(a.spec_file_id()) =~= x.subrange(0, 8));
        assert(u64_be(b.spec_file_id()) =~= y.subrange(0, 8));
        assert(u32_be(a.spec_chunk()) =~= x.subrange(8, 12));
        assert(u32_be(b.spec_chunk()) =~= y.subrange(8, 12));
        assert(u16_be(a.spec_cloud_id()) =~= x.subrange(12, 14));
        assert(u16_be(b.spec_cloud_id()) =~= y.subrange(12, 14));
        assert(a.spec_version() == x[14]);
        assert(b.spec_version() == y[14]);
        lemma_u64_be_injective(a.spec_file_id(), b.spec_file_id());
        lemma_u32_be_injective(a.spec_chunk(), b.spec_chunk());
        lemma_u16_be_injective(a.spec_cloud_id(), b.spec_cloud_id());
    }

    /// Associated data for a chunk; refused unless `version` is the one in
    /// use.
    pub fn new(file_id: u64, chunk: u32, cloud_id: u16, version: u8) -> (r: Option<Self>)
        ensures
            r is Some <==> version == AAD_VERSION_V1,
            r matches Some(a) ==> a == Aad::of(file_id, chunk, cloud_id) && a.spec_file_id()
                == file_id && a.spec_chunk() == chunk && a.spec_cloud_id() == cloud_id
                && a.spec_version() == version,
    {
        if version != AAD_VERSION_V1 {
            return None;
        }
        Some(Aad { file_id, chunk, cloud_id, version })
    }

    /// The fifteen bytes of the wire form.
    pub fn serialize(&self) -> (r: [u8; 15])
        ensures
            r@ == self.wire(),
    {
        let f = u64_to_be_bytes(self.file_id);
        let c = u32_to_be_bytes(self.chunk);
        let d = u16_to_be_bytes(self.cloud_id);
        let r: [u8; 15] = [
            f[0],
            f[1],
            f[2],
            f[3],
            f[4],
            f[5],
            f[6],
            f[7],
            c[0],
            c[1],
            c[2],
            c[3],
            d[0],
            d[1],
            self.version,
        ];
        assert(r@ =~= self.wire());
        r
    }

    /// The file the chunk belongs to.
    pub fn file_id(&self) -> (r: u64)
        ensures
            r == self.spec_file_id(),
    {
        self.file_id
    }

    /// The index of the chunk in its file.
    pub fn chunk(&self) -> (r: u32)
        ensures
            r == self.spec_chunk(),
    {
        self.chunk
    }

    /// The cloud the chunk is stored in.
    pub fn cloud_id(&self) -> (r: u16)
        ensures
            r == self.spec_cloud_id(),
    {
        self.cloud_id
    }

    /// The format version.
    pub fn version(&self) -> (r: u8)
        ensures
            r == self.spec_version(),
    {
        self.version
    }
}

} // verus!
