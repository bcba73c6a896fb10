//! The mesh buffer-range model: one shared GPU buffer holds every vertex
//! attribute stream and the index stream, each as a byte sub-range described
//! by asset accessor metadata.
//!
//! Only the first primitive of the first mesh of an asset is used; richer
//! assets are deliberately unsupported. A constructed mesh guarantees that
//! all five ranges lie within the buffer and are pairwise disjoint, and that
//! the index count fits its range (indices are 16-bit).

use vstd::prelude::*;

verus! {

/// Bytes per 16-bit index element.
pub const INDEX_SIZE: u64 = 2;

/// A byte sub-range `[start, end)` of the shared mesh buffer.
#[derive(Clone, Copy, PartialEq, Eq, Structural, Debug)]
pub struct ByteRange {
    pub start: u64,
    pub end: u64,
}

impl ByteRange {
    pub open spec fn wf(self) -> bool {
        self.start <= self.end
    }

    pub open spec fn len_spec(self) -> int {
        self.end - self.start
    }

    pub open spec fn within(self, buffer_len: int) -> bool {
        self.end <= buffer_len
    }

    pub open spec fn disjoint(self, other: ByteRange) -> bool {
        self.end <= other.start || other.end <= self.start
    }
}

/// Accessor metadata from the asset loader: where a stream's bytes sit in
/// the binary buffer.
#[derive(Clone, Copy, PartialEq, Eq, Structural, Debug)]
pub struct AccessorView {
    pub offset: u64,
    pub length: u64,
}

/// Accessor metadata of the index stream: its bytes and its element count.
#[derive(Clone, Copy, PartialEq, Eq, Structural, Debug)]
pub struct IndexView {
    pub offset: u64,
    pub length: u64,
    pub count: u32,
}

/// Why a mesh cannot be built from the asset's metadata. Every variant is a
/// fatal load error.
#[derive(Clone, Copy, PartialEq, Eq, Structural, Debug)]
pub enum MeshError {
    MissingIndices,
    MissingPositions,
    MissingNormals,
    MissingTangents,
    MissingTexCoords,
    RangeOutOfBounds,
    IndexCountExceedsRange,
    RangesOverlap,
}

/// The byte range an accessor view describes.
pub open spec fn spec_range_of(offset: u64, length: u64) -> ByteRange {
    ByteRange { start: offset, end: (offset + length) as u64 }
}

/// The typed layout of one mesh inside its shared buffer.
#[derive(Clone, Copy, PartialEq, Eq, Structural, Debug)]
pub struct Mesh {
    pub buffer_len: u64,
    pub index_count: u32,
    pub index_range: ByteRange,
    pub position_range: ByteRange,
    pub normal_range: ByteRange,
    pub tangent_range: ByteRange,
    pub texcoord_range: ByteRange,
}

impl Mesh {
    /// All five ranges are ordered, lie within the buffer, are pairwise
    /// disjoint, and the index range holds at least `index_count` indices.
    pub open spec fn wf(self) -> bool {
        &&& self.index_range.wf()
        &&& self.position_range.wf()
        &&& self.normal_range.wf()
        &&& self.tangent_range.wf()
        &&& self.texcoord_range.wf()
        &&& self.index_range.within(self.buffer_len as int)
        &&& self.position_range.within(self.buffer_len as int)
        &&& self.normal_range.within(self.buffer_len as int)
        &&& self.tangent_range.within(self.buffer_len as int)
        &&& self.texcoord_range.within(self.buffer_len as int)
        &&& self.index_range.disjoint(self.position_range)
        &&& self.index_range.disjoint(self.normal_range)
        &&& self.index_range.disjoint(self.tangent_range)
        &&& self.index_range.disjoint(self.texcoord_range)
        &&& self.position_range.disjoint(self.normal_range)
        &&& self.position_range.disjoint(self.tangent_range)
        &&& self.position_range.disjoint(self.texcoord_range)
        &&& self.normal_range.disjoint(self.tangent_range)
        &&& self.normal_range.disjoint(self.texcoord_range)
        &&& self.tangent_range.disjoint(self.texcoord_range)
        &&& self.index_count * INDEX_SIZE <= self.index_range.len_spec()
    }

    pub fn index_range(&self) -> (r: ByteRange)
        ensures
            r == self.index_range,
    {
        self.index_range
    }

    pub fn position_range(&self) -> (r: ByteRange)
        ensures
            r == self.position_range,
    {
        self.position_range
    }

    pub fn normal_range(&self) -> (r: ByteRange)
        ensures
            r == self.normal_range,
    {
        self.normal_range
    }

    pub fn tangent_range(&self) -> (r: ByteRange)
        ensures
            r == self.tangent_range,
    {
        self.tangent_range
    }

    pub fn texcoord_range(&self) -> (r: ByteRange)
        ensures
            r == self.texcoord_range,
    {
        self.texcoord_range
    }

    /// Build the mesh layout from the asset's accessor metadata: reject a
    /// missing stream, a range beyond the buffer, an index count that does
    /// not fit its range, and overlapping ranges, in that order.
    pub fn from_accessor_views(
        buffer_len: u64,
        indices: Option<IndexView>,
        positions: Option<AccessorView>,
        normals: Option<AccessorView>,
        tangents: Option<AccessorView>,
        texcoords: Option<AccessorView>,
    ) -> (r: Result<Mesh, MeshError>)
        ensures
            r == spec_mesh_result(buffer_len, indices, positions, normals, tangents, texcoords),
            r matches Ok(m) ==> m.wf() && m.buffer_len == buffer_len,
    {
        let iv = match indices {
            Some(v) => v,
            None => {
                return Err(MeshError::MissingIndices);
            },
        };
        let pv = match positions {
            Some(v) => v,
            None => {
                return Err(MeshError::MissingPositions);
            },
        };
        let nv = match normals {
            Some(v) => v,
            None => {
                return Err(MeshError::MissingNormals);
            },
        };
        let tv = match tangents {
            Some(v) => v,
            None => {
                return Err(MeshError::MissingTangents);
            },
        };
        let cv = match texcoords {
            Some(v) => v,
            None => {
                return Err(MeshError::MissingTexCoords);
            },
        };
        if view_exceeds(iv.offset, iv.length, buffer_len) || view_exceeds(
            pv.offset,
            pv.length,
            buffer_len,
        ) || view_exceeds(nv.offset, nv.length, buffer_len) || view_exceeds(
            tv.offset,
            tv.length,
            buffer_len,
        ) || view_exceeds(cv.offset, cv.length, buffer_len) {
            return Err(MeshError::RangeOutOfBounds);
        }
        let index_range = ByteRange { start: iv.offset, end: iv.offset + iv.length };
        let position_range = ByteRange { start: pv.offset, end: pv.offset + pv.length };
        let normal_range = ByteRange { start: nv.offset, end: nv.offset + nv.length };
        let tangent_range = ByteRange { start: tv.offset, end: tv.offset + tv.length };
        let texcoord_range = ByteRange { start: cv.offset, end: cv.offset + cv.length };
        if (iv.count as u64) * INDEX_SIZE > iv.length {
            return Err(MeshError::IndexCountExceedsRange);
        }
        if !(ranges_disjoint(index_range, position_range) && ranges_disjoint(
            index_range,
            normal_range,
        ) && ranges_disjoint(index_range, tangent_range) && ranges_disjoint(
            index_range,
            texcoord_range,
        ) && ranges_disjoint(position_range, normal_range) && ranges_disjoint(
            position_range,
            tangent_range,
        ) && ranges_disjoint(position_range, texcoord_range) && ranges_disjoint(
            normal_range,
            tangent_range,
        ) && ranges_disjoint(normal_range, texcoord_range) && ranges_disjoint(
            tangent_range,
            texcoord_range,
        )) {
            return Err(MeshError::RangesOverlap);
        }
        Ok(
            Mesh {
                buffer_len,
                index_count: iv.count,
                index_range,
                position_range,
                normal_range,
                tangent_range,
                texcoord_range,
            },
        )
    }
}

/// Whether a view pokes past the end of the buffer.
fn view_exceeds(offset: u64, length: u64, buffer_len: u64) -> (r: bool)
    ensures
        r == (offset + length > buffer_len),
{
    offset as u128 + length as u128 > buffer_len as u128
}

/// Whether two ranges share no byte.
fn ranges_disjoint(a: ByteRange, b: ByteRange) -> (r: bool)
    ensures
        r == a.disjoint(b),
{
    a.end <= b.start || b.end <= a.start
}

/// The mesh `from_accessor_views` builds, as a specification value.
pub open spec fn spec_mesh_result(
    buffer_len: u64,
    indices: Option<IndexView>,
    positions: Option<AccessorView>,
    normals: Option<AccessorView>,
    tangents: Option<AccessorView>,
    texcoords: Option<AccessorView>,
) -> Result<Mesh, MeshError> {
    match (indices, positions, normals, tangents, texcoords) {
        (None, _, _, _, _) => Err(MeshError::MissingIndices),
        (_, None, _, _, _) => Err(MeshError::MissingPositions),
        (_, _, None, _, _) => Err(MeshError::MissingNormals),
        (_, _, _, None, _) => Err(MeshError::MissingTangents),
        (_, _, _, _, None) => Err(MeshError::MissingTexCoords),
        (Some(iv), Some(pv), Some(nv), Some(tv), Some(cv)) => if iv.offset + iv.length
            > buffer_len || pv.offset + pv.length > buffer_len || nv.offset + nv.length
            > buffer_len || tv.offset + tv.length > buffer_len || cv.offset + cv.length
            > buffer_len {
            Err(MeshError::RangeOutOfBounds)
        } else if iv.count * INDEX_SIZE > iv.length {
            Err(MeshError::IndexCountExceedsRange)
        } else {
            let m = Mesh {
                buffer_len,
                index_count: iv.count,
                index_range: spec_range_of(iv.offset, iv.length),
                position_range: spec_range_of(pv.offset, pv.length),
                normal_range: spec_range_of(nv.offset, nv.length),
                tangent_range: spec_range_of(tv.offset, tv.length),
                texcoord_range: spec_range_of(cv.offset, cv.length),
            };
            if !(m.index_range.disjoint(m.position_range) && m.index_range.disjoint(m.normal_range)
                && m.index_range.disjoint(m.tangent_range) && m.index_range.disjoint(
                m.texcoord_range,
            ) && m.position_range.disjoint(m.normal_range) && m.position_range.disjoint(
                m.tangent_range,
            ) && m.position_range.disjoint(m.texcoord_range) && m.normal_range.disjoint(
                m.tangent_range,
            ) && m.normal_range.disjoint(m.texcoord_range) && m.tangent_range.disjoint(
                m.texcoord_range,
            )) {
                Err(MeshError::RangesOverlap)
            } else {
                Ok(m)
            }
        },
    }
}

/// Buffer-range disjointness: every range of a constructed mesh lies within
/// `[0, buffer_len)` and no two of them overlap.
pub proof fn lemma_mesh_ranges_disjoint(m: Mesh)
    requires
        m.wf(),
    ensures
        m.index_range.within(m.buffer_len as int),
        m.position_range.within(m.buffer_len as int),
        m.normal_range.within(m.buffer_len as int),
        m.tangent_range.within(m.buffer_len as int),
        m.texcoord_range.within(m.buffer_len as int),
        m.index_range.disjoint(m.position_range),
        m.index_range.disjoint(m.normal_range),
        m.index_range.disjoint(m.tangent_range),
        m.index_range.disjoint(m.texcoord_range),
        m.position_range.disjoint(m.normal_range),
        m.position_range.disjoint(m.tangent_range),
        m.position_range.disjoint(m.texcoord_range),
        m.normal_range.disjoint(m.tangent_range),
        m.normal_range.disjoint(m.texcoord_range),
        m.tangent_range.disjoint(m.texcoord_range),
{
}

/// The vertex formats the mesh pipeline binds.
#[derive(Clone, Copy, PartialEq, Eq, Structural, Debug)]
pub enum VertexFormat {
    Float32x2,
    Float32x3,
    Float32x4,
}

impl VertexFormat {
    /// The byte width of one element of this format.
    pub fn size(&self) -> (s: u64)
        ensures
            self is Float32x2 ==> s == 8,
            self is Float32x3 ==> s == 12,
            self is Float32x4 ==> s == 16,
    {
        match self {
            VertexFormat::Float32x2 => 8,
            VertexFormat::Float32x3 => 12,
            VertexFormat::Float32x4 => 16,
        }
    }
}

/// How one vertex attribute stream is laid out: its stride, its format and
/// the shader slot it binds to.
#[derive(Clone, Copy, PartialEq, Eq, Structural, Debug)]
pub struct VertexBufferLayout {
    pub array_stride: u64,
    pub shader_location: u32,
    pub format: VertexFormat,
}

impl Mesh {
    /// Positions: three 32-bit floats at shader slot 0.
    pub fn position_layout() -> (l: VertexBufferLayout)
        ensures
            l == (VertexBufferLayout {
                array_stride: 12,
                shader_location: 0,
                format: VertexFormat::Float32x3,
            }),
    {
        VertexBufferLayout { array_stride: 12, shader_location: 0, format: VertexFormat::Float32x3 }
    }

    /// Normals: three 32-bit floats at shader slot 1.
    pub fn normal_layout() -> (l: VertexBufferLayout)
        ensures
            l == (VertexBufferLayout {
                array_stride: 12,
                shader_location: 1,
                format: VertexFormat::Float32x3,
            }),
    {
        VertexBufferLayout { array_stride: 12, shader_location: 1, format: VertexFormat::Float32x3 }
    }

    /// Tangents: four 32-bit floats at shader slot 2.
    pub fn tangent_layout() -> (l: VertexBufferLayout)
        ensures
            l == (VertexBufferLayout {
                array_stride: 16,
                shader_location: 2,
                format: VertexFormat::Float32x4,
            }),
    {
        VertexBufferLayout { array_stride: 16, shader_location: 2, format: VertexFormat::Float32x4 }
    }

    /// Texture coordinates: two 32-bit floats at shader slot 3.
    pub fn texcoord_layout() -> (l: VertexBufferLayout)
        ensures
            l == (VertexBufferLayout {
                array_stride: 8,
                shader_location: 3,
                format: VertexFormat::Float32x2,
            }),
    {
        VertexBufferLayout { array_stride: 8, shader_location: 3, format: VertexFormat::Float32x2 }
    }
}

} // verus!
