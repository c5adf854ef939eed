//! Mesh declarations: what a caller describes, what is checked of it, and the
//! form in which it is handed to the engine.

use vstd::prelude::*;
use crate::format::IndexFormat;

verus! {

/// Why a mesh declaration was turned down.
#[derive(Clone, Copy, Debug, PartialEq, Eq, Structural)]
pub enum MeshError {
    /// The position buffer is shorter than vertex count times position stride.
    PositionDataTooShort,
    /// The normal buffer is present and shorter than vertex count times normal stride.
    NormalDataTooShort,
    /// The texture coordinate buffer is present and shorter than vertex count times
    /// its stride.
    UvDataTooShort,
    /// The index buffer is shorter than index count times the size of one index.
    IndexDataTooShort,
}

/// A mesh as the caller describes it: attribute buffers as raw bytes with a
/// stride each, and an index buffer as raw bytes with a format.
///
/// The buffers need to live only as long as the call that takes the
/// declaration; the engine copies what it reads.
#[derive(Clone, Copy, Debug)]
pub struct MeshDecl<'a> {
    pub vertex_count: u32,
    pub vertex_position_data: &'a [u8],
    pub vertex_position_stride: u32,
    /// Optional: empty when the mesh has no normals.
    pub vertex_normal_data: &'a [u8],
    pub vertex_normal_stride: u32,
    /// Optional: empty when the mesh has no texture coordinates.
    pub vertex_uv_data: &'a [u8],
    pub vertex_uv_stride: u32,
    pub index_count: u32,
    pub index_data: &'a [u8],
    /// Added by the engine to every index it reads.
    pub index_offset: i32,
    pub index_format: IndexFormat,
    /// Optional: one flag per face, empty when no face is ignored.
    pub face_ignore_data: &'a [bool],
}

/// A mesh declaration in the form the engine takes it: the same counts and
/// strides, the format as its code, and every absent buffer as `None`, which
/// crosses to the engine as a null pointer.
#[derive(Clone, Copy, Debug)]
pub struct MeshInput<'a> {
    pub vertex_count: u32,
    pub vertex_position_data: &'a [u8],
    pub vertex_position_stride: u32,
    pub vertex_normal_data: Option<&'a [u8]>,
    pub vertex_normal_stride: u32,
    pub vertex_uv_data: Option<&'a [u8]>,
    pub vertex_uv_stride: u32,
    pub index_count: u32,
    pub index_data: Option<&'a [u8]>,
    pub index_offset: i32,
    pub index_format: u32,
    pub face_ignore_data: Option<&'a [bool]>,
}

/// The content of a mesh declaration: its counts, strides and format, and
/// what its buffers hold.
pub struct MeshDeclView {
    pub vertex_count: u32,
    pub vertex_position_data: Seq<u8>,
    pub vertex_position_stride: u32,
    pub vertex_normal_data: Seq<u8>,
    pub vertex_normal_stride: u32,
    pub vertex_uv_data: Seq<u8>,
    pub vertex_uv_stride: u32,
    pub index_count: u32,
    pub index_data: Seq<u8>,
    pub index_offset: i32,
    pub index_format: IndexFormat,
    pub face_ignore_data: Seq<bool>,
}

impl<'a> View for MeshDecl<'a> {
    type V = MeshDeclView;

    open spec fn view(&self) -> MeshDeclView {
        MeshDeclView {
            vertex_count: self.vertex_count,
            vertex_position_data: self.vertex_position_data@,
            vertex_position_stride: self.vertex_position_stride,
            vertex_normal_data: self.vertex_normal_data@,
            vertex_normal_stride: self.vertex_normal_stride,
            vertex_uv_data: self.vertex_uv_data@,
            vertex_uv_stride: self.vertex_uv_stride,
            index_count: self.index_count,
            index_data: self.index_data@,
            index_offset: self.index_offset,
            index_format: self.index_format,
            face_ignore_data: self.face_ignore_data@,
        }
    }
}

/// Whether a buffer of `len` entries has room for `count` records of `stride`
/// entries each.
pub open spec fn holds(len: nat, count: u32, stride: u32) -> bool {
    count * stride <= len
}

/// `Some` of a buffer that has entries, `None` of an empty one.
pub open spec fn present<'a, T>(buffer: &'a [T]) -> Option<&'a [T]> {
    if buffer@.len() == 0 {
        None
    } else {
        Some(buffer)
    }
}

fn buffer_holds(len: usize, count: u32, stride: u32) -> (fits: bool)
    ensures
        fits == holds(len as nat, count, stride),
{
    assert(count * stride <= 0xFFFF_FFFF * 0xFFFF_FFFF) by (nonlinear_arith)
        requires
            0 <= count <= 0xFFFF_FFFF,
            0 <= stride <= 0xFFFF_FFFF,
    ;
    let needed: u64 = (count as u64) * (stride as u64);
    needed <= len as u64
}

fn non_empty<'a, T>(buffer: &'a [T]) -> (found: Option<&'a [T]>)
    ensures
        found == present(buffer),
{
    if buffer.len() == 0 {
        None
    } else {
        Some(buffer)
    }
}

impl MeshDeclView {
    /// The position buffer has room for every vertex.
    pub open spec fn position_fits(self) -> bool {
        holds(self.vertex_position_data.len(), self.vertex_count, self.vertex_position_stride)
    }

    /// The normal buffer is absent or has room for every vertex.
    pub open spec fn normal_fits(self) -> bool {
        self.vertex_normal_data.len() == 0 || holds(
            self.vertex_normal_data.len(),
            self.vertex_count,
            self.vertex_normal_stride,
        )
    }

    /// The texture coordinate buffer is absent or has room for every vertex.
    pub open spec fn uv_fits(self) -> bool {
        self.vertex_uv_data.len() == 0 || holds(
            self.vertex_uv_data.len(),
            self.vertex_count,
            self.vertex_uv_stride,
        )
    }

    /// The index buffer has room for every index in the declared format.
    pub open spec fn index_fits(self) -> bool {
        holds(self.index_data.len(), self.index_count, self.index_format.spec_element_size())
    }

    /// Every declared buffer is long enough for what the counts and strides
    /// say the engine will read from it.
    pub open spec fn well_formed(self) -> bool {
        &&& self.position_fits()
        &&& self.normal_fits()
        &&& self.uv_fits()
        &&& self.index_fits()
    }

    /// Every buffer that is present is exactly as long as its count and
    /// stride ask for: the position buffer, the normal and texture coordinate
    /// buffers unless they are empty, and the index buffer.
    pub open spec fn exactly_sized(self) -> bool {
        &&& self.vertex_position_data.len() == self.vertex_count * self.vertex_position_stride
        &&& (self.vertex_normal_data.len() == 0 || self.vertex_normal_data.len()
            == self.vertex_count * self.vertex_normal_stride)
        &&& (self.vertex_uv_data.len() == 0 || self.vertex_uv_data.len() == self.vertex_count
            * self.vertex_uv_stride)
        &&& self.index_data.len() == self.index_count * self.index_format.spec_element_size()
    }

    /// The first buffer found too short, looking at positions, normals,
    /// texture coordinates and indices in that order; `None` when all fit.
    pub open spec fn violation(self) -> Option<MeshError> {
        if !self.position_fits() {
            Some(MeshError::PositionDataTooShort)
        } else if !self.normal_fits() {
            Some(MeshError::NormalDataTooShort)
        } else if !self.uv_fits() {
            Some(MeshError::UvDataTooShort)
        } else if !self.index_fits() {
            Some(MeshError::IndexDataTooShort)
        } else {
            None
        }
    }
}

impl<'a> MeshDecl<'a> {
    /// The declaration in the engine's form.
    pub open spec fn marshalled(&self) -> MeshInput<'a> {
        MeshInput {
            vertex_count: self.vertex_count,
            vertex_position_data: self.vertex_position_data,
            vertex_position_stride: self.vertex_position_stride,
            vertex_normal_data: present(self.vertex_normal_data),
            vertex_normal_stride: self.vertex_normal_stride,
            vertex_uv_data: present(self.vertex_uv_data),
            vertex_uv_stride: self.vertex_uv_stride,
            index_count: self.index_count,
            index_data: present(self.index_data),
            index_offset: self.index_offset,
            index_format: self.index_format.spec_code(),
            face_ignore_data: present(self.face_ignore_data),
        }
    }

    /// Checks every declared buffer against its count and stride.
    ///
    /// Succeeds exactly on well-formed declarations; otherwise names the first
    /// buffer that is too short.
    pub fn validate(&self) -> (checked: Result<(), MeshError>)
        ensures
            checked is Ok <==> self@.well_formed(),
            checked == match self@.violation() {
                None => Ok::<(), MeshError>(()),
                Some(error) => Err(error),
            },
    {
        if !buffer_holds(
            self.vertex_position_data.len(),
            self.vertex_count,
            self.vertex_position_stride,
        ) {
            return Err(MeshError::PositionDataTooShort);
        }
        if self.vertex_normal_data.len() != 0 && !buffer_holds(
            self.vertex_normal_data.len(),
            self.vertex_count,
            self.vertex_normal_stride,
        ) {
            return Err(MeshError::NormalDataTooShort);
        }
        if self.vertex_uv_data.len() != 0 && !buffer_holds(
            self.vertex_uv_data.len(),
            self.vertex_count,
            self.vertex_uv_stride,
        ) {
            return Err(MeshError::UvDataTooShort);
        }
        if !buffer_holds(self.index_data.len(), self.index_count, self.index_format.element_size()) {
            return Err(MeshError::IndexDataTooShort);
        }
        Ok(())
    }

    /// Validates the declaration and, if it is well formed, packages it for
    /// the engine. A declaration that fails validation yields no input, so
    /// nothing of it can reach the engine.
    pub fn marshal(&self) -> (packed: Result<MeshInput<'a>, MeshError>)
        ensures
            packed is Ok <==> self@.well_formed(),
            packed == match self@.violation() {
                None => Ok::<MeshInput<'a>, MeshError>(self.marshalled()),
                Some(error) => Err(error),
            },
    {
        match self.validate() {
            Err(error) => Err(error),
            Ok(()) => Ok(
                MeshInput {
                    vertex_count: self.vertex_count,
                    vertex_position_data: self.vertex_position_data,
                    vertex_position_stride: self.vertex_position_stride,
                    vertex_normal_data: non_empty(self.vertex_normal_data),
                    vertex_normal_stride: self.vertex_normal_stride,
                    vertex_uv_data: non_empty(self.vertex_uv_data),
                    vertex_uv_stride: self.vertex_uv_stride,
                    index_count: self.index_count,
                    index_data: non_empty(self.index_data),
                    index_offset: self.index_offset,
                    index_format: self.index_format.code(),
                    face_ignore_data: non_empty(self.face_ignore_data),
                },
            ),
        }
    }
}

/// A declaration whose buffers are exactly as long as its counts and strides
/// ask for is well formed: validation accepts it.
pub proof fn lemma_exact_lengths_accepted(decl: MeshDeclView)
    ensures
        decl.exactly_sized() ==> decl.well_formed() && decl.violation() is None,
{
}

/// A declaration whose position buffer is shorter than vertex count times
/// position stride is never accepted, whatever else it holds.
pub proof fn lemma_short_positions_rejected(decl: MeshDeclView)
    requires
        decl.vertex_position_data.len() < decl.vertex_count * decl.vertex_position_stride,
    ensures
        !decl.well_formed(),
        decl.violation() == Some(MeshError::PositionDataTooShort),
{
}

/// Validation finds a violation exactly in the declarations that are not
/// well formed.
pub proof fn lemma_violation_iff_ill_formed(decl: MeshDeclView)
    ensures
        decl.violation() is None <==> decl.well_formed(),
{
}

impl<'a> Default for MeshDecl<'a> {
    /// The empty declaration: no vertices, no indices, every buffer empty,
    /// sixteen-bit indices.
    fn default() -> (decl: MeshDecl<'a>)
        ensures
            decl.vertex_count == 0,
            decl.vertex_position_data@.len() == 0,
            decl.vertex_position_stride == 0,
            decl.vertex_normal_data@.len() == 0,
            decl.vertex_normal_stride == 0,
            decl.vertex_uv_data@.len() == 0,
            decl.vertex_uv_stride == 0,
            decl.index_count == 0,
            decl.index_data@.len() == 0,
            decl.index_offset == 0,
            decl.index_format == IndexFormat::Uint16,
            decl.face_ignore_data@.len() == 0,
    {
        MeshDecl {
            vertex_count: 0,
            vertex_position_data: &[],
            vertex_position_stride: 0,
            vertex_normal_data: &[],
            vertex_normal_stride: 0,
            vertex_uv_data: &[],
            vertex_uv_stride: 0,
            index_count: 0,
            index_data: &[],
            index_offset: 0,
            index_format: IndexFormat::Uint16,
            face_ignore_data: &[],
        }
    }
}

} // verus!
