//! Vertex data layout and the GPU upload plan for the triangle's geometry.
//!
//! The vertex data itself is a flat run of 32-bit floats, three components
//! (x, y, z) per vertex, tightly packed. This module computes everything the
//! upload and the rasterizer need to know about that data — sizes, the
//! attribute layout of slot 0, and the exact order of setup steps — from the
//! number of floats alone; the float values are opaque payload that the
//! application hands straight to the GPU.

use vstd::prelude::*;

verus! {

/// Byte width of one 32-bit float vertex component.
pub const FLOAT_BYTES: u32 = 4;

/// Components (x, y, z) per vertex.
pub const COMPONENTS_PER_VERTEX: u32 = 3;

/// Number of floats in the triangle's fixed vertex data: three vertices of
/// three components each.
pub const TRIANGLE_FLOAT_COUNT: u32 = 9;

/// How one vertex attribute slot reads the buffer: which slot, how many float
/// components per vertex, whether fixed-point values are normalized, and the
/// packing (stride and offset, in bytes).
#[derive(Clone, Copy, PartialEq, Eq, Structural, Debug)]
pub struct AttributeLayout {
    pub index: u32,
    pub components: u32,
    pub normalized: bool,
    pub stride_bytes: u32,
    pub offset_bytes: u32,
}

/// Everything the GPU-side setup of the vertex data is told: the size of the
/// upload, how many vertices it holds, and the layout of attribute slot 0.
#[derive(Clone, Copy, PartialEq, Eq, Structural, Debug)]
pub struct GeometryPlan {
    pub layout: AttributeLayout,
    pub buffer_len_bytes: u32,
    pub vertex_count: u32,
}

/// The layout of attribute slot 0: three tightly packed float components per
/// vertex, not normalized, starting at the beginning of the buffer.
pub open spec fn spec_triangle_layout() -> AttributeLayout {
    AttributeLayout {
        index: 0,
        components: 3,
        normalized: false,
        stride_bytes: 12,
        offset_bytes: 0,
    }
}

/// One step of the geometry setup, in the order the application must perform
/// them. The array object is bound before the buffer so that it records the
/// attribute configuration; the buffer may be unbound right after the
/// attribute is declared, because declaring the attribute binds the buffer to
/// the attribute slot permanently. Unbinding the array object at the end is
/// hygiene, not a correctness requirement.
#[derive(Clone, Copy, PartialEq, Eq, Structural, Debug)]
pub enum SetupStep {
    /// Bind the vertex array object that records the attribute layout.
    BindVertexArray,
    /// Bind the vertex buffer object the data is uploaded into.
    BindArrayBuffer,
    /// Upload this many bytes of vertex data, with a hint that the data will
    /// not change after the upload.
    UploadStaticData { len_bytes: u32 },
    /// Declare how attribute slot `layout.index` reads the bound buffer.
    DeclareAttribute { layout: AttributeLayout },
    /// Enable the declared attribute slot.
    EnableAttribute { index: u32 },
    /// Unbind the vertex buffer object.
    UnbindArrayBuffer,
    /// Unbind the vertex array object.
    UnbindVertexArray,
}

/// The setup steps that upload a buffer of `plan.buffer_len_bytes` bytes and
/// declare `plan.layout`, in order.
pub open spec fn spec_setup_steps(plan: GeometryPlan) -> Seq<SetupStep> {
    seq![
        SetupStep::BindVertexArray,
        SetupStep::BindArrayBuffer,
        SetupStep::UploadStaticData { len_bytes: plan.buffer_len_bytes },
        SetupStep::DeclareAttribute { layout: plan.layout },
        SetupStep::EnableAttribute { index: plan.layout.index },
        SetupStep::UnbindArrayBuffer,
        SetupStep::UnbindVertexArray,
    ]
}

/// The upload plan for a flat run of `float_count` vertex floats, three to a
/// vertex: attribute slot 0 reads three tightly packed, unnormalized float
/// components per vertex from offset 0.
pub fn build_plan(float_count: u32) -> (r: GeometryPlan)
    requires
        float_count % 3 == 0,
        float_count <= u32::MAX / 4,
    ensures
        r.layout == spec_triangle_layout(),
        r.buffer_len_bytes == float_count * FLOAT_BYTES,
        r.vertex_count == float_count / COMPONENTS_PER_VERTEX,
{
    GeometryPlan {
        layout: AttributeLayout {
            index: 0,
            components: 3,
            normalized: false,
            stride_bytes: 12,
            offset_bytes: 0,
        },
        buffer_len_bytes: float_count * 4,
        vertex_count: float_count / 3,
    }
}

impl GeometryPlan {
    /// The setup steps for this plan, in the order the application must
    /// perform them.
    pub fn setup_steps(&self) -> (r: Vec<SetupStep>)
        ensures
            r@ == spec_setup_steps(*self),
    {
        let mut steps: Vec<SetupStep> = Vec::new();
        steps.push(SetupStep::BindVertexArray);
        steps.push(SetupStep::BindArrayBuffer);
        steps.push(SetupStep::UploadStaticData { len_bytes: self.buffer_len_bytes });
        steps.push(SetupStep::DeclareAttribute { layout: self.layout });
        steps.push(SetupStep::EnableAttribute { index: self.layout.index });
        steps.push(SetupStep::UnbindArrayBuffer);
        steps.push(SetupStep::UnbindVertexArray);
        proof {
            assert(steps@ =~= spec_setup_steps(*self));
        }
        steps
    }
}

} // verus!
