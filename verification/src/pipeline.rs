//! The render pipeline: one frame, as the exact list of backend
//! commands it consists of.
//!
//! A render pass has no state that outlives it: `render_frame` turns
//! a linked program, an uploaded buffer and a camera into the ordered
//! command list for one frame — clear, bind, configure the position
//! attribute, push the camera-derived uniforms, draw — and the
//! backend executes the commands in order. Binding order is a
//! correctness invariant: the buffer and the program are bound before
//! the attribute pointer is configured, and the draw call comes last.

use vstd::prelude::*;

use crate::camera::Camera;
use crate::geometry::GeometryBuffer;
use crate::matrix::{matrix_of, Matrix4x4};
use crate::rational::Rat;
use crate::shader::{ShaderProgram, UniformSet};

verus! {

/// Primitive topologies for the draw call. The four-vertex quad is
/// drawn as a strip: two triangles sharing an edge.
#[derive(Clone, Copy, Debug, PartialEq, Eq, Structural)]
pub enum Topology {
    TriangleStrip,
    TriangleList,
}

/// One backend operation of a render pass.
#[derive(Clone, Copy, Debug, PartialEq)]
pub enum GlCommand {
    /// Set the clear colour.
    ClearColor { red: Rat, green: Rat, blue: Rat, alpha: Rat },
    /// Clear the colour buffer.
    ClearColorBuffer,
    /// Bind the vertex buffer as the active array buffer.
    BindArrayBuffer { buffer: u32 },
    /// Select the linked program.
    UseProgram { program: u32 },
    /// Describe the position attribute's layout within the bound
    /// buffer: `components` tightly packed values per vertex.
    VertexAttribPointer { slot: u32, components: u32 },
    /// Enable the attribute slot.
    EnableVertexAttribArray { slot: u32 },
    /// Upload a 4x4 matrix uniform, column-major when flattened.
    UniformMatrix { location: u32, matrix: Matrix4x4 },
    /// Upload a four-component vector uniform.
    UniformVec4 { location: u32, x: Rat, y: Rat, z: Rat, w: Rat },
    /// Draw `count` vertices starting at `first`.
    DrawArrays { topology: Topology, first: u32, count: u32 },
}

/// The fixed background: black, opaque.
pub open spec fn clear_command() -> GlCommand {
    GlCommand::ClearColor {
        red: Rat { num: 0, den: 1 },
        green: Rat { num: 0, den: 1 },
        blue: Rat { num: 0, den: 1 },
        alpha: Rat { num: 1, den: 1 },
    }
}

/// The fixed solid colour pushed when the program expects a colour
/// uniform.
pub open spec fn colour_command(location: u32) -> GlCommand {
    GlCommand::UniformVec4 {
        location,
        x: Rat { num: 0, den: 1 },
        y: Rat { num: 1, den: 1 },
        z: Rat { num: 3, den: 5 },
        w: Rat { num: 1, den: 1 },
    }
}

/// The uniform uploads of a frame, as the program's uniform
/// configuration dictates: either the view and projection matrices
/// separately plus the solid colour, or their product as one
/// combined matrix.
pub open spec fn uniform_commands(program: ShaderProgram, camera: Camera) -> Seq<GlCommand> {
    match program.uniforms {
        UniformSet::Separate { model_view, projection, colour } => seq![
            GlCommand::UniformMatrix {
                location: model_view,
                matrix: matrix_of(camera.view_spec()),
            },
            GlCommand::UniformMatrix {
                location: projection,
                matrix: matrix_of(camera.projection_spec()),
            },
            colour_command(colour),
        ],
        UniformSet::Combined { model_view_projection } => seq![
            GlCommand::UniformMatrix {
                location: model_view_projection,
                matrix: matrix_of(camera.projection_spec().times(camera.view_spec())),
            },
        ],
    }
}

/// The complete, ordered command list of one frame.
pub open spec fn frame_commands(
    program: ShaderProgram,
    buffer: GeometryBuffer,
    camera: Camera,
) -> Seq<GlCommand> {
    seq![
        clear_command(),
        GlCommand::ClearColorBuffer,
        GlCommand::BindArrayBuffer { buffer: buffer.handle },
        GlCommand::UseProgram { program: program.program },
        GlCommand::VertexAttribPointer {
            slot: program.vertex_position,
            components: buffer.component_stride,
        },
        GlCommand::EnableVertexAttribArray { slot: program.vertex_position },
    ] + uniform_commands(program, camera) + seq![
        GlCommand::DrawArrays {
            topology: Topology::TriangleStrip,
            first: 0,
            count: buffer.vertex_count,
        },
    ]
}

/// Renders one frame: computes the camera's matrices and returns the
/// exact command list of `frame_commands`, in order. Pure apart from
/// the returned list; the backend performs the commands.
pub fn render_frame(program: &ShaderProgram, buffer: &GeometryBuffer, camera: &Camera) -> (cmds:
    Vec<GlCommand>)
    requires
        camera.wf(),
    ensures
        cmds@ == frame_commands(*program, *buffer, *camera),
{
    let mut cmds: Vec<GlCommand> = Vec::new();
    cmds.push(GlCommand::ClearColor {
        red: Rat { num: 0, den: 1 },
        green: Rat { num: 0, den: 1 },
        blue: Rat { num: 0, den: 1 },
        alpha: Rat { num: 1, den: 1 },
    });
    cmds.push(GlCommand::ClearColorBuffer);
    cmds.push(GlCommand::BindArrayBuffer { buffer: buffer.handle });
    cmds.push(GlCommand::UseProgram { program: program.program });
    cmds.push(GlCommand::VertexAttribPointer {
        slot: program.vertex_position,
        components: buffer.component_stride,
    });
    cmds.push(GlCommand::EnableVertexAttribArray { slot: program.vertex_position });
    match program.uniforms {
        UniformSet::Separate { model_view, projection, colour } => {
            let vm = camera.view();
            let pm = camera.projection();
            cmds.push(GlCommand::UniformMatrix { location: model_view, matrix: vm });
            cmds.push(GlCommand::UniformMatrix { location: projection, matrix: pm });
            cmds.push(GlCommand::UniformVec4 {
                location: colour,
                x: Rat { num: 0, den: 1 },
                y: Rat { num: 1, den: 1 },
                z: Rat { num: 3, den: 5 },
                w: Rat { num: 1, den: 1 },
            });
            proof {
                crate::matrix::lemma_matrix_of_view(vm, camera.view_spec());
                crate::matrix::lemma_matrix_of_view(pm, camera.projection_spec());
            }
        },
        UniformSet::Combined { model_view_projection } => {
            let mvp = camera.model_view_projection();
            cmds.push(GlCommand::UniformMatrix { location: model_view_projection, matrix: mvp });
            proof {
                crate::matrix::lemma_matrix_of_view(
                    mvp,
                    camera.projection_spec().times(camera.view_spec()),
                );
            }
        },
    }
    cmds.push(GlCommand::DrawArrays {
        topology: Topology::TriangleStrip,
        first: 0,
        count: buffer.vertex_count,
    });
    proof {
        assert(cmds@ =~= frame_commands(*program, *buffer, *camera));
    }
    cmds
}

/// The frame issues exactly one draw call, as its last command: a
/// triangle strip over the buffer's whole vertex count, from the
/// first vertex.
pub proof fn lemma_frame_single_draw(
    program: ShaderProgram,
    buffer: GeometryBuffer,
    camera: Camera,
)
    ensures
        ({
            let cmds = frame_commands(program, buffer, camera);
            &&& cmds.len() > 0
            &&& cmds.last() == (GlCommand::DrawArrays {
                topology: Topology::TriangleStrip,
                first: 0,
                count: buffer.vertex_count,
            })
            &&& forall|i: int|
                0 <= i < cmds.len() - 1 ==> !(#[trigger] cmds[i] is DrawArrays)
        }),
{
    let cmds = frame_commands(program, buffer, camera);
    match program.uniforms {
        UniformSet::Separate { model_view, projection, colour } => {
            assert(cmds.len() == 10);
            assert forall|i: int| 0 <= i < cmds.len() - 1 implies !(#[trigger] cmds[i]
                is DrawArrays) by {
                assert(cmds[0] is ClearColor);
                assert(cmds[1] is ClearColorBuffer);
                assert(cmds[2] is BindArrayBuffer);
                assert(cmds[3] is UseProgram);
                assert(cmds[4] is VertexAttribPointer);
                assert(cmds[5] is EnableVertexAttribArray);
                assert(cmds[6] is UniformMatrix);
                assert(cmds[7] is UniformMatrix);
                assert(cmds[8] is UniformVec4);
            }
        },
        UniformSet::Combined { model_view_projection } => {
            assert(cmds.len() == 8);
            assert forall|i: int| 0 <= i < cmds.len() - 1 implies !(#[trigger] cmds[i]
                is DrawArrays) by {
                assert(cmds[0] is ClearColor);
                assert(cmds[1] is ClearColorBuffer);
                assert(cmds[2] is BindArrayBuffer);
                assert(cmds[3] is UseProgram);
                assert(cmds[4] is VertexAttribPointer);
                assert(cmds[5] is EnableVertexAttribArray);
                assert(cmds[6] is UniformMatrix);
            }
        },
    }
}

/// Binding order: the buffer and the program are both bound before
/// the position attribute's pointer is configured and enabled, and
/// the attribute is configured before the draw; the clear comes
/// first.
pub proof fn lemma_frame_binding_order(
    program: ShaderProgram,
    buffer: GeometryBuffer,
    camera: Camera,
)
    ensures
        ({
            let cmds = frame_commands(program, buffer, camera);
            &&& cmds[0] == clear_command()
            &&& cmds[1] == GlCommand::ClearColorBuffer
            &&& cmds[2] == (GlCommand::BindArrayBuffer { buffer: buffer.handle })
            &&& cmds[3] == (GlCommand::UseProgram { program: program.program })
            &&& cmds[4] == (GlCommand::VertexAttribPointer {
                slot: program.vertex_position,
                components: buffer.component_stride,
            })
            &&& cmds[5] == (GlCommand::EnableVertexAttribArray {
                slot: program.vertex_position,
            })
        }),
{
}

} // verus!
