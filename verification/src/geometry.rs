//! Static vertex data and its one-shot upload.

use vstd::prelude::*;

use crate::rational::Rat;
use crate::shader::{GfxError, GlResource};

verus! {

/// How the buffer will be used. The only mode in scope is static,
/// never-updated geometry.
#[derive(Clone, Copy, Debug, PartialEq, Eq, Structural)]
pub enum UsageHint {
    StaticDraw,
}

/// GPU-resident vertex data: the handle the backend allocated, how
/// many vertices stand behind it, and the per-vertex component
/// count. Write-once: created by `upload`, never mutated.
#[derive(Clone, Copy, Debug, PartialEq, Eq, Structural)]
pub struct GeometryBuffer {
    pub handle: u32,
    pub vertex_count: u32,
    pub component_stride: u32,
}

impl GeometryBuffer {
    /// Position-only vertices: three components each.
    pub open spec fn wf(self) -> bool {
        self.component_stride == 3
    }

    /// One-shot upload of an immutable vertex list, three components
    /// per vertex. `handle` is the buffer handle the backend
    /// allocated, or `None` when it refused one, which is the one
    /// failure this step has.
    pub fn upload(handle: Option<u32>, vertices: &Vec<Rat>, usage: UsageHint) -> (r: Result<
        GeometryBuffer,
        GfxError,
    >)
        requires
            vertices@.len() % 3 == 0,
            vertices@.len() / 3 <= u32::MAX,
        ensures
            match r {
                Ok(b) => handle == Some(b.handle) && b.vertex_count == vertices@.len() / 3
                    && b.wf(),
                Err(e) => handle is None && (match e {
                    GfxError::Alloc { resource } => resource == GlResource::Buffer,
                    _ => false,
                }),
            },
    {
        match handle {
            None => Err(GfxError::Alloc { resource: GlResource::Buffer }),
            Some(h) => {
                let count: usize = vertices.len() / 3;
                Ok(GeometryBuffer { handle: h, vertex_count: count as u32, component_stride: 3 })
            },
        }
    }
}

/// The four corners of the quad, half a unit from the centre on each
/// axis and in the plane of the first two, in triangle-strip order:
/// upper left, upper right, lower left, lower right.
pub fn quad_vertices() -> (v: Vec<Rat>)
    ensures
        v@ =~= seq![
            Rat { num: -1i128, den: 2 }, Rat { num: 1, den: 2 }, Rat { num: 0, den: 1 },
            Rat { num: 1, den: 2 }, Rat { num: 1, den: 2 }, Rat { num: 0, den: 1 },
            Rat { num: -1i128, den: 2 }, Rat { num: -1i128, den: 2 }, Rat { num: 0, den: 1 },
            Rat { num: 1, den: 2 }, Rat { num: -1i128, den: 2 }, Rat { num: 0, den: 1 },
        ],
        v@.len() == 12,
{
    let mut v: Vec<Rat> = Vec::new();
    v.push(Rat { num: -1, den: 2 });
    v.push(Rat { num: 1, den: 2 });
    v.push(Rat { num: 0, den: 1 });
    v.push(Rat { num: 1, den: 2 });
    v.push(Rat { num: 1, den: 2 });
    v.push(Rat { num: 0, den: 1 });
    v.push(Rat { num: -1, den: 2 });
    v.push(Rat { num: -1, den: 2 });
    v.push(Rat { num: 0, den: 1 });
    v.push(Rat { num: 1, den: 2 });
    v.push(Rat { num: -1, den: 2 });
    v.push(Rat { num: 0, den: 1 });
    v
}

} // verus!
