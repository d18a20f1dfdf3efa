//! Shader program construction.
//!
//! The backend compiles, links and looks names up; this module makes
//! every decision in between. `ShaderBuild` is a small state machine:
//! the caller performs one backend operation per phase and reports its
//! outcome, and the machine either advances or ends the build with the
//! exact error the outcome dictates. A failed stage compile ends the
//! build at once, so a build that saw a compile error can never reach
//! the link phase.
//!
//! Locations are resolved by semantic name, a spelling of the
//! pipeline's own, distinct from the identifier that declares the name
//! in shader source; the closed set of semantics is `Semantic`.

use vstd::prelude::*;

verus! {

/// The two programmable stages.
#[derive(Clone, Copy, Debug, PartialEq, Eq, Structural)]
pub enum Stage {
    Vertex,
    Fragment,
}

/// Which kind of name failed to resolve.
#[derive(Clone, Copy, Debug, PartialEq, Eq, Structural)]
pub enum NameKind {
    Attribute,
    Uniform,
}

/// A backend resource whose creation can be refused.
#[derive(Clone, Copy, Debug, PartialEq, Eq, Structural)]
pub enum GlResource {
    VertexShader,
    FragmentShader,
    Program,
    Buffer,
}

/// Errors of the setup phase. Every one is fatal to the construction
/// that raised it; nothing is retried or ignored.
#[derive(Clone, Debug, PartialEq, Eq)]
pub enum GfxError {
    /// The backend refused to allocate a handle.
    Alloc { resource: GlResource },
    /// A stage rejected its source; the log is the compiler's
    /// diagnostic, passed through unmodified.
    Compile { stage: Stage, log: String },
    /// The compiled stages did not link into a program.
    Link { log: String },
    /// A semantic name has no matching declaration in the linked
    /// program.
    Lookup { kind: NameKind, name: String },
}

/// The closed set of semantic names the pipeline speaks of.
#[derive(Clone, Copy, Debug, PartialEq, Eq, Structural)]
pub enum Semantic {
    VertexPosition,
    Colour,
    ModelViewMatrix,
    ProjectionMatrix,
    ModelViewProjectionMatrix,
}

impl Semantic {
    /// The semantic name as the pipeline spells it.
    pub open spec fn name_spec(self) -> Seq<char> {
        match self {
            Semantic::VertexPosition => "vertex_position"@,
            Semantic::Colour => "colour"@,
            Semantic::ModelViewMatrix => "model_view_matrix"@,
            Semantic::ProjectionMatrix => "projection_matrix"@,
            Semantic::ModelViewProjectionMatrix => "model_view_projection_matrix"@,
        }
    }

    pub fn name(&self) -> (r: String)
        ensures
            r@ == self.name_spec(),
    {
        match self {
            Semantic::VertexPosition => "vertex_position".to_owned(),
            Semantic::Colour => "colour".to_owned(),
            Semantic::ModelViewMatrix => "model_view_matrix".to_owned(),
            Semantic::ProjectionMatrix => "projection_matrix".to_owned(),
            Semantic::ModelViewProjectionMatrix => "model_view_projection_matrix".to_owned(),
        }
    }

    /// The identifier that declares this name in shader source.
    pub open spec fn source_identifier_spec(self) -> Seq<char> {
        match self {
            Semantic::VertexPosition => "a_vertex_position"@,
            Semantic::Colour => "u_colour"@,
            Semantic::ModelViewMatrix => "u_model_view_matrix"@,
            Semantic::ProjectionMatrix => "u_projection_matrix"@,
            Semantic::ModelViewProjectionMatrix => "u_model_view_projection_matrix"@,
        }
    }

    pub fn source_identifier(&self) -> (r: String)
        ensures
            r@ == self.source_identifier_spec(),
    {
        match self {
            Semantic::VertexPosition => "a_vertex_position".to_owned(),
            Semantic::Colour => "u_colour".to_owned(),
            Semantic::ModelViewMatrix => "u_model_view_matrix".to_owned(),
            Semantic::ProjectionMatrix => "u_projection_matrix".to_owned(),
            Semantic::ModelViewProjectionMatrix => "u_model_view_projection_matrix".to_owned(),
        }
    }
}

/// Which uniforms the linked program exposes. Two configurations
/// exist: separate model-view and projection matrices plus a solid
/// colour, or one combined model-view-projection matrix with the
/// fragment colour hardcoded in the source.
#[derive(Clone, Copy, Debug, PartialEq, Eq, Structural)]
pub enum UniformSet {
    Separate { model_view: u32, projection: u32, colour: u32 },
    Combined { model_view_projection: u32 },
}

/// A linked program with its locations resolved once, at build time:
/// the attribute slot of the vertex position and the uniform handles
/// of whichever uniform configuration the program exposes.
#[derive(Clone, Copy, Debug, PartialEq, Eq, Structural)]
pub struct ShaderProgram {
    pub program: u32,
    pub vertex_position: u32,
    pub uniforms: UniformSet,
}

/// Turns the backend's answer for an attribute lookup into the slot,
/// or into the `Lookup` error carrying the semantic name. A missing
/// name aborts program construction; it is never tolerated silently.
pub fn resolve_attribute(semantic: Semantic, slot: Option<u32>) -> (r: Result<u32, GfxError>)
    ensures
        match r {
            Ok(s) => slot == Some(s),
            Err(e) => slot is None && (match e {
                GfxError::Lookup { kind, name } => kind == NameKind::Attribute && name@
                    == semantic.name_spec(),
                _ => false,
            }),
        },
{
    match slot {
        Some(s) => Ok(s),
        None => Err(GfxError::Lookup { kind: NameKind::Attribute, name: semantic.name() }),
    }
}

/// The same decision for a uniform handle.
pub fn resolve_uniform(semantic: Semantic, handle: Option<u32>) -> (r: Result<u32, GfxError>)
    ensures
        match r {
            Ok(h) => handle == Some(h),
            Err(e) => handle is None && (match e {
                GfxError::Lookup { kind, name } => kind == NameKind::Uniform && name@
                    == semantic.name_spec(),
                _ => false,
            }),
        },
{
    match handle {
        Some(h) => Ok(h),
        None => Err(GfxError::Lookup { kind: NameKind::Uniform, name: semantic.name() }),
    }
}

/// Where a build stands: which backend operation it expects an
/// outcome for next.
#[derive(Clone, Copy, Debug, PartialEq, Eq, Structural)]
pub enum BuildPhase {
    CompileVertex,
    CompileFragment,
    Link,
    Resolve,
}

/// A program build in progress. Phases run strictly in order:
/// compile the vertex stage, compile the fragment stage, link,
/// resolve locations; any reported failure ends the build with the
/// corresponding error and consumes the machine.
#[derive(Clone, Copy, Debug, PartialEq, Eq, Structural)]
pub struct ShaderBuild {
    pub phase: BuildPhase,
}

impl ShaderBuild {
    pub fn begin() -> (b: ShaderBuild)
        ensures
            b.phase == BuildPhase::CompileVertex,
    {
        ShaderBuild { phase: BuildPhase::CompileVertex }
    }

    /// The stage whose compile outcome the machine expects.
    pub open spec fn current_stage(self) -> Stage {
        if self.phase == BuildPhase::CompileVertex {
            Stage::Vertex
        } else {
            Stage::Fragment
        }
    }

    /// Report the outcome of creating and compiling the current
    /// stage's shader. `created` false means the backend refused a
    /// shader handle; `log` is the compile log, replaced by a fixed
    /// fallback text when the backend offered none.
    pub fn on_compile(self, created: bool, compiled: bool, log: Option<String>) -> (r: Result<
        ShaderBuild,
        GfxError,
    >)
        requires
            self.phase == BuildPhase::CompileVertex || self.phase == BuildPhase::CompileFragment,
        ensures
            match r {
                Ok(b) => created && compiled && b.phase == (if self.phase
                    == BuildPhase::CompileVertex {
                    BuildPhase::CompileFragment
                } else {
                    BuildPhase::Link
                }),
                Err(e) => match e {
                    GfxError::Alloc { resource } => !created && resource == (
                    if self.phase == BuildPhase::CompileVertex {
                        GlResource::VertexShader
                    } else {
                        GlResource::FragmentShader
                    }),
                    GfxError::Compile { stage, log: l } => created && !compiled && stage
                        == self.current_stage() && (match log {
                        Some(text) => l@ == text@,
                        None => l@ == "Unknown error creating shader"@,
                    }),
                    _ => false,
                },
            },
    {
        if !created {
            let resource = if self.phase == BuildPhase::CompileVertex {
                GlResource::VertexShader
            } else {
                GlResource::FragmentShader
            };
            Err(GfxError::Alloc { resource })
        } else if !compiled {
            let stage = if self.phase == BuildPhase::CompileVertex {
                Stage::Vertex
            } else {
                Stage::Fragment
            };
            let l = match log {
                Some(text) => text,
                None => "Unknown error creating shader".to_owned(),
            };
            Err(GfxError::Compile { stage, log: l })
        } else {
            let phase = if self.phase == BuildPhase::CompileVertex {
                BuildPhase::CompileFragment
            } else {
                BuildPhase::Link
            };
            Ok(ShaderBuild { phase })
        }
    }

    /// Report the outcome of creating and linking the program.
    pub fn on_link(self, created: bool, linked: bool, log: Option<String>) -> (r: Result<
        ShaderBuild,
        GfxError,
    >)
        requires
            self.phase == BuildPhase::Link,
        ensures
            match r {
                Ok(b) => created && linked && b.phase == BuildPhase::Resolve,
                Err(e) => match e {
                    GfxError::Alloc { resource } => !created && resource == GlResource::Program,
                    GfxError::Link { log: l } => created && !linked && (match log {
                        Some(text) => l@ == text@,
                        None => l@ == "Unknown error creating program object"@,
                    }),
                    _ => false,
                },
            },
    {
        if !created {
            Err(GfxError::Alloc { resource: GlResource::Program })
        } else if !linked {
            let l = match log {
                Some(text) => text,
                None => "Unknown error creating program object".to_owned(),
            };
            Err(GfxError::Link { log: l })
        } else {
            Ok(ShaderBuild { phase: BuildPhase::Resolve })
        }
    }

    /// Resolve the locations of the linked program from the backend's
    /// lookup answers and finish the build. The vertex position
    /// attribute must resolve. Of the uniforms, the separate
    /// configuration is taken when all three of its names resolve;
    /// otherwise the combined one when its name resolves; when
    /// neither full set resolves, the build fails with a `Lookup`
    /// error naming the first missing uniform of the separate set.
    pub fn finish(
        self,
        program: u32,
        vertex_position: Option<u32>,
        model_view: Option<u32>,
        projection: Option<u32>,
        colour: Option<u32>,
        model_view_projection: Option<u32>,
    ) -> (r: Result<ShaderProgram, GfxError>)
        requires
            self.phase == BuildPhase::Resolve,
        ensures
            match r {
                Ok(sp) => sp.program == program && vertex_position == Some(sp.vertex_position)
                    && (match sp.uniforms {
                    UniformSet::Separate { model_view: mv, projection: pj, colour: cl } => {
                        model_view == Some(mv) && projection == Some(pj) && colour == Some(cl)
                    },
                    UniformSet::Combined { model_view_projection: mvp } => {
                        !(model_view is Some && projection is Some && colour is Some)
                            && model_view_projection == Some(mvp)
                    },
                }),
                Err(e) => match e {
                    GfxError::Lookup { kind, name } => (kind == NameKind::Attribute
                        && vertex_position is None && name@
                        == Semantic::VertexPosition.name_spec()) || (kind == NameKind::Uniform
                        && vertex_position is Some && !(model_view is Some && projection is Some
                        && colour is Some) && model_view_projection is None && name@ == (
                    if model_view is None {
                        Semantic::ModelViewMatrix.name_spec()
                    } else if projection is None {
                        Semantic::ProjectionMatrix.name_spec()
                    } else {
                        Semantic::Colour.name_spec()
                    })),
                    _ => false,
                },
            },
    {
        let slot: u32 = match resolve_attribute(Semantic::VertexPosition, vertex_position) {
            Ok(s) => s,
            Err(e) => {
                return Err(e);
            },
        };
        if model_view.is_some() && projection.is_some() && colour.is_some() {
            let uniforms = UniformSet::Separate {
                model_view: model_view.unwrap(),
                projection: projection.unwrap(),
                colour: colour.unwrap(),
            };
            Ok(ShaderProgram { program, vertex_position: slot, uniforms })
        } else if model_view_projection.is_some() {
            let uniforms = UniformSet::Combined {
                model_view_projection: model_view_projection.unwrap(),
            };
            Ok(ShaderProgram { program, vertex_position: slot, uniforms })
        } else {
            let missing = if model_view.is_none() {
                Semantic::ModelViewMatrix
            } else if projection.is_none() {
                Semantic::ProjectionMatrix
            } else {
                Semantic::Colour
            };
            Err(GfxError::Lookup { kind: NameKind::Uniform, name: missing.name() })
        }
    }
}

} // verus!
