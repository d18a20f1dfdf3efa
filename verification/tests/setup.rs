use quad_render::camera::Camera;
use quad_render::geometry::{quad_vertices, GeometryBuffer, UsageHint};
use quad_render::pipeline::{render_frame, GlCommand, Topology};
use quad_render::rational::Rat;
use quad_render::shader::{
    resolve_attribute, resolve_uniform, BuildPhase, GfxError, GlResource, NameKind, Semantic,
    ShaderBuild, ShaderProgram, Stage, UniformSet,
};

const VERTEX_SOURCE: &str = "
    attribute vec4 a_vertex_position;
    uniform mat4 u_model_view_matrix;
    uniform mat4 u_projection_matrix;
    void main() {
        gl_Position = u_projection_matrix * u_model_view_matrix * a_vertex_position;
    }
";

const FRAGMENT_SOURCE: &str = "
    precision mediump float;
    uniform vec4 u_colour;
    void main() {
        gl_FragColor = u_colour;
    }
";

/// A fragment stage with a syntax error: an unclosed block.
const BROKEN_FRAGMENT_SOURCE: &str = "
    precision mediump float;
    uniform vec4 u_colour;
    void main() {
        gl_FragColor = u_colour;
";

/// A stand-in for the backend's compiler: accepts a stage whose
/// braces balance, and reports a diagnostic otherwise.
fn fake_compile(source: &str) -> (bool, Option<String>) {
    let opens = source.matches('{').count();
    let closes = source.matches('}').count();
    if opens == closes {
        (true, None)
    } else {
        (false, Some("ERROR: 0:6: syntax error, unexpected end of source".to_string()))
    }
}

/// A stand-in for the backend's location lookup: a name resolves when
/// either stage's source declares its identifier.
fn fake_lookup(identifier: &str, handle: u32) -> Option<u32> {
    let declared = VERTEX_SOURCE.contains(identifier) || FRAGMENT_SOURCE.contains(identifier);
    if declared {
        Some(handle)
    } else {
        None
    }
}

#[test]
fn semantic_names_and_identifiers() {
    assert_eq!(Semantic::VertexPosition.name(), "vertex_position");
    assert_eq!(Semantic::VertexPosition.source_identifier(), "a_vertex_position");
    assert_eq!(Semantic::Colour.name(), "colour");
    assert_eq!(Semantic::Colour.source_identifier(), "u_colour");
    assert_eq!(Semantic::ModelViewMatrix.source_identifier(), "u_model_view_matrix");
    assert_eq!(Semantic::ProjectionMatrix.source_identifier(), "u_projection_matrix");
    assert_eq!(
        Semantic::ModelViewProjectionMatrix.source_identifier(),
        "u_model_view_projection_matrix"
    );
}

#[test]
fn declared_semantics_resolve_and_missing_ones_do_not() {
    // the vertex source declares a_vertex_position, the fragment
    // source declares u_colour: both semantics resolve
    let slot = fake_lookup(&Semantic::VertexPosition.source_identifier(), 0);
    assert_eq!(resolve_attribute(Semantic::VertexPosition, slot), Ok(0));
    let handle = fake_lookup(&Semantic::Colour.source_identifier(), 3);
    assert_eq!(resolve_uniform(Semantic::Colour, handle), Ok(3));
    // a semantic with no matching declaration is a lookup error
    let missing = fake_lookup(&Semantic::ModelViewProjectionMatrix.source_identifier(), 9);
    let err = resolve_uniform(Semantic::ModelViewProjectionMatrix, missing).unwrap_err();
    match err {
        GfxError::Lookup { kind, name } => {
            assert_eq!(kind, NameKind::Uniform);
            assert_eq!(name, "model_view_projection_matrix");
        },
        other => panic!("expected a lookup error, got {:?}", other),
    }
}

#[test]
fn build_resolves_the_separate_uniform_set() {
    let build = ShaderBuild::begin();
    assert_eq!(build.phase, BuildPhase::CompileVertex);
    let (ok, log) = fake_compile(VERTEX_SOURCE);
    let build = build.on_compile(true, ok, log).unwrap();
    assert_eq!(build.phase, BuildPhase::CompileFragment);
    let (ok, log) = fake_compile(FRAGMENT_SOURCE);
    let build = build.on_compile(true, ok, log).unwrap();
    assert_eq!(build.phase, BuildPhase::Link);
    let build = build.on_link(true, true, None).unwrap();
    assert_eq!(build.phase, BuildPhase::Resolve);
    let program = build
        .finish(
            7,
            fake_lookup("a_vertex_position", 0),
            fake_lookup("u_model_view_matrix", 1),
            fake_lookup("u_projection_matrix", 2),
            fake_lookup("u_colour", 3),
            fake_lookup("u_model_view_projection_matrix", 4),
        )
        .unwrap();
    assert_eq!(program.program, 7);
    assert_eq!(program.vertex_position, 0);
    assert_eq!(
        program.uniforms,
        UniformSet::Separate { model_view: 1, projection: 2, colour: 3 }
    );
}

#[test]
fn build_falls_back_to_the_combined_uniform() {
    let build = ShaderBuild::begin();
    let build = build.on_compile(true, true, None).unwrap();
    let build = build.on_compile(true, true, None).unwrap();
    let build = build.on_link(true, true, None).unwrap();
    let program = build.finish(2, Some(5), None, None, None, Some(8)).unwrap();
    assert_eq!(program.uniforms, UniformSet::Combined { model_view_projection: 8 });
}

#[test]
fn build_reports_the_first_missing_uniform() {
    let build = ShaderBuild::begin();
    let build = build.on_compile(true, true, None).unwrap();
    let build = build.on_compile(true, true, None).unwrap();
    let build = build.on_link(true, true, None).unwrap();
    // the separate set lacks its projection matrix and no combined
    // uniform exists: neither expected set resolves
    let err = build.finish(2, Some(5), Some(1), None, Some(3), None).unwrap_err();
    assert_eq!(
        err,
        GfxError::Lookup { kind: NameKind::Uniform, name: "projection_matrix".to_string() }
    );
}

#[test]
fn build_requires_the_position_attribute() {
    let build = ShaderBuild::begin();
    let build = build.on_compile(true, true, None).unwrap();
    let build = build.on_compile(true, true, None).unwrap();
    let build = build.on_link(true, true, None).unwrap();
    let err = build.finish(2, None, Some(1), Some(2), Some(3), None).unwrap_err();
    assert_eq!(
        err,
        GfxError::Lookup { kind: NameKind::Attribute, name: "vertex_position".to_string() }
    );
}

#[test]
fn broken_fragment_source_fails_before_link() {
    let build = ShaderBuild::begin();
    let (ok, log) = fake_compile(VERTEX_SOURCE);
    assert!(ok);
    let build = build.on_compile(true, ok, log).unwrap();
    // the machine now expects the fragment outcome; a compile error
    // here consumes it, so no link outcome can ever be reported
    assert_eq!(build.phase, BuildPhase::CompileFragment);
    let (ok, log) = fake_compile(BROKEN_FRAGMENT_SOURCE);
    assert!(!ok);
    let err = build.on_compile(true, ok, log.clone()).unwrap_err();
    match err {
        GfxError::Compile { stage, log: diagnostic } => {
            assert_eq!(stage, Stage::Fragment);
            assert!(!diagnostic.is_empty());
            assert_eq!(Some(diagnostic), log);
        },
        other => panic!("expected a compile error, got {:?}", other),
    }
}

#[test]
fn compile_without_a_log_gets_the_fallback_text() {
    let build = ShaderBuild::begin();
    let err = build.on_compile(true, false, None).unwrap_err();
    assert_eq!(
        err,
        GfxError::Compile { stage: Stage::Vertex, log: "Unknown error creating shader".to_string() }
    );
}

#[test]
fn refused_handles_are_alloc_errors() {
    let build = ShaderBuild::begin();
    let err = build.on_compile(false, false, None).unwrap_err();
    assert_eq!(err, GfxError::Alloc { resource: GlResource::VertexShader });

    let build = ShaderBuild::begin();
    let build = build.on_compile(true, true, None).unwrap();
    let err = build.on_compile(false, false, None).unwrap_err();
    assert_eq!(err, GfxError::Alloc { resource: GlResource::FragmentShader });

    let build = ShaderBuild::begin();
    let build = build.on_compile(true, true, None).unwrap();
    let build = build.on_compile(true, true, None).unwrap();
    let err = build.on_link(false, false, None).unwrap_err();
    assert_eq!(err, GfxError::Alloc { resource: GlResource::Program });

    let vertices = quad_vertices();
    let err = GeometryBuffer::upload(None, &vertices, UsageHint::StaticDraw).unwrap_err();
    assert_eq!(err, GfxError::Alloc { resource: GlResource::Buffer });
}

#[test]
fn failed_link_carries_the_diagnostic() {
    let build = ShaderBuild::begin();
    let build = build.on_compile(true, true, None).unwrap();
    let build = build.on_compile(true, true, None).unwrap();
    let err = build.on_link(true, false, Some("varying mismatch".to_string())).unwrap_err();
    assert_eq!(err, GfxError::Link { log: "varying mismatch".to_string() });
}

#[test]
fn quad_uploads_as_four_vertices() {
    let vertices = quad_vertices();
    assert_eq!(vertices.len(), 12);
    // the four corners, three components each, in strip order
    assert_eq!(vertices[0], Rat::new(-1, 2));
    assert_eq!(vertices[1], Rat::new(1, 2));
    assert_eq!(vertices[2], Rat::new(0, 1));
    assert_eq!(vertices[9], Rat::new(1, 2));
    assert_eq!(vertices[10], Rat::new(-1, 2));
    assert_eq!(vertices[11], Rat::new(0, 1));
    let buffer = GeometryBuffer::upload(Some(5), &vertices, UsageHint::StaticDraw).unwrap();
    assert_eq!(buffer.handle, 5);
    assert_eq!(buffer.vertex_count, 4);
    assert_eq!(buffer.component_stride, 3);
}

#[test]
fn frame_issues_one_strip_draw_after_binding() {
    let program = ShaderProgram {
        program: 7,
        vertex_position: 0,
        uniforms: UniformSet::Separate { model_view: 1, projection: 2, colour: 3 },
    };
    let vertices = quad_vertices();
    let buffer = GeometryBuffer::upload(Some(5), &vertices, UsageHint::StaticDraw).unwrap();
    let camera = Camera::new();
    let commands = render_frame(&program, &buffer, &camera);
    assert_eq!(commands.len(), 10);
    // exactly one draw call, and it comes last
    let draws = commands
        .iter()
        .filter(|c| matches!(c, GlCommand::DrawArrays { .. }))
        .count();
    assert_eq!(draws, 1);
    assert_eq!(
        commands[9],
        GlCommand::DrawArrays { topology: Topology::TriangleStrip, first: 0, count: 4 }
    );
    // clear first, then bind buffer and program before the attribute
    assert!(matches!(commands[0], GlCommand::ClearColor { .. }));
    assert_eq!(commands[1], GlCommand::ClearColorBuffer);
    assert_eq!(commands[2], GlCommand::BindArrayBuffer { buffer: 5 });
    assert_eq!(commands[3], GlCommand::UseProgram { program: 7 });
    assert_eq!(commands[4], GlCommand::VertexAttribPointer { slot: 0, components: 3 });
    assert_eq!(commands[5], GlCommand::EnableVertexAttribArray { slot: 0 });
    // both matrices and the solid colour are pushed
    assert_eq!(
        commands[6],
        GlCommand::UniformMatrix { location: 1, matrix: camera.view() }
    );
    assert_eq!(
        commands[7],
        GlCommand::UniformMatrix { location: 2, matrix: camera.projection() }
    );
    assert_eq!(
        commands[8],
        GlCommand::UniformVec4 {
            location: 3,
            x: Rat::new(0, 1),
            y: Rat::new(1, 1),
            z: Rat::new(3, 5),
            w: Rat::new(1, 1),
        }
    );
}

#[test]
fn combined_frame_uploads_the_product_matrix() {
    let program = ShaderProgram {
        program: 7,
        vertex_position: 0,
        uniforms: UniformSet::Combined { model_view_projection: 4 },
    };
    let vertices = quad_vertices();
    let buffer = GeometryBuffer::upload(Some(5), &vertices, UsageHint::StaticDraw).unwrap();
    let camera = Camera::new();
    let commands = render_frame(&program, &buffer, &camera);
    assert_eq!(commands.len(), 8);
    assert_eq!(
        commands[6],
        GlCommand::UniformMatrix { location: 4, matrix: camera.model_view_projection() }
    );
    assert_eq!(
        commands[7],
        GlCommand::DrawArrays { topology: Topology::TriangleStrip, first: 0, count: 4 }
    );
}
