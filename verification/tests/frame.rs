//! Frame-level behaviour: viewport configuration, drawing, the one-shot
//! rectangle frame, and the context registry hand-off.

use gl_harness::gles::{Capability, GlCall, Gles};
use gl_harness::render_gl::Error;
use gl_harness::support::{load, Gl, GlContext};

const VS: &[u8] = b"attribute vec2 position; void main() { gl_Position = vec4(position, 0, 1); }";
const FS: &[u8] =
    b"precision mediump float; uniform vec4 uColor; void main() { gl_FragColor = uColor; }";

fn context(capacity: u32, with_arrays: bool) -> Gl {
    let entries = vec![1u64, 2, 3];
    let vao = if with_arrays { 7 } else { 0 };
    let table = Gles::load_with(&entries, vao, capacity, String::from("mock driver 1.0")).unwrap();
    Gl::new(table)
}

fn creates(log: &[GlCall]) -> usize {
    log.iter()
        .filter(|c| {
            matches!(c, GlCall::CreateShader { handle } if *handle != 0)
                || matches!(c, GlCall::CreateProgram { handle } if *handle != 0)
        })
        .count()
}

#[test]
fn load_with_fails_on_unresolved_entry_point() {
    let entries = vec![1u64, 0, 3];
    assert!(Gles::load_with(&entries, 0, 4, String::from("mock")).is_none());
}

#[test]
fn load_with_probes_vertex_array_capability() {
    let entries = vec![1u64];
    let with = Gles::load_with(&entries, 9, 4, String::from("mock")).unwrap();
    assert_eq!(with.capability(), Capability::VertexArrays);
    let without = Gles::load_with(&entries, 0, 4, String::from("mock")).unwrap();
    assert_eq!(without.capability(), Capability::NoVertexArrays);
    assert_eq!(with.version_string(), "mock");
}

#[test]
fn viewport_issues_exactly_two_configurations_each_with_clear() {
    let mut gl = context(16, true);
    gl.viewport(800, 600);
    gl.viewport(400, 300);
    let log = gl.table().call_log();
    assert_eq!(
        log.as_slice(),
        &[
            GlCall::Viewport { width: 800, height: 600 },
            GlCall::Clear,
            GlCall::Viewport { width: 400, height: 300 },
            GlCall::Clear,
        ]
    );
}

#[test]
fn draw_frame_clears_then_draws_three_vertices() {
    let mut gl = context(16, false);
    gl.draw_frame();
    let log = gl.table().call_log();
    assert_eq!(
        log.as_slice(),
        &[GlCall::Clear, GlCall::DrawArrays { first: 0, count: 3 }]
    );
}

#[test]
fn build_then_use_then_draw_allocates_nothing() {
    let mut gl = context(16, true);
    let prog = gl.build_renderable(&VS.to_vec(), &FS.to_vec()).unwrap();
    assert!(prog.id() != 0);
    let creates_after_build = creates(gl.table().call_log());
    gl.use_renderable(&prog);
    gl.draw(&prog).unwrap();
    // A second draw reuses the uploaded vertex buffer and the array.
    gl.draw(&prog).unwrap();
    assert_eq!(creates(gl.table().call_log()), creates_after_build);
}

#[test]
fn first_draw_uploads_buffer_second_draw_reuses_it() {
    let mut gl = context(16, false);
    let prog = gl.build_renderable(&VS.to_vec(), &FS.to_vec()).unwrap();
    gl.use_renderable(&prog);
    gl.draw(&prog).unwrap();
    let uploads = |log: &[GlCall]| {
        log.iter()
            .filter(|c| matches!(c, GlCall::GenBuffer { .. } | GlCall::BufferData { .. }))
            .count()
    };
    let after_first = uploads(gl.table().call_log());
    assert_eq!(after_first, 2);
    gl.draw(&prog).unwrap();
    assert_eq!(uploads(gl.table().call_log()), after_first);
}

#[test]
fn draw_without_capability_skips_vertex_arrays() {
    let mut gl = context(16, false);
    let prog = gl.build_renderable(&VS.to_vec(), &FS.to_vec()).unwrap();
    gl.use_renderable(&prog);
    gl.draw(&prog).unwrap();
    assert!(gl
        .table()
        .call_log()
        .iter()
        .all(|c| !matches!(c, GlCall::GenVertexArray { .. } | GlCall::BindVertexArray { .. })));
}

#[test]
fn draw_with_capability_creates_vertex_array_once() {
    let mut gl = context(16, true);
    let prog = gl.build_renderable(&VS.to_vec(), &FS.to_vec()).unwrap();
    gl.use_renderable(&prog);
    gl.draw(&prog).unwrap();
    gl.draw(&prog).unwrap();
    let gens = gl
        .table()
        .call_log()
        .iter()
        .filter(|c| matches!(c, GlCall::GenVertexArray { .. }))
        .count();
    assert_eq!(gens, 1);
}

#[test]
fn draw_reports_unresolved_uniform() {
    let mut gl = context(16, true);
    // The fragment source names no `uColor`.
    let fs = b"void main() { gl_FragColor = vec4(1, 0, 0, 1); }".to_vec();
    let prog = gl.build_renderable(&VS.to_vec(), &fs).unwrap();
    gl.use_renderable(&prog);
    match gl.draw(&prog).unwrap_err() {
        Error::UnresolvedBinding { name } => assert_eq!(name, "uColor"),
        other => panic!("unexpected error: {:?}", other),
    }
}

#[test]
fn build_renderable_reports_vertex_compile_failure() {
    let mut gl = context(16, true);
    let bad = b"void main() {".to_vec();
    match gl.build_renderable(&bad, &FS.to_vec()).unwrap_err() {
        Error::CompileError { name, message } => {
            assert_eq!(name, "vertex");
            assert!(!message.is_empty());
        }
        other => panic!("unexpected error: {:?}", other),
    }
    assert_eq!(gl.table().live_shader_total(), 0);
}

#[test]
fn build_renderable_reports_fragment_compile_failure_and_releases_vertex() {
    let mut gl = context(16, true);
    let bad = b"} broken".to_vec();
    match gl.build_renderable(&VS.to_vec(), &bad).unwrap_err() {
        Error::CompileError { name, message } => {
            assert_eq!(name, "fragment");
            assert!(!message.is_empty());
        }
        other => panic!("unexpected error: {:?}", other),
    }
    assert_eq!(gl.table().live_shader_total(), 0);
}

#[test]
fn rect_draws_and_leaves_no_objects_behind() {
    let mut gl = context(16, true);
    gl.rect().unwrap();
    assert_eq!(gl.table().live_shader_total(), 0);
    assert_eq!(gl.table().live_program_total(), 0);
    assert!(gl
        .table()
        .call_log()
        .iter()
        .any(|c| matches!(c, GlCall::DrawArrays { first: 0, count: 12 })));
    // A second frame works just as well.
    gl.rect().unwrap();
    assert_eq!(gl.table().live_shader_total(), 0);
    assert_eq!(gl.table().live_program_total(), 0);
}

#[test]
fn rect_fails_fast_when_out_of_handles() {
    let mut gl = context(1, false);
    match gl.rect().unwrap_err() {
        Error::AllocationError => {}
        other => panic!("unexpected error: {:?}", other),
    }
    assert_eq!(gl.table().live_shader_total(), 0);
    assert_eq!(gl.table().live_program_total(), 0);
}

#[test]
fn registry_hand_off_round_trip() {
    let mut registry = GlContext::new();
    assert!(!registry.has_context());
    let entries = vec![1u64, 2];
    let ok = load(&mut registry, &entries, 3, 8, String::from("mock driver 1.0"));
    assert!(ok);
    assert!(registry.has_context());

    let mut gl = registry.take_context();
    assert!(!registry.has_context());
    gl.viewport(800, 600);
    let frames_before = gl.table().call_log().len();

    registry.give_back_context(gl);
    assert!(registry.has_context());
    let gl_again = registry.take_context();
    assert!(!registry.has_context());
    // The context comes back in the same observable state.
    assert_eq!(gl_again.table().call_log().len(), frames_before);
    assert_eq!(gl_again.table().version_string(), "mock driver 1.0");
    registry.give_back_context(gl_again);
}

#[test]
fn load_leaves_registry_empty_on_unresolved_entry() {
    let mut registry = GlContext::new();
    let entries = vec![0u64];
    let ok = load(&mut registry, &entries, 0, 8, String::from("mock"));
    assert!(!ok);
    assert!(!registry.has_context());
}

#[test]
fn rect_issues_the_expected_call_sequence() {
    let mut gl = context(16, true);
    gl.rect().unwrap();
    // `position` first occurs at byte 15 of the linked source and
    // `uColor` at byte 114; the modelled driver reports first
    // occurrences as locations.
    let expected = vec![
        GlCall::CreateShader { handle: 1 },
        GlCall::ShaderSource { shader: 1 },
        GlCall::CompileShader { shader: 1 },
        GlCall::CreateShader { handle: 2 },
        GlCall::ShaderSource { shader: 2 },
        GlCall::CompileShader { shader: 2 },
        GlCall::CreateProgram { handle: 1 },
        GlCall::AttachShader { program: 1, shader: 1 },
        GlCall::AttachShader { program: 1, shader: 2 },
        GlCall::LinkProgram { program: 1 },
        GlCall::DetachShader { program: 1, shader: 1 },
        GlCall::DetachShader { program: 1, shader: 2 },
        GlCall::DeleteShader { shader: 1 },
        GlCall::DeleteShader { shader: 2 },
        GlCall::UseProgram { program: 1 },
        GlCall::GenBuffer { handle: 1 },
        GlCall::BindBuffer { buffer: 1 },
        GlCall::BufferData { len: 48 },
        GlCall::GenVertexArray { handle: 1 },
        GlCall::BindVertexArray { array: 1 },
        GlCall::Uniform4 { location: 114 },
        GlCall::EnableVertexAttribArray { location: 15 },
        GlCall::VertexAttribPointer { location: 15 },
        GlCall::DrawArrays { first: 0, count: 12 },
        GlCall::DeleteProgram { program: 1 },
    ];
    assert_eq!(gl.table().call_log().as_slice(), expected.as_slice());
}
