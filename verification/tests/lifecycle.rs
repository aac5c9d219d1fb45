//! Shader and program lifecycle behaviour, driven through the public API
//! against the modelled driver.

use gl_harness::gles::{GlCall, Gles, ShaderKind};
use gl_harness::render_gl::{Error, Program, Shader};
use gl_harness::resources::{Error as ResourcesError, Resources};
use gl_harness::support::Gl;
use gl_harness::text::{str_ends_with, str_eq};

fn table(capacity: u32) -> Gles {
    let entries = vec![1u64, 2, 3, 4];
    Gles::load_with(&entries, 5, capacity, String::from("mock driver 1.0")).unwrap()
}

fn count_shader_creates(log: &[GlCall]) -> usize {
    log.iter()
        .filter(|c| matches!(c, GlCall::CreateShader { handle } if *handle != 0))
        .count()
}

fn count_shader_deletes(log: &[GlCall]) -> usize {
    log.iter().filter(|c| matches!(c, GlCall::DeleteShader { .. })).count()
}

fn count_program_creates(log: &[GlCall]) -> usize {
    log.iter()
        .filter(|c| matches!(c, GlCall::CreateProgram { handle } if *handle != 0))
        .count()
}

fn count_program_deletes(log: &[GlCall]) -> usize {
    log.iter().filter(|c| matches!(c, GlCall::DeleteProgram { .. })).count()
}

const VS: &[u8] = b"attribute vec2 position; void main() { gl_Position = vec4(position, 0, 1); }";
const FS: &[u8] =
    b"precision mediump float; uniform vec4 uColor; void main() { gl_FragColor = uColor; }";

#[test]
fn compile_good_source_yields_nonzero_handle() {
    let mut gl = table(16);
    let sh = Shader::from_vert_source(&mut gl, &VS.to_vec()).unwrap();
    assert!(sh.id() != 0);
    assert_eq!(sh.kind(), ShaderKind::Vertex);
    assert_eq!(gl.live_shader_total(), 1);
    sh.destroy(&mut gl);
    assert_eq!(gl.live_shader_total(), 0);
}

#[test]
fn compile_unbalanced_braces_fails_with_nonempty_log() {
    let mut gl = table(16);
    let bad = b"void main() {".to_vec();
    let err = Shader::from_frag_source(&mut gl, &bad).unwrap_err();
    assert!(!err.is_empty());
    assert_eq!(err, "shader source has unbalanced braces");
    // The returned shader does not exist: nothing is left to release.
    assert_eq!(gl.live_shader_total(), 0);
}

#[test]
fn compile_empty_source_fails_with_nonempty_log() {
    let mut gl = table(16);
    let err = Shader::from_vert_source(&mut gl, &Vec::new()).unwrap_err();
    assert_eq!(err, "shader source is empty");
    assert_eq!(gl.live_shader_total(), 0);
}

#[test]
fn hundred_shaders_destroyed_leave_no_leaked_handles() {
    let mut gl = table(200);
    let mut shaders = Vec::new();
    for _ in 0..100 {
        shaders.push(Shader::from_vert_source(&mut gl, &VS.to_vec()).unwrap());
    }
    assert_eq!(gl.live_shader_total(), 100);
    for sh in shaders {
        sh.destroy(&mut gl);
    }
    assert_eq!(gl.live_shader_total(), 0);
    let log = gl.call_log();
    assert_eq!(count_shader_creates(log), 100);
    assert_eq!(count_shader_deletes(log), 100);
}

#[test]
fn shader_from_res_picks_stage_by_extension() {
    let mut gl = table(16);
    let mut res = Resources::new();
    res.insert(String::from("tri.vert"), VS.to_vec());
    res.insert(String::from("tri.frag"), FS.to_vec());
    let vs = Shader::from_res(&mut gl, &res, "tri.vert").unwrap();
    assert_eq!(vs.kind(), ShaderKind::Vertex);
    let fs = Shader::from_res(&mut gl, &res, "tri.frag").unwrap();
    assert_eq!(fs.kind(), ShaderKind::Fragment);
    vs.destroy(&mut gl);
    fs.destroy(&mut gl);
}

#[test]
fn shader_from_res_rejects_unknown_extension() {
    let mut gl = table(16);
    let res = Resources::new();
    let err = Shader::from_res(&mut gl, &res, "tri.txt").unwrap_err();
    match err {
        Error::CanNotDetermineShaderTypeForResource { name } => assert_eq!(name, "tri.txt"),
        other => panic!("unexpected error: {:?}", other),
    }
}

#[test]
fn shader_from_res_reports_missing_resource() {
    let mut gl = table(16);
    let res = Resources::new();
    let err = Shader::from_res(&mut gl, &res, "tri.vert").unwrap_err();
    match err {
        Error::ResourceLoad { name, inner } => {
            assert_eq!(name, "tri.vert");
            assert!(matches!(inner, ResourcesError::NotFound));
        }
        other => panic!("unexpected error: {:?}", other),
    }
}

#[test]
fn shader_from_res_reports_interior_nul() {
    let mut gl = table(16);
    let mut res = Resources::new();
    res.insert(String::from("tri.vert"), vec![118, 0, 105]);
    let err = Shader::from_res(&mut gl, &res, "tri.vert").unwrap_err();
    match err {
        Error::ResourceLoad { name, inner } => {
            assert_eq!(name, "tri.vert");
            assert!(matches!(inner, ResourcesError::FileContainsNil));
        }
        other => panic!("unexpected error: {:?}", other),
    }
}

#[test]
fn shader_from_res_reports_compile_error() {
    let mut gl = table(16);
    let mut res = Resources::new();
    res.insert(String::from("tri.vert"), b"void main() { {".to_vec());
    let err = Shader::from_res(&mut gl, &res, "tri.vert").unwrap_err();
    match err {
        Error::CompileError { name, message } => {
            assert_eq!(name, "tri.vert");
            assert!(!message.is_empty());
        }
        other => panic!("unexpected error: {:?}", other),
    }
    assert_eq!(gl.live_shader_total(), 0);
}

#[test]
fn shader_allocation_fails_when_out_of_handles() {
    let mut gl = table(0);
    let mut res = Resources::new();
    res.insert(String::from("tri.vert"), VS.to_vec());
    let err = Shader::from_res(&mut gl, &res, "tri.vert").unwrap_err();
    assert!(matches!(err, Error::AllocationError));
}

#[test]
fn link_two_stages_succeeds_and_detaches() {
    let mut gl = table(16);
    let vs = Shader::from_vert_source(&mut gl, &VS.to_vec()).unwrap();
    let fs = Shader::from_frag_source(&mut gl, &FS.to_vec()).unwrap();
    let stages = vec![vs, fs];
    let prog = Program::from_shaders(&mut gl, &stages).unwrap();
    assert!(prog.id() != 0);
    assert_eq!(gl.live_program_total(), 1);
    // Detaching after linking kept the shader objects alive.
    assert_eq!(gl.live_shader_total(), 2);
    let attaches = gl
        .call_log()
        .iter()
        .filter(|c| matches!(c, GlCall::AttachShader { .. }))
        .count();
    let detaches = gl
        .call_log()
        .iter()
        .filter(|c| matches!(c, GlCall::DetachShader { .. }))
        .count();
    assert_eq!(attaches, 2);
    assert_eq!(detaches, 2);
    prog.destroy(&mut gl);
    for sh in stages {
        sh.destroy(&mut gl);
    }
    assert_eq!(gl.live_shader_total(), 0);
    assert_eq!(gl.live_program_total(), 0);
}

#[test]
fn link_duplicate_stage_fails_with_nonempty_log() {
    let mut gl = table(16);
    let a = Shader::from_vert_source(&mut gl, &VS.to_vec()).unwrap();
    let b = Shader::from_vert_source(&mut gl, &VS.to_vec()).unwrap();
    let stages = vec![a, b];
    let err = Program::from_shaders(&mut gl, &stages).unwrap_err();
    assert_eq!(err, "duplicate shader stage attached");
    // The failed program object was released again.
    assert_eq!(gl.live_program_total(), 0);
    for sh in stages {
        sh.destroy(&mut gl);
    }
}

#[test]
fn program_from_res_builds_and_releases_shaders() {
    let mut gl = table(16);
    let mut res = Resources::new();
    res.insert(String::from("tri.vert"), VS.to_vec());
    res.insert(String::from("tri.frag"), FS.to_vec());
    let prog = Program::from_res(&mut gl, &res, "tri").unwrap();
    assert!(prog.id() != 0);
    assert_eq!(gl.live_program_total(), 1);
    assert_eq!(gl.program_count(), 1);
    assert_eq!(gl.shader_count(), 2);
    // The two stage objects were released once the program was linked.
    assert_eq!(gl.live_shader_total(), 0);
    prog.set_used(&mut gl);
    prog.destroy(&mut gl);
    assert_eq!(gl.live_program_total(), 0);
    let log = gl.call_log();
    assert_eq!(count_shader_creates(log), count_shader_deletes(log));
    assert_eq!(count_program_creates(log), count_program_deletes(log));
}

#[test]
fn program_from_res_propagates_missing_fragment_source() {
    let mut gl = table(16);
    let mut res = Resources::new();
    res.insert(String::from("tri.vert"), VS.to_vec());
    let err = Program::from_res(&mut gl, &res, "tri").unwrap_err();
    match err {
        Error::ResourceLoad { name, inner } => {
            assert_eq!(name, "tri.frag");
            assert!(matches!(inner, ResourcesError::NotFound));
        }
        other => panic!("unexpected error: {:?}", other),
    }
    // The vertex shader compiled before the failure was released.
    assert_eq!(gl.live_shader_total(), 0);
    assert_eq!(gl.live_program_total(), 0);
}

#[test]
fn info_log_is_truncated_to_buffer_size() {
    let mut gl = table(16);
    let h = gl.create_shader(ShaderKind::Vertex);
    assert!(h != 0);
    gl.shader_source(h, &b"void main() {".to_vec());
    gl.compile_shader(h);
    assert!(!gl.get_shader_compile_status(h));
    let len = gl.get_shader_info_log_len(h);
    let full = gl.get_shader_info_log(h, len + 1);
    assert_eq!(full, "shader source has unbalanced braces");
    let short = gl.get_shader_info_log(h, 10);
    assert_eq!(short, "shader so");
    let none = gl.get_shader_info_log(h, 0);
    assert_eq!(none, "");
    gl.delete_shader(h);
}

#[test]
fn resources_first_entry_wins() {
    let mut res = Resources::new();
    res.insert(String::from("a.vert"), vec![1, 2]);
    res.insert(String::from("a.vert"), vec![3, 4]);
    assert_eq!(res.load_cstring("a.vert").unwrap(), vec![1, 2]);
    assert!(matches!(
        res.load_cstring("b.vert"),
        Err(ResourcesError::NotFound)
    ));
}

#[test]
fn build_renderable_reports_unresolved_attribute() {
    let entries = vec![1u64];
    let table = Gles::load_with(&entries, 0, 16, String::from("mock")).unwrap();
    let mut gl = Gl::new(table);
    // Sources that compile but name neither `position` nor `uColor`.
    let vs = b"void main() { gl_Position = vec4(0, 0, 0, 1); }".to_vec();
    let fs = b"void main() { gl_FragColor = vec4(1, 1, 1, 1); }".to_vec();
    let prog = gl.build_renderable(&vs, &fs).unwrap();
    gl.use_renderable(&prog);
    let err = gl.draw(&prog).unwrap_err();
    match err {
        Error::UnresolvedBinding { name } => assert_eq!(name, "position"),
        other => panic!("unexpected error: {:?}", other),
    }
}

#[test]
fn program_from_res_reports_link_error_when_program_handles_run_out() {
    // Two shader objects fit, but the two directly created programs
    // already exhaust the program capacity, so linking cannot allocate.
    let mut gl = table(2);
    let p1 = gl.create_program();
    let p2 = gl.create_program();
    assert!(p1 != 0 && p2 != 0);
    let mut res = Resources::new();
    res.insert(String::from("tri.vert"), VS.to_vec());
    res.insert(String::from("tri.frag"), FS.to_vec());
    let err = Program::from_res(&mut gl, &res, "tri").unwrap_err();
    match err {
        Error::LinkError { name, message } => {
            assert_eq!(name, "tri");
            assert!(!message.is_empty());
        }
        other => panic!("unexpected error: {:?}", other),
    }
    // The two stage shaders were still released: nothing leaked.
    assert_eq!(gl.live_shader_total(), 0);
}

#[test]
fn text_helpers_compare_exactly() {
    assert!(str_eq("tri.vert", "tri.vert"));
    assert!(!str_eq("tri.vert", "tri.frag"));
    assert!(!str_eq("tri", "tri.vert"));
    assert!(str_ends_with("tri.vert", ".vert"));
    assert!(!str_ends_with("tri.vert", ".frag"));
    assert!(!str_ends_with("rt", ".vert"));
}
