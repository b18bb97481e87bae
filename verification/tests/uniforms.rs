use gl_wrap::shader::{
    compile_stage_tags, load_outcome, shader_stage_gl, shader_stage_name, stage_failed, Shader,
};

const GL_VERTEX_SHADER: u32 = 0x8B31;
const GL_FRAGMENT_SHADER: u32 = 0x8B30;
const GL_GEOMETRY_SHADER: u32 = 0x8DD9;

/// Resolves a uniform location the way the embedding application does:
/// answer from the cache, and only on a miss perform the (here simulated)
/// native resolution call and record its answer.
fn resolve(shader: &mut Shader, name: &str, native_answer: i32, native_calls: &mut u32) -> i32 {
    match shader.cached_location(name) {
        Some(location) => location,
        None => {
            *native_calls += 1;
            shader.record_location(name, native_answer);
            native_answer
        }
    }
}

#[test]
fn second_resolution_of_same_name_issues_no_native_call() {
    let mut shader = Shader::new();
    let mut native_calls: u32 = 0;

    let first = resolve(&mut shader, "u_color", 5, &mut native_calls);
    let second = resolve(&mut shader, "u_color", 5, &mut native_calls);

    assert_eq!(first, 5);
    assert_eq!(second, 5);
    assert_eq!(native_calls, 1);
}

#[test]
fn distinct_names_each_resolve_once() {
    let mut shader = Shader::new();
    let mut native_calls: u32 = 0;

    assert_eq!(resolve(&mut shader, "u_color", 5, &mut native_calls), 5);
    assert_eq!(resolve(&mut shader, "u_mvp", 2, &mut native_calls), 2);
    assert_eq!(resolve(&mut shader, "u_color", 5, &mut native_calls), 5);
    assert_eq!(resolve(&mut shader, "u_mvp", 2, &mut native_calls), 2);
    assert_eq!(native_calls, 2);
}

#[test]
fn fresh_instance_does_not_reuse_stale_locations() {
    let mut first_program = Shader::new();
    let mut native_calls: u32 = 0;
    assert_eq!(resolve(&mut first_program, "u_mvp", 7, &mut native_calls), 7);
    assert_eq!(native_calls, 1);

    // A replacement program is a fresh instance: its cache starts empty, so
    // the old location 7 cannot be answered and the native call is reissued.
    let mut second_program = Shader::new();
    assert_eq!(second_program.cached_location("u_mvp"), None);
    assert_eq!(resolve(&mut second_program, "u_mvp", 11, &mut native_calls), 11);
    assert_eq!(native_calls, 2);
}

#[test]
fn installing_a_replacement_program_invalidates_the_cache() {
    let mut shader = Shader::new();
    let mut native_calls: u32 = 0;
    assert_eq!(resolve(&mut shader, "u_mvp", 7, &mut native_calls), 7);
    assert_eq!(shader.cached_location("u_mvp"), Some(7));

    // Reloading installs a fresh program on the same shader value: the old
    // location 7 must not be answered again, so the native resolution call
    // is reissued against the new program.
    shader.install_program(33);
    assert_eq!(shader.program, 33);
    assert_eq!(shader.cached_location("u_mvp"), None);
    assert_eq!(resolve(&mut shader, "u_mvp", 12, &mut native_calls), 12);
    assert_eq!(native_calls, 2);
}

#[test]
fn each_source_is_compiled_as_its_own_stage() {
    let (vertex_tag, fragment_tag, geo_tag) = compile_stage_tags(true);
    assert_eq!(shader_stage_gl(vertex_tag), GL_VERTEX_SHADER);
    assert_eq!(shader_stage_gl(fragment_tag), GL_FRAGMENT_SHADER);
    assert_eq!(shader_stage_gl(geo_tag.expect("geometry source supplied")), GL_GEOMETRY_SHADER);

    let (vertex_tag, fragment_tag, geo_tag) = compile_stage_tags(false);
    assert_eq!(shader_stage_gl(vertex_tag), GL_VERTEX_SHADER);
    assert_eq!(shader_stage_gl(fragment_tag), GL_FRAGMENT_SHADER);
    assert!(geo_tag.is_none());
}

#[test]
fn latest_recorded_location_wins() {
    let mut shader = Shader::new();
    shader.record_location("u_light", 1);
    shader.record_location("u_light", 4);
    assert_eq!(shader.cached_location("u_light"), Some(4));
}

#[test]
fn new_shader_has_no_program_and_empty_cache() {
    let shader = Shader::new();
    assert_eq!(shader.program, 0);
    assert!(shader.uniforms_location.is_empty());
    assert_eq!(shader.cached_location("anything"), None);
}

#[test]
fn stage_tags_map_to_native_stage_identifiers() {
    assert_eq!(shader_stage_gl(0), GL_VERTEX_SHADER);
    assert_eq!(shader_stage_gl(1), GL_FRAGMENT_SHADER);
    assert_eq!(shader_stage_gl(2), GL_GEOMETRY_SHADER);
    assert_eq!(shader_stage_gl(255), GL_GEOMETRY_SHADER);

    assert_eq!(shader_stage_name(0), "vertex");
    assert_eq!(shader_stage_name(1), "fragment");
    assert_eq!(shader_stage_name(2), "geometry");
}

#[test]
fn failure_flag_reports_any_failed_stage_or_link() {
    assert!(!stage_failed(1));
    assert!(stage_failed(0));
    assert!(stage_failed(-1));

    assert!(!load_outcome(false, false, None, false));
    assert!(load_outcome(true, false, None, false));
    assert!(load_outcome(false, true, None, false));
    assert!(load_outcome(false, false, Some(true), false));
    assert!(load_outcome(false, false, None, true));
    assert!(!load_outcome(false, false, Some(false), false));
    assert!(load_outcome(true, true, Some(true), true));
}
