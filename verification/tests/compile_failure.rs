use kaleidux::content::{ContentFrame, ContentType};
use kaleidux::renderer::{DrawPlan, BlitSource, Renderer, TransitionEvent, TransitionState};
use kaleidux::resource_pool::{ProgramLookup, ResourcePool};
use kaleidux::shaders::{ShaderChoice, ShaderError, ShaderManager, FALLBACK_SHADER};
use kaleidux::transition::Transition;

const FADE_BODY: &str =
    "vec4 transition (vec2 uv) {\n  return mix(getFromColor(uv), getToColor(uv), progress);\n}";

const SCALED_FADE: &str = "uniform float strength; // = 0.4\n\
vec4 transition (vec2 uv) {\n  return mix(getFromColor(uv), getToColor(uv), progress * strength);\n}\n";

/// What the code around the engine does with a complete source: it has it
/// parsed, checked and written out as WGSL.
fn compile_source(name: &str, source: &str) -> Result<String, ShaderError> {
    let options = naga::front::glsl::Options::from(naga::ShaderStage::Fragment);
    let module = naga::front::glsl::Frontend::default()
        .parse(&options, source)
        .map_err(|e| ShaderError::Parse { name: name.to_string(), detail: format!("{:?}", e) })?;
    let info = naga::valid::Validator::new(
        naga::valid::ValidationFlags::all(),
        naga::valid::Capabilities::all(),
    )
    .validate(&module)
    .map_err(|e| ShaderError::Validation { name: name.to_string(), detail: format!("{:?}", e) })?;
    naga::back::wgsl::write_string(&module, &info, naga::back::wgsl::WriterFlags::empty())
        .map_err(|e| ShaderError::Generation { name: name.to_string(), detail: format!("{:?}", e) })
}

fn compile_glsl(name: &str, code: Option<&str>, mapping: &str) -> Result<String, ShaderError> {
    let source = ShaderManager::compile_job(name, code, mapping)?;
    compile_source(name, &source)
}

/// Compiles an effect as the engine says: the effect's own shader first,
/// the fade only where that failed, and the choice among the results.
fn compile_transition(name: &str, code: Option<&str>, mapping: &str, fade: Option<&str>) -> ShaderChoice {
    let own = compile_glsl(name, code, mapping);
    let fallback = if ShaderManager::needs_fallback(&own) {
        compile_glsl(FALLBACK_SHADER, fade, "")
    } else {
        Err(ShaderError::NotFound { name: FALLBACK_SHADER.to_string() })
    };
    ShaderManager::choose_shader(own, fallback)
}

/// Stands for a GPU program: the WGSL it was made from.
type Program = String;

/// What the code around the engine does on a cache miss: it loads the source
/// of the effect, compiles it with the fade as fallback, makes a program of
/// the chosen shader and has the pool keep it. Returns the program and counts
/// the compilations in `compilations`.
fn program_for(
    pool: &mut ResourcePool<u32, Program>,
    transition: &Transition,
    compilations: &mut u32,
) -> Option<Program> {
    match pool.get_transition_pipeline(transition) {
        ProgramLookup::Cached { program } => Some(program),
        ProgramLookup::Missing { name } => {
            *compilations += 1;
            // No asset exists for an effect whose request fails.
            let source = match ShaderManager::builtin_request(transition) {
                Ok(request) if request.name == "fade" => Some(FADE_BODY),
                _ => None,
            };
            let choice = compile_transition(&name, source, "", Some(FADE_BODY));
            let program = match &choice {
                ShaderChoice::Primary { wgsl } | ShaderChoice::Fallback { wgsl, .. } => Some(wgsl.clone()),
                ShaderChoice::Unavailable { .. } => None,
            };
            pool.settle(name, &choice, program.clone());
            program
        }
    }
}

#[test]
fn compile_failure_uses_fade_and_is_recorded_once() {
    let mut pool: ResourcePool<u32, Program> = ResourcePool::new(0);
    let mut compilations = 0;
    let mut r: Renderer<u32, u32> = Renderer::new("DP-1".to_string());
    // The angular effect has no source under the name it reports.
    r.set_transition_config(Transition::Angular, 1000);
    r.resize_checked(1920, 1080, &vec![1]);
    r.finish_resize(50);
    let image = |session_id| ContentFrame { width: 1920, height: 1080, kind: ContentType::Image, session_id };
    r.apply_frame(&image(1), 100, 0);
    r.switch_content();
    r.apply_frame(&image(2), 200, 0);

    let fade_program = program_for(&mut pool, &Transition::Fade, &mut compilations).unwrap();
    assert_eq!(compilations, 1);
    assert_eq!(pool.compile_failures, 0);

    let mut now = 1_000_000;
    let mut drawn_with = Vec::new();
    loop {
        let event = r.advance_transition(now);
        let program = if r.should_render_transition() {
            let p = program_for(&mut pool, &r.active_transition, &mut compilations);
            drawn_with.push(p.clone());
            p
        } else {
            None
        };
        match r.draw_plan(program.is_some()) {
            DrawPlan::Draw { transition_pass, source, .. } => {
                if transition_pass {
                    assert_eq!(source, BlitSource::Composition);
                    r.mark_transition_rendered();
                } else {
                    assert_eq!(source, BlitSource::Current);
                }
            }
            DrawPlan::Nothing => panic!("a frame was left out"),
        }
        r.finish_render(now);
        if matches!(event, TransitionEvent::Completed { .. }) {
            break;
        }
        now += 250_000;
    }

    // The switch completed, drawn with the program of the fade throughout.
    assert_eq!(r.transition_state(), TransitionState::Idle);
    assert_eq!(r.current_texture, Some(200));
    assert_eq!(r.prev_texture, None);
    assert_eq!(drawn_with.len(), 4);
    assert!(drawn_with.iter().all(|p| p.as_ref() == Some(&fade_program)));
    // One compilation for the fade, one for the failing effect, none after.
    assert_eq!(compilations, 2);
    assert_eq!(pool.compile_failures, 1);
    assert_eq!(pool.fatal_compile_failures, 0);
    assert!(pool.transition_pipelines.contains_key("angular"));

    // A later request for the failing effect is served from the cache.
    assert_eq!(program_for(&mut pool, &Transition::Angular, &mut compilations), Some(fade_program));
    assert_eq!(compilations, 2);
    assert_eq!(pool.compile_failures, 1);
}

#[test]
fn transition_without_any_program_leaves_the_frame_out() {
    let mut r: Renderer<u32, u32> = Renderer::new("DP-1".to_string());
    r.finish_resize(50);
    let image = |session_id| ContentFrame { width: 4, height: 3, kind: ContentType::Image, session_id };
    r.apply_frame(&image(1), 100, 0);
    r.switch_content();
    r.apply_frame(&image(2), 200, 0);
    r.advance_transition(0);
    assert!(r.should_render_transition());
    assert_eq!(r.draw_plan(false), DrawPlan::Nothing);
    assert_eq!(
        r.draw_plan(true),
        DrawPlan::Draw {
            transition_pass: true,
            bind_transition: true,
            source: BlitSource::Composition,
            bind_blit: true,
            request_callback: true,
        }
    );
    // The clock still ends the transition: a hard cut, not a stall.
    assert!(matches!(r.advance_transition(1_000_000), TransitionEvent::Completed { .. }));
    assert_eq!(
        r.draw_plan(false),
        DrawPlan::Draw {
            transition_pass: false,
            bind_transition: false,
            source: BlitSource::Current,
            bind_blit: true,
            request_callback: true,
        }
    );

    let mut pool: ResourcePool<u32, Program> = ResourcePool::new(0);
    pool.note_unavailable();
    assert_eq!((pool.compile_failures, pool.fatal_compile_failures), (1, 1));
    assert_eq!(pool.transition_pipelines.len(), 0);
}

#[test]
fn fade_compiles_to_wgsl() {
    let source = ShaderManager::glsl_source(FADE_BODY, "");
    let wgsl = compile_source("fade", &source).expect("the fade must compile");
    assert!(wgsl.contains("fn main"));
    assert!(wgsl.contains("@fragment"));
    assert_ne!(wgsl, source);
}

#[test]
fn effect_with_a_parameter_compiles() {
    let wgsl = compile_glsl("scaled", Some(SCALED_FADE), "float strength = getFromParams(0);")
        .expect("the effect must compile");
    assert!(wgsl.contains("@fragment"));
    // Without the mapping the parameter is undefined.
    match compile_glsl("scaled", Some(SCALED_FADE), "") {
        Err(e) => {
            assert_eq!(e.name(), "scaled");
            assert!(!matches!(e, ShaderError::NotFound { .. }));
        }
        Ok(_) => panic!("compiled without its parameter"),
    }
}

#[test]
fn each_step_of_compiling_has_its_error() {
    assert!(matches!(compile_glsl("a", None, ""), Err(ShaderError::NotFound { .. })));
    assert!(matches!(compile_glsl("a", Some("@"), ""), Err(ShaderError::Parse { .. })));
    let beyond = "vec4 transition(vec2 uv) { return params[9]; }";
    let e = compile_glsl("b", Some(beyond), "").unwrap_err();
    assert!(matches!(e, ShaderError::Validation { .. }), "{:?}", e);
    let outer = "vec4 transition(vec2 uv) { mat2 m = outerProduct(uv, uv); return vec4(m[0], m[1]); }";
    let e = compile_glsl("c", Some(outer), "").unwrap_err();
    assert!(matches!(e, ShaderError::Generation { .. }), "{:?}", e);
    assert_eq!(e.name(), "c");
}

#[test]
fn effect_that_fails_is_replaced_by_the_fade() {
    let fade = compile_glsl("fade", Some(FADE_BODY), "").unwrap();
    match compile_transition("fade", Some(FADE_BODY), "", Some(FADE_BODY)) {
        ShaderChoice::Primary { wgsl } => assert_eq!(wgsl, fade),
        other => panic!("expected the effect's own shader, got {:?}", other),
    }
    match compile_transition("scaled", Some(SCALED_FADE), "", Some(FADE_BODY)) {
        ShaderChoice::Fallback { wgsl, failure } => {
            assert_eq!(wgsl, fade);
            assert_eq!(failure.name(), "scaled");
        }
        other => panic!("expected the fade, got {:?}", other),
    }
    match compile_transition("angular", None, "", Some(FADE_BODY)) {
        ShaderChoice::Fallback { wgsl, failure } => {
            assert_eq!(wgsl, fade);
            assert!(matches!(failure, ShaderError::NotFound { name } if name == "angular"));
        }
        other => panic!("expected the fade, got {:?}", other),
    }
    match compile_transition("scaled", Some(SCALED_FADE), "float strength = 1.0", Some(FADE_BODY)) {
        ShaderChoice::Primary { wgsl } => assert_ne!(wgsl, fade),
        other => panic!("expected the effect itself, got {:?}", other),
    }
    match compile_transition("scaled", Some(SCALED_FADE), "", Some("broken")) {
        ShaderChoice::Unavailable { failure, fallback_failure } => {
            assert_eq!(failure.name(), "scaled");
            assert_eq!(fallback_failure.name(), FALLBACK_SHADER);
        }
        other => panic!("expected no shader, got {:?}", other),
    }
    assert!(matches!(
        compile_transition("scaled", None, "", None),
        ShaderChoice::Unavailable { .. }
    ));
}

#[test]
fn settling_counts_each_failure_once() {
    let mut pool: ResourcePool<u32, Program> = ResourcePool::new(0);
    let failure = || ShaderError::NotFound { name: "x".to_string() };
    pool.settle("a".to_string(), &ShaderChoice::Primary { wgsl: "w".to_string() }, Some("pa".to_string()));
    assert_eq!((pool.compile_failures, pool.fatal_compile_failures), (0, 0));
    pool.settle(
        "b".to_string(),
        &ShaderChoice::Fallback { wgsl: "w".to_string(), failure: failure() },
        Some("pb".to_string()),
    );
    assert_eq!((pool.compile_failures, pool.fatal_compile_failures), (1, 0));
    assert_eq!(pool.get_program("b"), Some("pb".to_string()));
    pool.settle(
        "c".to_string(),
        &ShaderChoice::Unavailable { failure: failure(), fallback_failure: failure() },
        Some("never kept".to_string()),
    );
    assert_eq!((pool.compile_failures, pool.fatal_compile_failures), (2, 1));
    assert_eq!(pool.get_program("c"), None);
    assert_eq!(pool.transition_pipelines.len(), 2);
}
