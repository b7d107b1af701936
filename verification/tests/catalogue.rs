use kaleidux::shaders::{ShaderChoice, ShaderError, ShaderManager, GLSL_ENTRY_POINT, GLSL_PRELUDE};
use kaleidux::transition::{pickable, Transition, PICKABLE_COUNT};

#[test]
fn names_of_effects() {
    assert_eq!(Transition::Fade.name(), "fade");
    assert_eq!(Transition::Angular.name(), "angular");
    assert_eq!(Transition::Doom.name(), "DoomScreenTransition");
    assert_eq!(Transition::Edge.name(), "EdgeTransition");
    assert_eq!(Transition::ZoomRightWipe.name(), "ZoomRigthWipe");
    assert_eq!(Transition::XAxisTranslation.name(), "x_axis_translation");
    assert_eq!(Transition::Random.name(), "random");
    assert_eq!(Transition::Custom { shader: "mine".to_string() }.name(), "mine");
}

#[test]
fn effects_by_name() {
    assert!(matches!(Transition::from_name("fade"), Transition::Fade));
    assert!(matches!(Transition::from_name("crosszoom"), Transition::CrossZoom));
    assert!(matches!(Transition::from_name("wipe"), Transition::DirectionalWipe));
    assert!(matches!(Transition::from_name("directionalwipe"), Transition::DirectionalWipe));
    assert!(matches!(Transition::from_name("coord-from-in"), Transition::CoordFromIn));
    assert!(matches!(Transition::from_name("x-axis-translation"), Transition::XAxisTranslation));
    assert!(matches!(Transition::from_name("random"), Transition::Random));
    assert!(matches!(Transition::from_name("zoomrightwipe"), Transition::ZoomRightWipe));
}

#[test]
fn names_are_looked_up_without_regard_to_case() {
    assert!(matches!(Transition::from_name("CrossZoom"), Transition::CrossZoom));
    assert!(matches!(Transition::from_name("SWIRL"), Transition::Swirl));
    assert!(matches!(Transition::from_name("Static_Wipe"), Transition::StaticWipe));
    // The lookup that skips the lowering does regard case.
    assert!(matches!(Transition::from_lowercase_name("CrossZoom"), Transition::Fade));
    assert!(matches!(Transition::from_lowercase_name("crosszoom"), Transition::CrossZoom));
}

#[test]
fn unknown_names_give_the_fade() {
    assert!(matches!(Transition::from_name(""), Transition::Fade));
    assert!(matches!(Transition::from_name("no-such-effect"), Transition::Fade));
    assert!(matches!(Transition::from_name("cannabisleaf"), Transition::Fade));
    assert!(matches!(Transition::from_name("DoomScreenTransition"), Transition::Fade));
    assert!(matches!(Transition::from_name(" fade"), Transition::Fade));
}

#[test]
fn the_lot() {
    assert_eq!(PICKABLE_COUNT, 100);
    assert_eq!(pickable(0), "angular");
    assert_eq!(pickable(32), "fade");
    assert_eq!(pickable(99), "zoomrightwipe");
    assert!(matches!(Transition::pick_at(0), Transition::Angular));
    assert!(matches!(Transition::pick_at(8), Transition::Fade));
    assert_eq!(pickable(8), "cannabisleaf");
    assert!(matches!(Transition::pick_at(99), Transition::ZoomRightWipe));
}

#[test]
fn random_pick_draws_from_the_whole_lot() {
    let mut seen_other = false;
    for _ in 0..400 {
        let t = Transition::pick_random();
        assert!(!matches!(t, Transition::Custom { .. } | Transition::Random));
        if !matches!(t, Transition::ZoomRightWipe) {
            seen_other = true;
        }
    }
    assert!(seen_other);
}

#[test]
fn duplicate_is_the_same_effect() {
    assert!(matches!(Transition::Cube.duplicate(), Transition::Cube));
    match (Transition::Custom { shader: "mine".to_string() }).duplicate() {
        Transition::Custom { shader } => assert_eq!(shader, "mine"),
        other => panic!("not a custom effect: {:?}", other),
    }
}

#[test]
fn built_in_sources() {
    assert_eq!(
        ShaderManager::get_builtin_glsl("fade"),
        Some("shaders/transitions/fade.glsl")
    );
    assert_eq!(
        ShaderManager::get_builtin_glsl("Angular"),
        Some("shaders/transitions/angular.glsl")
    );
    assert_eq!(
        ShaderManager::get_builtin_glsl("ZoomRigthWipe"),
        Some("shaders/transitions/ZoomRigthWipe.glsl")
    );
    assert_eq!(ShaderManager::get_builtin_glsl("angular"), None);
    assert_eq!(ShaderManager::get_builtin_glsl("Fade"), None);
    assert_eq!(ShaderManager::get_builtin_glsl("random"), None);
    assert_eq!(ShaderManager::get_builtin_glsl(""), None);
}

#[test]
fn every_effect_but_angular_has_a_built_in_source() {
    for i in 0..PICKABLE_COUNT {
        let t = Transition::pick_at(i);
        let name = t.name();
        let found = ShaderManager::get_builtin_glsl(&name);
        if matches!(t, Transition::Angular) {
            assert_eq!(found, None);
        } else {
            assert_eq!(found, Some(format!("shaders/transitions/{}.glsl", name).as_str()));
        }
    }
}

#[test]
fn mappings_feed_the_uniforms() {
    assert_eq!(ShaderManager::builtin_mapping(&Transition::Fade), "");
    assert_eq!(
        ShaderManager::builtin_mapping(&Transition::CrossZoom),
        "float strength = getFromParams(0);"
    );
    assert_eq!(
        ShaderManager::builtin_mapping(&Transition::ZoomLeftWipe),
        "float zoom_quickness = getFromParams(0);"
    );
    assert_eq!(
        ShaderManager::builtin_mapping(&Transition::ZoomRightWipe),
        "float zoom_quickness = getFromParams(0);"
    );
    assert_eq!(
        ShaderManager::builtin_mapping(&Transition::Burn),
        "vec3 color = vec3(0.9, 0.4, 0.2);"
    );
    assert_eq!(
        ShaderManager::builtin_mapping(&Transition::Displacement),
        "float strength = 0.5; #define displacementMap t_next"
    );
    assert_eq!(ShaderManager::builtin_mapping(&Transition::Custom { shader: "x".to_string() }), "");
}

#[test]
fn requests_for_built_in_effects() {
    let r = ShaderManager::builtin_request(&Transition::Radial).unwrap();
    assert_eq!(r.name, "Radial");
    assert_eq!(r.asset, "shaders/transitions/Radial.glsl");
    assert_eq!(r.mapping, "float smoothness = getFromParams(0);");

    // The luma effect is drawn as a fade.
    let r = ShaderManager::builtin_request(&Transition::Luma).unwrap();
    assert_eq!(r.name, "fade");
    assert_eq!(r.asset, "shaders/transitions/fade.glsl");
    assert_eq!(r.mapping, "");

    match ShaderManager::builtin_request(&Transition::Angular) {
        Err(ShaderError::NotFound { name }) => assert_eq!(name, "angular"),
        other => panic!("expected NotFound, got {:?}", other),
    }
    match ShaderManager::builtin_request(&Transition::Random) {
        Err(e) => assert_eq!(e.name(), "random"),
        Ok(_) => panic!("the lot has no source"),
    }
}

#[test]
fn assembled_source_has_prelude_defines_body_and_entry_point() {
    let source = ShaderManager::assemble_glsl("#define a (1)\n", "BODY");
    assert_eq!(
        source,
        format!("{}\n#define a (1)\n\nBODY\n{}", GLSL_PRELUDE, GLSL_ENTRY_POINT)
    );
    assert_eq!(GLSL_ENTRY_POINT, "void main() { o_color = transition(v_uv); }");
    assert!(GLSL_PRELUDE.starts_with("\n#version 450\n"));
    assert!(GLSL_PRELUDE.contains("vec2 cover(vec2 uv, float screen_ratio, float content_ratio)"));
}

#[test]
fn choice_of_shader_from_results() {
    let failure = || ShaderError::NotFound { name: "x".to_string() };
    assert!(matches!(
        ShaderManager::choose_shader(Ok("a".to_string()), Err(failure())),
        ShaderChoice::Primary { wgsl } if wgsl == "a"
    ));
    assert!(matches!(
        ShaderManager::choose_shader(Ok("a".to_string()), Ok("b".to_string())),
        ShaderChoice::Primary { wgsl } if wgsl == "a"
    ));
    assert!(matches!(
        ShaderManager::choose_shader(Err(failure()), Ok("b".to_string())),
        ShaderChoice::Fallback { wgsl, .. } if wgsl == "b"
    ));
    assert!(matches!(
        ShaderManager::choose_shader(Err(failure()), Err(failure())),
        ShaderChoice::Unavailable { .. }
    ));
}

#[test]
fn what_is_handed_to_the_compiler() {
    let job = ShaderManager::compile_job("Radial", Some("BODY"), "float smoothness = getFromParams(0);");
    assert_eq!(
        job.unwrap(),
        format!(
            "{}\n#define smoothness (getFromParams(0))\n\nBODY\n{}",
            GLSL_PRELUDE, GLSL_ENTRY_POINT
        )
    );
    // An effect whose source could not be had is not compiled.
    match ShaderManager::compile_job("Radial", None, "float smoothness = getFromParams(0);") {
        Err(ShaderError::NotFound { name }) => assert_eq!(name, "Radial"),
        other => panic!("{:?}", other),
    }
}

#[test]
fn the_fade_is_compiled_only_after_a_failure() {
    assert!(!ShaderManager::needs_fallback(&Ok("wgsl".to_string())));
    assert!(ShaderManager::needs_fallback(&Err(ShaderError::NotFound { name: "x".to_string() })));
    assert!(ShaderManager::needs_fallback(&Err(ShaderError::Parse {
        name: "x".to_string(),
        detail: String::new()
    })));
}
