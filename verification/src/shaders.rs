//! Shader sources of the transition effects: where the source of a built-in
//! effect is found, how its uniforms are fed from the parameter block, and
//! what is handed to the compiler.
//!
//! The sources themselves are assets that the caller loads, and compiling
//! is the caller's work too: this module says what is compiled, and what is
//! made of the results.

use crate::glsl::defines_of;
use crate::glsl::defines_for;
use crate::glsl::strip_uniforms;
use crate::glsl::uniforms_stripped;
use crate::text::str_eq;
use crate::transition::Transition;
use vstd::prelude::*;
use vstd::string::*;

verus! {

/// What every transition source is prefixed with: the uniform block, the two
/// textures with their sampler, and the helpers that read one parameter and
/// that fit a texture to the screen by covering it.
pub const GLSL_PRELUDE: &'static str = r#"
#version 450
layout(location = 0) in vec2 v_uv;
layout(location = 0) out vec4 o_color;

precision highp float;

layout(set = 0, binding = 0) uniform TransitionUniforms {
    float progress;
    float screen_aspect;
    float prev_aspect;
    float next_aspect;
    vec4 params[7];
};

#define ratio screen_aspect

layout(set = 0, binding = 1) uniform texture2D t_prev;
layout(set = 0, binding = 2) uniform texture2D t_next;
layout(set = 0, binding = 3) uniform sampler s_linear;

// Helper to access flattened params from aligned vec4 array
float getFromParams(int i) {
    // GLSL component access via array indexing
    return params[i / 4][i % 4];
}

// Helper for aspect ratio cover
vec2 cover(vec2 uv, float screen_ratio, float content_ratio) {
    float scale = screen_ratio / content_ratio;
    if (scale > 1.0) {
        // Screen is wider than content: Fit Width, Crop Height (Zoom In Y)
        // We divide Y offset by scale to map 0..1 ScreenY to 0.25..0.75 ContentY
        return vec2(uv.x, (uv.y - 0.5) / scale + 0.5);
    } else {
        // Content is wider than screen: Fit Height, Crop Width (Zoom In X)
        // We multiply X offset by scale (where scale < 1.0) to map 0..1 ScreenX to subset ContentX
        return vec2((uv.x - 0.5) * scale + 0.5, uv.y);
    }
}

vec4 getFromColor(vec2 uv) {
    vec2 uv_c = cover(uv, screen_aspect, prev_aspect);
    return texture(sampler2D(t_prev, s_linear), uv_c);
}

vec4 getToColor(vec2 uv) {
    vec2 uv_c = cover(uv, screen_aspect, next_aspect);
    return texture(sampler2D(t_next, s_linear), uv_c);
}
"#;

/// What every transition source is followed by: the entry point, which calls the effect.
pub const GLSL_ENTRY_POINT: &'static str = "void main() { o_color = transition(v_uv); }";

/// Name of the effect that stands in for one that cannot be compiled.
pub const FALLBACK_SHADER: &'static str = "fade";

/// Looks up and compiles shader sources.
pub struct ShaderManager;

/// Why no shader could be had.
#[derive(Debug)]
pub enum ShaderError {
    /// There is no built-in source of this name.
    NotFound { name: String },
    /// The source is no valid GLSL.
    Parse { name: String, detail: String },
    /// The source is GLSL but no valid shader.
    Validation { name: String, detail: String },
    /// The shader could not be written as WGSL.
    Generation { name: String, detail: String },
}

/// What is needed to compile a built-in effect.
#[derive(Debug)]
pub struct ShaderRequest {
    /// Name the shader is compiled under.
    pub name: String,
    /// Path of the asset that holds the GLSL source.
    pub asset: &'static str,
    /// Declarations that feed the uniforms of the source from the parameter block.
    pub mapping: &'static str,
}

/// Where the shader of an effect comes from.
#[derive(Debug)]
pub enum ShaderSource {
    /// From the built-in source that the request names.
    Builtin { request: ShaderRequest },
    /// From the user's own source of this name.
    External { shader: String },
}

/// The shader to use for an effect.
#[derive(Debug)]
pub enum ShaderChoice {
    /// The effect's own shader.
    Primary { wgsl: String },
    /// The shader of the fade, because the effect's own failed with `failure`.
    Fallback { wgsl: String, failure: ShaderError },
    /// No shader: the effect's own failed, and so did the fade.
    Unavailable { failure: ShaderError, fallback_failure: ShaderError },
}

/// Path of the asset that holds the source of the built-in effect `name`.
pub open spec fn builtin_asset(name: Seq<char>) -> Option<Seq<char>> {
    if name == "Angular"@ {
        Some("shaders/transitions/angular.glsl"@)
    } else if name == "BookFlip"@ {
        Some("shaders/transitions/BookFlip.glsl"@)
    } else if name == "Bounce"@ {
        Some("shaders/transitions/Bounce.glsl"@)
    } else if name == "BowTieHorizontal"@ {
        Some("shaders/transitions/BowTieHorizontal.glsl"@)
    } else if name == "BowTieVertical"@ {
        Some("shaders/transitions/BowTieVertical.glsl"@)
    } else if name == "BowTieWithParameter"@ {
        Some("shaders/transitions/BowTieWithParameter.glsl"@)
    } else if name == "burn"@ {
        Some("shaders/transitions/burn.glsl"@)
    } else if name == "ButterflyWaveScrawler"@ {
        Some("shaders/transitions/ButterflyWaveScrawler.glsl"@)
    } else if name == "cannabisleaf"@ {
        Some("shaders/transitions/cannabisleaf.glsl"@)
    } else if name == "circle"@ {
        Some("shaders/transitions/circle.glsl"@)
    } else if name == "CircleCrop"@ {
        Some("shaders/transitions/CircleCrop.glsl"@)
    } else if name == "circleopen"@ {
        Some("shaders/transitions/circleopen.glsl"@)
    } else if name == "colorphase"@ {
        Some("shaders/transitions/colorphase.glsl"@)
    } else if name == "coord-from-in"@ {
        Some("shaders/transitions/coord-from-in.glsl"@)
    } else if name == "CrazyParametricFun"@ {
        Some("shaders/transitions/CrazyParametricFun.glsl"@)
    } else if name == "ColourDistance"@ {
        Some("shaders/transitions/ColourDistance.glsl"@)
    } else if name == "crosshatch"@ {
        Some("shaders/transitions/crosshatch.glsl"@)
    } else if name == "crosswarp"@ {
        Some("shaders/transitions/crosswarp.glsl"@)
    } else if name == "CrossZoom"@ {
        Some("shaders/transitions/CrossZoom.glsl"@)
    } else if name == "cube"@ {
        Some("shaders/transitions/cube.glsl"@)
    } else if name == "Directional"@ {
        Some("shaders/transitions/Directional.glsl"@)
    } else if name == "directional-easing"@ {
        Some("shaders/transitions/directional-easing.glsl"@)
    } else if name == "DirectionalScaled"@ {
        Some("shaders/transitions/DirectionalScaled.glsl"@)
    } else if name == "directionalwarp"@ {
        Some("shaders/transitions/directionalwarp.glsl"@)
    } else if name == "directionalwipe"@ {
        Some("shaders/transitions/directionalwipe.glsl"@)
    } else if name == "displacement"@ {
        Some("shaders/transitions/displacement.glsl"@)
    } else if name == "dissolve"@ {
        Some("shaders/transitions/dissolve.glsl"@)
    } else if name == "DoomScreenTransition"@ {
        Some("shaders/transitions/DoomScreenTransition.glsl"@)
    } else if name == "doorway"@ {
        Some("shaders/transitions/doorway.glsl"@)
    } else if name == "Dreamy"@ {
        Some("shaders/transitions/Dreamy.glsl"@)
    } else if name == "DreamyZoom"@ {
        Some("shaders/transitions/DreamyZoom.glsl"@)
    } else if name == "EdgeTransition"@ {
        Some("shaders/transitions/EdgeTransition.glsl"@)
    } else if name == "fade"@ {
        Some("shaders/transitions/fade.glsl"@)
    } else if name == "fadecolor"@ {
        Some("shaders/transitions/fadecolor.glsl"@)
    } else if name == "fadegrayscale"@ {
        Some("shaders/transitions/fadegrayscale.glsl"@)
    } else if name == "FilmBurn"@ {
        Some("shaders/transitions/FilmBurn.glsl"@)
    } else if name == "flyeye"@ {
        Some("shaders/transitions/flyeye.glsl"@)
    } else if name == "GlitchDisplace"@ {
        Some("shaders/transitions/GlitchDisplace.glsl"@)
    } else if name == "GlitchMemories"@ {
        Some("shaders/transitions/GlitchMemories.glsl"@)
    } else if name == "GridFlip"@ {
        Some("shaders/transitions/GridFlip.glsl"@)
    } else if name == "heart"@ {
        Some("shaders/transitions/heart.glsl"@)
    } else if name == "hexagonalize"@ {
        Some("shaders/transitions/hexagonalize.glsl"@)
    } else if name == "HorizontalClose"@ {
        Some("shaders/transitions/HorizontalClose.glsl"@)
    } else if name == "HorizontalOpen"@ {
        Some("shaders/transitions/HorizontalOpen.glsl"@)
    } else if name == "InvertedPageCurl"@ {
        Some("shaders/transitions/InvertedPageCurl.glsl"@)
    } else if name == "kaleidoscope"@ {
        Some("shaders/transitions/kaleidoscope.glsl"@)
    } else if name == "LeftRight"@ {
        Some("shaders/transitions/LeftRight.glsl"@)
    } else if name == "LinearBlur"@ {
        Some("shaders/transitions/LinearBlur.glsl"@)
    } else if name == "luma"@ {
        Some("shaders/transitions/luma.glsl"@)
    } else if name == "luminance_melt"@ {
        Some("shaders/transitions/luminance_melt.glsl"@)
    } else if name == "morph"@ {
        Some("shaders/transitions/morph.glsl"@)
    } else if name == "Mosaic"@ {
        Some("shaders/transitions/Mosaic.glsl"@)
    } else if name == "mosaic_transition"@ {
        Some("shaders/transitions/mosaic_transition.glsl"@)
    } else if name == "multiply_blend"@ {
        Some("shaders/transitions/multiply_blend.glsl"@)
    } else if name == "Overexposure"@ {
        Some("shaders/transitions/Overexposure.glsl"@)
    } else if name == "perlin"@ {
        Some("shaders/transitions/perlin.glsl"@)
    } else if name == "pinwheel"@ {
        Some("shaders/transitions/pinwheel.glsl"@)
    } else if name == "pixelize"@ {
        Some("shaders/transitions/pixelize.glsl"@)
    } else if name == "polar_function"@ {
        Some("shaders/transitions/polar_function.glsl"@)
    } else if name == "PolkaDotsCurtain"@ {
        Some("shaders/transitions/PolkaDotsCurtain.glsl"@)
    } else if name == "powerKaleido"@ {
        Some("shaders/transitions/powerKaleido.glsl"@)
    } else if name == "Radial"@ {
        Some("shaders/transitions/Radial.glsl"@)
    } else if name == "randomNoisex"@ {
        Some("shaders/transitions/randomNoisex.glsl"@)
    } else if name == "randomsquares"@ {
        Some("shaders/transitions/randomsquares.glsl"@)
    } else if name == "Rectangle"@ {
        Some("shaders/transitions/Rectangle.glsl"@)
    } else if name == "RectangleCrop"@ {
        Some("shaders/transitions/RectangleCrop.glsl"@)
    } else if name == "ripple"@ {
        Some("shaders/transitions/ripple.glsl"@)
    } else if name == "Rolls"@ {
        Some("shaders/transitions/Rolls.glsl"@)
    } else if name == "rotateTransition"@ {
        Some("shaders/transitions/rotateTransition.glsl"@)
    } else if name == "rotate_scale_fade"@ {
        Some("shaders/transitions/rotate_scale_fade.glsl"@)
    } else if name == "RotateScaleVanish"@ {
        Some("shaders/transitions/RotateScaleVanish.glsl"@)
    } else if name == "scale-in"@ {
        Some("shaders/transitions/scale-in.glsl"@)
    } else if name == "SimpleZoom"@ {
        Some("shaders/transitions/SimpleZoom.glsl"@)
    } else if name == "SimpleZoomOut"@ {
        Some("shaders/transitions/SimpleZoomOut.glsl"@)
    } else if name == "Slides"@ {
        Some("shaders/transitions/Slides.glsl"@)
    } else if name == "squareswire"@ {
        Some("shaders/transitions/squareswire.glsl"@)
    } else if name == "squeeze"@ {
        Some("shaders/transitions/squeeze.glsl"@)
    } else if name == "StaticFade"@ {
        Some("shaders/transitions/StaticFade.glsl"@)
    } else if name == "static_wipe"@ {
        Some("shaders/transitions/static_wipe.glsl"@)
    } else if name == "StereoViewer"@ {
        Some("shaders/transitions/StereoViewer.glsl"@)
    } else if name == "swap"@ {
        Some("shaders/transitions/swap.glsl"@)
    } else if name == "Swirl"@ {
        Some("shaders/transitions/Swirl.glsl"@)
    } else if name == "tangentMotionBlur"@ {
        Some("shaders/transitions/tangentMotionBlur.glsl"@)
    } else if name == "TopBottom"@ {
        Some("shaders/transitions/TopBottom.glsl"@)
    } else if name == "TVStatic"@ {
        Some("shaders/transitions/TVStatic.glsl"@)
    } else if name == "undulatingBurnOut"@ {
        Some("shaders/transitions/undulatingBurnOut.glsl"@)
    } else if name == "VerticalClose"@ {
        Some("shaders/transitions/VerticalClose.glsl"@)
    } else if name == "VerticalOpen"@ {
        Some("shaders/transitions/VerticalOpen.glsl"@)
    } else if name == "WaterDrop"@ {
        Some("shaders/transitions/WaterDrop.glsl"@)
    } else if name == "wind"@ {
        Some("shaders/transitions/wind.glsl"@)
    } else if name == "windowblinds"@ {
        Some("shaders/transitions/windowblinds.glsl"@)
    } else if name == "windowslice"@ {
        Some("shaders/transitions/windowslice.glsl"@)
    } else if name == "wipeDown"@ {
        Some("shaders/transitions/wipeDown.glsl"@)
    } else if name == "wipeLeft"@ {
        Some("shaders/transitions/wipeLeft.glsl"@)
    } else if name == "wipeRight"@ {
        Some("shaders/transitions/wipeRight.glsl"@)
    } else if name == "wipeUp"@ {
        Some("shaders/transitions/wipeUp.glsl"@)
    } else if name == "x_axis_translation"@ {
        Some("shaders/transitions/x_axis_translation.glsl"@)
    } else if name == "ZoomInCircles"@ {
        Some("shaders/transitions/ZoomInCircles.glsl"@)
    } else if name == "ZoomLeftWipe"@ {
        Some("shaders/transitions/ZoomLeftWipe.glsl"@)
    } else if name == "ZoomRigthWipe"@ {
        Some("shaders/transitions/ZoomRigthWipe.glsl"@)
    } else {
        None
    }
}

/// Declarations that feed the uniforms of an effect's source from the parameter block.
pub open spec fn mapping_of(transition: Transition) -> Seq<char> {
    match transition {
        Transition::Angular => "float startingAngle = getFromParams(0);"@,
        Transition::Bounce => "vec4 shadow_colour = vec4(getFromParams(0), getFromParams(1), getFromParams(2), getFromParams(3)); float shadow_height = getFromParams(4); float bounces = getFromParams(5);"@,
        Transition::BowTieWithParameter => "float adjust = getFromParams(0); bool reverse = getFromParams(1) > 0.5;"@,
        Transition::Burn => "vec3 color = vec3(0.9, 0.4, 0.2);"@,
        Transition::ButterflyWaveScrawler => "float amplitude = getFromParams(0); float waves = getFromParams(1); float colorSeparation = getFromParams(2);"@,
        Transition::Circle => "vec2 center = vec2(0.5, 0.5); vec3 backColor = vec3(0.1, 0.1, 0.1);"@,
        Transition::CircleCrop => "vec4 bgcolor = vec4(getFromParams(0), getFromParams(1), getFromParams(2), getFromParams(3));"@,
        Transition::CircleOpen => "float smoothness = getFromParams(0); bool opening = getFromParams(1) > 0.5;"@,
        Transition::ColorPhase => "vec4 fromStep = vec4(0.0, 0.2, 0.4, 0.0); vec4 toStep = vec4(0.6, 0.8, 1.0, 1.0);"@,
        Transition::CoordFromIn => ""@,
        Transition::CrazyParametricFun => "float a = getFromParams(0); float b = getFromParams(1); float amplitude = getFromParams(2); float smoothness = getFromParams(3);"@,
        Transition::ColourDistance => "float power = getFromParams(0);"@,
        Transition::CrossHatch => "vec2 center = vec2(0.5); float threshold = 3.0; float fadeEdge = 0.1;"@,
        Transition::CrossZoom => "float strength = getFromParams(0);"@,
        Transition::CrossWarp => ""@,
        Transition::Cube => "float persp = getFromParams(0); float unzoom = getFromParams(1); float reflection = getFromParams(2); float floating = getFromParams(3);"@,
        Transition::Directional => "vec2 direction = vec2(getFromParams(0), getFromParams(1));"@,
        Transition::DirectionalEasing => "vec2 direction = vec2(getFromParams(0), getFromParams(1));"@,
        Transition::DirectionalScaled => "vec2 direction = vec2(getFromParams(0), getFromParams(1)); float scale = getFromParams(2);"@,
        Transition::DirectionalWarp => "vec2 direction = vec2(getFromParams(0), getFromParams(1)); float smoothness = getFromParams(2);"@,
        Transition::DirectionalWipe => "vec2 direction = vec2(getFromParams(0), getFromParams(1)); float smoothness = getFromParams(2);"@,
        Transition::Displacement => "float strength = 0.5; #define displacementMap t_next"@,
        Transition::Dissolve => "float uLineWidth = getFromParams(0); vec3 uSpreadClr = vec3(getFromParams(1), getFromParams(2), getFromParams(3)); vec3 uHotClr = vec3(getFromParams(4), getFromParams(5), getFromParams(6)); float uPow = getFromParams(7); float uIntensity = getFromParams(8);"@,
        Transition::Doom => "int bars = int(getFromParams(0)); float amplitude = getFromParams(1); float noise = getFromParams(2); float frequency = getFromParams(3); float dripScale = getFromParams(4);"@,
        Transition::Doorway => "float reflection = getFromParams(0); float perspective = getFromParams(1); float depth = getFromParams(2);"@,
        Transition::DreamyZoom => "float rotation = getFromParams(0); float scale = getFromParams(1);"@,
        Transition::Edge => "float thickness = getFromParams(0); float brightness = getFromParams(1);"@,
        Transition::FadeColor => "vec3 color = vec3(getFromParams(0), getFromParams(1), getFromParams(2)); float colorPhase = getFromParams(3);"@,
        Transition::FadeGrayscale => "float intensity = getFromParams(0);"@,
        Transition::FilmBurn => "float seed = getFromParams(0);"@,
        Transition::FlyEye => "float size = getFromParams(0); float zoom = getFromParams(1); float colorSeparation = getFromParams(2);"@,
        Transition::GridFlip => "ivec2 size = ivec2(int(getFromParams(0)), int(getFromParams(1))); float pause = getFromParams(2); float divider_width = getFromParams(3); vec4 bgcolor = vec4(getFromParams(4), getFromParams(5), getFromParams(6), getFromParams(7)); float randomness = getFromParams(8);"@,
        Transition::Hexagonalize => "int steps = int(getFromParams(0)); float horizontalHexagons = getFromParams(1);"@,
        Transition::Kaleidoscope => "float speed = getFromParams(0); float angle = getFromParams(1); float power = getFromParams(2);"@,
        Transition::LinearBlur => "float intensity = getFromParams(0);"@,
        Transition::LuminanceMelt => "bool direction = getFromParams(0) > 0.5; float l_threshold = getFromParams(1); bool above = false;"@,
        Transition::Morph => "float strength = getFromParams(0);"@,
        Transition::Mosaic => "int endx = int(getFromParams(0)); int endy = int(getFromParams(1));"@,
        Transition::MosaicTransition => "float mosaicNum = getFromParams(0);"@,
        Transition::Perlin => "float scale = getFromParams(0); float smoothness = getFromParams(1); float seed = getFromParams(2);"@,
        Transition::Pinwheel => "float speed = getFromParams(0);"@,
        Transition::Pixelize => "ivec2 squaresMin = ivec2(int(getFromParams(0)), int(getFromParams(1))); int steps = int(getFromParams(2));"@,
        Transition::PolarFunction => "int segments = int(getFromParams(0));"@,
        Transition::PolkaDotsCurtain => "float dots = getFromParams(0); vec2 center = vec2(getFromParams(1), getFromParams(2));"@,
        Transition::PowerKaleido => "float scale = getFromParams(0); float z = getFromParams(1); float speed = getFromParams(2);"@,
        Transition::Radial => "float smoothness = getFromParams(0);"@,
        Transition::RandomSquares => "ivec2 size = ivec2(int(getFromParams(0)), int(getFromParams(1))); float smoothness = getFromParams(2);"@,
        Transition::Rectangle => "vec4 bgcolor = vec4(getFromParams(0), getFromParams(1), getFromParams(2), getFromParams(3));"@,
        Transition::RectangleCrop => "vec4 bgcolor = vec4(getFromParams(0), getFromParams(1), getFromParams(2), getFromParams(3));"@,
        Transition::Ripple => "float amplitude = getFromParams(0); float speed = getFromParams(1);"@,
        Transition::Rolls => "int type = int(getFromParams(0)); bool RotDown = getFromParams(1) > 0.5;"@,
        Transition::Rotate => ""@,
        Transition::RotateScaleFade => "vec2 center = vec2(getFromParams(0), getFromParams(1)); float rotations = getFromParams(2); float scale = getFromParams(3); vec4 backColor = vec4(getFromParams(4), getFromParams(5), getFromParams(6), getFromParams(7));"@,
        Transition::RotateScaleVanish => "bool FadeInSecond = getFromParams(0) > 0.5; bool ReverseEffect = getFromParams(1) > 0.5; bool ReverseRotation = getFromParams(2) > 0.5;"@,
        Transition::ScaleIn => ""@,
        Transition::SimpleZoom => "float zoom_quickness = getFromParams(0);"@,
        Transition::SimpleZoomOut => "float zoom_quickness = getFromParams(0); bool fade = getFromParams(1) > 0.5;"@,
        Transition::Slides => "int type = int(getFromParams(0)); bool In = getFromParams(1) > 0.5;"@,
        Transition::Squeeze => "float colorSeparation = getFromParams(0);"@,
        Transition::StaticFade => "float n_noise_pixels = getFromParams(0); float static_luminosity = getFromParams(1);"@,
        Transition::StaticWipe => "bool u_transitionUpToDown = getFromParams(0) > 0.5; float u_max_static_span = getFromParams(1);"@,
        Transition::StereoViewer => "float zoom = getFromParams(0); float corner_radius = getFromParams(1);"@,
        Transition::Swap => "float reflection = getFromParams(0); float perspective = getFromParams(1); float depth = getFromParams(2);"@,
        Transition::TvStatic => "float offset = getFromParams(0);"@,
        Transition::UndulatingBurnOut => "float smoothness = getFromParams(0); vec2 center = vec2(getFromParams(1), getFromParams(2)); vec3 color = vec3(getFromParams(3), getFromParams(4), getFromParams(5));"@,
        Transition::WaterDrop => "float amplitude = getFromParams(0); float speed = getFromParams(1);"@,
        Transition::Wind => "float size = getFromParams(0);"@,
        Transition::WindowSlice => "float count = getFromParams(0); float smoothness = getFromParams(1);"@,
        Transition::ZoomLeftWipe => "float zoom_quickness = getFromParams(0);"@,
        Transition::ZoomRightWipe => "float zoom_quickness = getFromParams(0);"@,
        _ => ""@,
    }
}

/// What `builtin_request` answers for an effect: nothing where its name has
/// no built-in source, else its source and mapping; the luma effect gets the
/// source of the fade and no mapping.
pub open spec fn request_of(transition: Transition) -> Option<(Seq<char>, Seq<char>, Seq<char>)> {
    match builtin_asset(transition.spec_name()) {
        None => None,
        Some(asset) => match transition {
            Transition::Luma => Some(("fade"@, builtin_asset("fade"@).unwrap(), ""@)),
            _ => Some((transition.spec_name(), asset, mapping_of(transition))),
        },
    }
}

/// The effect whose shader is compiled for `transition`: the lot stands for the fade.
pub open spec fn shader_effect(transition: Transition) -> Transition {
    match transition {
        Transition::Random => Transition::Fade,
        _ => transition,
    }
}

/// Which shader is used, given how compiling the effect's own went and, where
/// that failed, how compiling the fade went.
pub open spec fn choice_of(
    primary: Result<String, ShaderError>,
    fallback: Result<String, ShaderError>,
) -> ShaderChoice {
    match primary {
        Ok(wgsl) => ShaderChoice::Primary { wgsl },
        Err(failure) => match fallback {
            Ok(wgsl) => ShaderChoice::Fallback { wgsl, failure },
            Err(fallback_failure) => ShaderChoice::Unavailable { failure, fallback_failure },
        },
    }
}

impl ShaderChoice {
    /// Whether the effect's own shader failed: a failure to be counted.
    pub open spec fn is_failure(self) -> bool {
        !(self is Primary)
    }

    /// Whether there is a shader to make a program from.
    pub open spec fn has_shader(self) -> bool {
        !(self is Unavailable)
    }
}

impl ShaderManager {
    /// Path of the asset that holds the GLSL source of the built-in effect
    /// `name`, or `None` where there is no such effect. Names are case sensitive.
    pub fn get_builtin_glsl(name: &str) -> (asset: Option<&'static str>)
        ensures
            match asset {
                Some(path) => builtin_asset(name@) == Some(path@),
                None => builtin_asset(name@).is_none(),
            },
    {
        if str_eq(name, "Angular") {
            Some("shaders/transitions/angular.glsl")
        } else if str_eq(name, "BookFlip") {
            Some("shaders/transitions/BookFlip.glsl")
        } else if str_eq(name, "Bounce") {
            Some("shaders/transitions/Bounce.glsl")
        } else if str_eq(name, "BowTieHorizontal") {
            Some("shaders/transitions/BowTieHorizontal.glsl")
        } else if str_eq(name, "BowTieVertical") {
            Some("shaders/transitions/BowTieVertical.glsl")
        } else if str_eq(name, "BowTieWithParameter") {
            Some("shaders/transitions/BowTieWithParameter.glsl")
        } else if str_eq(name, "burn") {
            Some("shaders/transitions/burn.glsl")
        } else if str_eq(name, "ButterflyWaveScrawler") {
            Some("shaders/transitions/ButterflyWaveScrawler.glsl")
        } else if str_eq(name, "cannabisleaf") {
            Some("shaders/transitions/cannabisleaf.glsl")
        } else if str_eq(name, "circle") {
            Some("shaders/transitions/circle.glsl")
        } else if str_eq(name, "CircleCrop") {
            Some("shaders/transitions/CircleCrop.glsl")
        } else if str_eq(name, "circleopen") {
            Some("shaders/transitions/circleopen.glsl")
        } else if str_eq(name, "colorphase") {
            Some("shaders/transitions/colorphase.glsl")
        } else if str_eq(name, "coord-from-in") {
            Some("shaders/transitions/coord-from-in.glsl")
        } else if str_eq(name, "CrazyParametricFun") {
            Some("shaders/transitions/CrazyParametricFun.glsl")
        } else if str_eq(name, "ColourDistance") {
            Some("shaders/transitions/ColourDistance.glsl")
        } else if str_eq(name, "crosshatch") {
            Some("shaders/transitions/crosshatch.glsl")
        } else if str_eq(name, "crosswarp") {
            Some("shaders/transitions/crosswarp.glsl")
        } else if str_eq(name, "CrossZoom") {
            Some("shaders/transitions/CrossZoom.glsl")
        } else if str_eq(name, "cube") {
            Some("shaders/transitions/cube.glsl")
        } else if str_eq(name, "Directional") {
            Some("shaders/transitions/Directional.glsl")
        } else if str_eq(name, "directional-easing") {
            Some("shaders/transitions/directional-easing.glsl")
        } else if str_eq(name, "DirectionalScaled") {
            Some("shaders/transitions/DirectionalScaled.glsl")
        } else if str_eq(name, "directionalwarp") {
            Some("shaders/transitions/directionalwarp.glsl")
        } else if str_eq(name, "directionalwipe") {
            Some("shaders/transitions/directionalwipe.glsl")
        } else if str_eq(name, "displacement") {
            Some("shaders/transitions/displacement.glsl")
        } else if str_eq(name, "dissolve") {
            Some("shaders/transitions/dissolve.glsl")
        } else if str_eq(name, "DoomScreenTransition") {
            Some("shaders/transitions/DoomScreenTransition.glsl")
        } else if str_eq(name, "doorway") {
            Some("shaders/transitions/doorway.glsl")
        } else if str_eq(name, "Dreamy") {
            Some("shaders/transitions/Dreamy.glsl")
        } else if str_eq(name, "DreamyZoom") {
            Some("shaders/transitions/DreamyZoom.glsl")
        } else if str_eq(name, "EdgeTransition") {
            Some("shaders/transitions/EdgeTransition.glsl")
        } else if str_eq(name, "fade") {
            Some("shaders/transitions/fade.glsl")
        } else if str_eq(name, "fadecolor") {
            Some("shaders/transitions/fadecolor.glsl")
        } else if str_eq(name, "fadegrayscale") {
            Some("shaders/transitions/fadegrayscale.glsl")
        } else if str_eq(name, "FilmBurn") {
            Some("shaders/transitions/FilmBurn.glsl")
        } else if str_eq(name, "flyeye") {
            Some("shaders/transitions/flyeye.glsl")
        } else if str_eq(name, "GlitchDisplace") {
            Some("shaders/transitions/GlitchDisplace.glsl")
        } else if str_eq(name, "GlitchMemories") {
            Some("shaders/transitions/GlitchMemories.glsl")
        } else if str_eq(name, "GridFlip") {
            Some("shaders/transitions/GridFlip.glsl")
        } else if str_eq(name, "heart") {
            Some("shaders/transitions/heart.glsl")
        } else if str_eq(name, "hexagonalize") {
            Some("shaders/transitions/hexagonalize.glsl")
        } else if str_eq(name, "HorizontalClose") {
            Some("shaders/transitions/HorizontalClose.glsl")
        } else if str_eq(name, "HorizontalOpen") {
            Some("shaders/transitions/HorizontalOpen.glsl")
        } else if str_eq(name, "InvertedPageCurl") {
            Some("shaders/transitions/InvertedPageCurl.glsl")
        } else if str_eq(name, "kaleidoscope") {
            Some("shaders/transitions/kaleidoscope.glsl")
        } else if str_eq(name, "LeftRight") {
            Some("shaders/transitions/LeftRight.glsl")
        } else if str_eq(name, "LinearBlur") {
            Some("shaders/transitions/LinearBlur.glsl")
        } else if str_eq(name, "luma") {
            Some("shaders/transitions/luma.glsl")
        } else if str_eq(name, "luminance_melt") {
            Some("shaders/transitions/luminance_melt.glsl")
        } else if str_eq(name, "morph") {
            Some("shaders/transitions/morph.glsl")
        } else if str_eq(name, "Mosaic") {
            Some("shaders/transitions/Mosaic.glsl")
        } else if str_eq(name, "mosaic_transition") {
            Some("shaders/transitions/mosaic_transition.glsl")
        } else if str_eq(name, "multiply_blend") {
            Some("shaders/transitions/multiply_blend.glsl")
        } else if str_eq(name, "Overexposure") {
            Some("shaders/transitions/Overexposure.glsl")
        } else if str_eq(name, "perlin") {
            Some("shaders/transitions/perlin.glsl")
        } else if str_eq(name, "pinwheel") {
            Some("shaders/transitions/pinwheel.glsl")
        } else if str_eq(name, "pixelize") {
            Some("shaders/transitions/pixelize.glsl")
        } else if str_eq(name, "polar_function") {
            Some("shaders/transitions/polar_function.glsl")
        } else if str_eq(name, "PolkaDotsCurtain") {
            Some("shaders/transitions/PolkaDotsCurtain.glsl")
        } else if str_eq(name, "powerKaleido") {
            Some("shaders/transitions/powerKaleido.glsl")
        } else if str_eq(name, "Radial") {
            Some("shaders/transitions/Radial.glsl")
        } else if str_eq(name, "randomNoisex") {
            Some("shaders/transitions/randomNoisex.glsl")
        } else if str_eq(name, "randomsquares") {
            Some("shaders/transitions/randomsquares.glsl")
        } else if str_eq(name, "Rectangle") {
            Some("shaders/transitions/Rectangle.glsl")
        } else if str_eq(name, "RectangleCrop") {
            Some("shaders/transitions/RectangleCrop.glsl")
        } else if str_eq(name, "ripple") {
            Some("shaders/transitions/ripple.glsl")
        } else if str_eq(name, "Rolls") {
            Some("shaders/transitions/Rolls.glsl")
        } else if str_eq(name, "rotateTransition") {
            Some("shaders/transitions/rotateTransition.glsl")
        } else if str_eq(name, "rotate_scale_fade") {
            Some("shaders/transitions/rotate_scale_fade.glsl")
        } else if str_eq(name, "RotateScaleVanish") {
            Some("shaders/transitions/RotateScaleVanish.glsl")
        } else if str_eq(name, "scale-in") {
            Some("shaders/transitions/scale-in.glsl")
        } else if str_eq(name, "SimpleZoom") {
            Some("shaders/transitions/SimpleZoom.glsl")
        } else if str_eq(name, "SimpleZoomOut") {
            Some("shaders/transitions/SimpleZoomOut.glsl")
        } else if str_eq(name, "Slides") {
            Some("shaders/transitions/Slides.glsl")
        } else if str_eq(name, "squareswire") {
            Some("shaders/transitions/squareswire.glsl")
        } else if str_eq(name, "squeeze") {
            Some("shaders/transitions/squeeze.glsl")
        } else if str_eq(name, "StaticFade") {
            Some("shaders/transitions/StaticFade.glsl")
        } else if str_eq(name, "static_wipe") {
            Some("shaders/transitions/static_wipe.glsl")
        } else if str_eq(name, "StereoViewer") {
            Some("shaders/transitions/StereoViewer.glsl")
        } else if str_eq(name, "swap") {
            Some("shaders/transitions/swap.glsl")
        } else if str_eq(name, "Swirl") {
            Some("shaders/transitions/Swirl.glsl")
        } else if str_eq(name, "tangentMotionBlur") {
            Some("shaders/transitions/tangentMotionBlur.glsl")
        } else if str_eq(name, "TopBottom") {
            Some("shaders/transitions/TopBottom.glsl")
        } else if str_eq(name, "TVStatic") {
            Some("shaders/transitions/TVStatic.glsl")
        } else if str_eq(name, "undulatingBurnOut") {
            Some("shaders/transitions/undulatingBurnOut.glsl")
        } else if str_eq(name, "VerticalClose") {
            Some("shaders/transitions/VerticalClose.glsl")
        } else if str_eq(name, "VerticalOpen") {
            Some("shaders/transitions/VerticalOpen.glsl")
        } else if str_eq(name, "WaterDrop") {
            Some("shaders/transitions/WaterDrop.glsl")
        } else if str_eq(name, "wind") {
            Some("shaders/transitions/wind.glsl")
        } else if str_eq(name, "windowblinds") {
            Some("shaders/transitions/windowblinds.glsl")
        } else if str_eq(name, "windowslice") {
            Some("shaders/transitions/windowslice.glsl")
        } else if str_eq(name, "wipeDown") {
            Some("shaders/transitions/wipeDown.glsl")
        } else if str_eq(name, "wipeLeft") {
            Some("shaders/transitions/wipeLeft.glsl")
        } else if str_eq(name, "wipeRight") {
            Some("shaders/transitions/wipeRight.glsl")
        } else if str_eq(name, "wipeUp") {
            Some("shaders/transitions/wipeUp.glsl")
        } else if str_eq(name, "x_axis_translation") {
            Some("shaders/transitions/x_axis_translation.glsl")
        } else if str_eq(name, "ZoomInCircles") {
            Some("shaders/transitions/ZoomInCircles.glsl")
        } else if str_eq(name, "ZoomLeftWipe") {
            Some("shaders/transitions/ZoomLeftWipe.glsl")
        } else if str_eq(name, "ZoomRigthWipe") {
            Some("shaders/transitions/ZoomRigthWipe.glsl")
        } else {
            None
        }
    }

    /// Declarations that feed the uniforms of an effect's source from the
    /// parameter block; empty for an effect without parameters.
    pub fn builtin_mapping(transition: &Transition) -> (mapping: &'static str)
        ensures
            mapping@ == mapping_of(*transition),
    {
        match transition {
            Transition::Angular => "float startingAngle = getFromParams(0);",
            Transition::Bounce => "vec4 shadow_colour = vec4(getFromParams(0), getFromParams(1), getFromParams(2), getFromParams(3)); float shadow_height = getFromParams(4); float bounces = getFromParams(5);",
            Transition::BowTieWithParameter => "float adjust = getFromParams(0); bool reverse = getFromParams(1) > 0.5;",
            Transition::Burn => "vec3 color = vec3(0.9, 0.4, 0.2);",
            Transition::ButterflyWaveScrawler => "float amplitude = getFromParams(0); float waves = getFromParams(1); float colorSeparation = getFromParams(2);",
            Transition::Circle => "vec2 center = vec2(0.5, 0.5); vec3 backColor = vec3(0.1, 0.1, 0.1);",
            Transition::CircleCrop => "vec4 bgcolor = vec4(getFromParams(0), getFromParams(1), getFromParams(2), getFromParams(3));",
            Transition::CircleOpen => "float smoothness = getFromParams(0); bool opening = getFromParams(1) > 0.5;",
            Transition::ColorPhase => "vec4 fromStep = vec4(0.0, 0.2, 0.4, 0.0); vec4 toStep = vec4(0.6, 0.8, 1.0, 1.0);",
            Transition::CoordFromIn => "",
            Transition::CrazyParametricFun => "float a = getFromParams(0); float b = getFromParams(1); float amplitude = getFromParams(2); float smoothness = getFromParams(3);",
            Transition::ColourDistance => "float power = getFromParams(0);",
            Transition::CrossHatch => "vec2 center = vec2(0.5); float threshold = 3.0; float fadeEdge = 0.1;",
            Transition::CrossZoom => "float strength = getFromParams(0);",
            Transition::CrossWarp => "",
            Transition::Cube => "float persp = getFromParams(0); float unzoom = getFromParams(1); float reflection = getFromParams(2); float floating = getFromParams(3);",
            Transition::Directional => "vec2 direction = vec2(getFromParams(0), getFromParams(1));",
            Transition::DirectionalEasing => "vec2 direction = vec2(getFromParams(0), getFromParams(1));",
            Transition::DirectionalScaled => "vec2 direction = vec2(getFromParams(0), getFromParams(1)); float scale = getFromParams(2);",
            Transition::DirectionalWarp => "vec2 direction = vec2(getFromParams(0), getFromParams(1)); float smoothness = getFromParams(2);",
            Transition::DirectionalWipe => "vec2 direction = vec2(getFromParams(0), getFromParams(1)); float smoothness = getFromParams(2);",
            Transition::Displacement => "float strength = 0.5; #define displacementMap t_next",
            Transition::Dissolve => "float uLineWidth = getFromParams(0); vec3 uSpreadClr = vec3(getFromParams(1), getFromParams(2), getFromParams(3)); vec3 uHotClr = vec3(getFromParams(4), getFromParams(5), getFromParams(6)); float uPow = getFromParams(7); float uIntensity = getFromParams(8);",
            Transition::Doom => "int bars = int(getFromParams(0)); float amplitude = getFromParams(1); float noise = getFromParams(2); float frequency = getFromParams(3); float dripScale = getFromParams(4);",
            Transition::Doorway => "float reflection = getFromParams(0); float perspective = getFromParams(1); float depth = getFromParams(2);",
            Transition::DreamyZoom => "float rotation = getFromParams(0); float scale = getFromParams(1);",
            Transition::Edge => "float thickness = getFromParams(0); float brightness = getFromParams(1);",
            Transition::FadeColor => "vec3 color = vec3(getFromParams(0), getFromParams(1), getFromParams(2)); float colorPhase = getFromParams(3);",
            Transition::FadeGrayscale => "float intensity = getFromParams(0);",
            Transition::FilmBurn => "float seed = getFromParams(0);",
            Transition::FlyEye => "float size = getFromParams(0); float zoom = getFromParams(1); float colorSeparation = getFromParams(2);",
            Transition::GridFlip => "ivec2 size = ivec2(int(getFromParams(0)), int(getFromParams(1))); float pause = getFromParams(2); float divider_width = getFromParams(3); vec4 bgcolor = vec4(getFromParams(4), getFromParams(5), getFromParams(6), getFromParams(7)); float randomness = getFromParams(8);",
            Transition::Hexagonalize => "int steps = int(getFromParams(0)); float horizontalHexagons = getFromParams(1);",
            Transition::Kaleidoscope => "float speed = getFromParams(0); float angle = getFromParams(1); float power = getFromParams(2);",
            Transition::LinearBlur => "float intensity = getFromParams(0);",
            Transition::LuminanceMelt => "bool direction = getFromParams(0) > 0.5; float l_threshold = getFromParams(1); bool above = false;",
            Transition::Morph => "float strength = getFromParams(0);",
            Transition::Mosaic => "int endx = int(getFromParams(0)); int endy = int(getFromParams(1));",
            Transition::MosaicTransition => "float mosaicNum = getFromParams(0);",
            Transition::Perlin => "float scale = getFromParams(0); float smoothness = getFromParams(1); float seed = getFromParams(2);",
            Transition::Pinwheel => "float speed = getFromParams(0);",
            Transition::Pixelize => "ivec2 squaresMin = ivec2(int(getFromParams(0)), int(getFromParams(1))); int steps = int(getFromParams(2));",
            Transition::PolarFunction => "int segments = int(getFromParams(0));",
            Transition::PolkaDotsCurtain => "float dots = getFromParams(0); vec2 center = vec2(getFromParams(1), getFromParams(2));",
            Transition::PowerKaleido => "float scale = getFromParams(0); float z = getFromParams(1); float speed = getFromParams(2);",
            Transition::Radial => "float smoothness = getFromParams(0);",
            Transition::RandomSquares => "ivec2 size = ivec2(int(getFromParams(0)), int(getFromParams(1))); float smoothness = getFromParams(2);",
            Transition::Rectangle => "vec4 bgcolor = vec4(getFromParams(0), getFromParams(1), getFromParams(2), getFromParams(3));",
            Transition::RectangleCrop => "vec4 bgcolor = vec4(getFromParams(0), getFromParams(1), getFromParams(2), getFromParams(3));",
            Transition::Ripple => "float amplitude = getFromParams(0); float speed = getFromParams(1);",
            Transition::Rolls => "int type = int(getFromParams(0)); bool RotDown = getFromParams(1) > 0.5;",
            Transition::Rotate => "",
            Transition::RotateScaleFade => "vec2 center = vec2(getFromParams(0), getFromParams(1)); float rotations = getFromParams(2); float scale = getFromParams(3); vec4 backColor = vec4(getFromParams(4), getFromParams(5), getFromParams(6), getFromParams(7));",
            Transition::RotateScaleVanish => "bool FadeInSecond = getFromParams(0) > 0.5; bool ReverseEffect = getFromParams(1) > 0.5; bool ReverseRotation = getFromParams(2) > 0.5;",
            Transition::ScaleIn => "",
            Transition::SimpleZoom => "float zoom_quickness = getFromParams(0);",
            Transition::SimpleZoomOut => "float zoom_quickness = getFromParams(0); bool fade = getFromParams(1) > 0.5;",
            Transition::Slides => "int type = int(getFromParams(0)); bool In = getFromParams(1) > 0.5;",
            Transition::Squeeze => "float colorSeparation = getFromParams(0);",
            Transition::StaticFade => "float n_noise_pixels = getFromParams(0); float static_luminosity = getFromParams(1);",
            Transition::StaticWipe => "bool u_transitionUpToDown = getFromParams(0) > 0.5; float u_max_static_span = getFromParams(1);",
            Transition::StereoViewer => "float zoom = getFromParams(0); float corner_radius = getFromParams(1);",
            Transition::Swap => "float reflection = getFromParams(0); float perspective = getFromParams(1); float depth = getFromParams(2);",
            Transition::TvStatic => "float offset = getFromParams(0);",
            Transition::UndulatingBurnOut => "float smoothness = getFromParams(0); vec2 center = vec2(getFromParams(1), getFromParams(2)); vec3 color = vec3(getFromParams(3), getFromParams(4), getFromParams(5));",
            Transition::WaterDrop => "float amplitude = getFromParams(0); float speed = getFromParams(1);",
            Transition::Wind => "float size = getFromParams(0);",
            Transition::WindowSlice => "float count = getFromParams(0); float smoothness = getFromParams(1);",
            Transition::ZoomLeftWipe => "float zoom_quickness = getFromParams(0);",
            Transition::ZoomRightWipe => "float zoom_quickness = getFromParams(0);",
            _ => "",
        }
    }

    /// Says what is needed to compile the shader of a built-in effect.
    ///
    /// The effect is looked up by its name; an effect without a built-in
    /// source is an error. The luma effect needs a second texture that the
    /// engine does not bind, so it is compiled as a fade.
    pub fn builtin_request(transition: &Transition) -> (request: Result<ShaderRequest, ShaderError>)
        ensures
            match request {
                Ok(r) => request_of(*transition) == Some((r.name@, r.asset@, r.mapping@)),
                Err(e) => request_of(*transition).is_none() && (e matches ShaderError::NotFound {
                    name,
                } && name@ == transition.spec_name()),
            },
    {
        let name = transition.name();
        match ShaderManager::get_builtin_glsl(name.as_str()) {
            None => Err(ShaderError::NotFound { name }),
            Some(asset) => match transition {
                Transition::Luma => {
                    match ShaderManager::get_builtin_glsl("fade") {
                        Some(fade_asset) => Ok(
                            ShaderRequest {
                                name: String::from_str("fade"),
                                asset: fade_asset,
                                mapping: "",
                            },
                        ),
                        None => Err(ShaderError::NotFound { name }),
                    }
                },
                _ => Ok(
                    ShaderRequest {
                        name,
                        asset,
                        mapping: ShaderManager::builtin_mapping(transition),
                    },
                ),
            },
        }
    }

    /// Picks the shader to use once it is known how compiling went. `fallback`
    /// is looked at only where `primary` failed.
    pub fn choose_shader(
        primary: Result<String, ShaderError>,
        fallback: Result<String, ShaderError>,
    ) -> (choice: ShaderChoice)
        ensures
            choice == choice_of(primary, fallback),
    {
        match primary {
            Ok(wgsl) => ShaderChoice::Primary { wgsl },
            Err(failure) => match fallback {
                Ok(wgsl) => ShaderChoice::Fallback { wgsl, failure },
                Err(fallback_failure) => ShaderChoice::Unavailable { failure, fallback_failure },
            },
        }
    }
}

/// The complete GLSL source of an effect, put together from the effect's own
/// source and from the mapping that feeds its uniforms: the statements of
/// the mapping as definitions, the source without its uniform declarations,
/// and prelude and entry point around both.
pub open spec fn glsl_of(user_code: Seq<char>, params_mapping: Seq<char>) -> Seq<char> {
    assembled(defines_of(params_mapping), uniforms_stripped(user_code))
}

/// The whole GLSL source of an effect: the prelude, the declarations that
/// feed its uniforms, its own source, and the entry point, each on lines of its own.
pub open spec fn assembled(defines: Seq<char>, body: Seq<char>) -> Seq<char> {
    GLSL_PRELUDE@ + "\n"@ + defines + "\n"@ + body + "\n"@ + GLSL_ENTRY_POINT@
}

impl ShaderError {
    /// Name of the shader that could not be had.
    pub open spec fn shader_name(self) -> Seq<char> {
        match self {
            ShaderError::NotFound { name } => name@,
            ShaderError::Parse { name, .. } => name@,
            ShaderError::Validation { name, .. } => name@,
            ShaderError::Generation { name, .. } => name@,
        }
    }

    /// Name of the shader that could not be had.
    pub fn name(&self) -> (n: &str)
        ensures
            n@ == self.shader_name(),
    {
        match self {
            ShaderError::NotFound { name } => name.as_str(),
            ShaderError::Parse { name, .. } => name.as_str(),
            ShaderError::Validation { name, .. } => name.as_str(),
            ShaderError::Generation { name, .. } => name.as_str(),
        }
    }
}

impl ShaderManager {
    /// Puts the GLSL source of an effect together from the declarations that
    /// feed its uniforms and from its own source.
    pub fn assemble_glsl(defines: &str, body: &str) -> (source: String)
        ensures
            source@ == assembled(defines@, body@),
    {
        let mut source = String::from_str(GLSL_PRELUDE);
        source.append("\n");
        source.append(defines);
        source.append("\n");
        source.append(body);
        source.append("\n");
        source.append(GLSL_ENTRY_POINT);
        source
    }

    /// Puts the complete GLSL source of an effect together from the effect's
    /// own source and from the mapping that feeds its uniforms.
    ///
    /// Each statement of the mapping becomes a line of definitions, the
    /// uniform declarations of the source are commented out, and prelude and
    /// entry point are put around both.
    pub fn glsl_source(user_code: &str, params_mapping: &str) -> (source: String)
        ensures
            source@ == glsl_of(user_code@, params_mapping@),
    {
        let defines = defines_for(params_mapping);
        let body = strip_uniforms(user_code);
        ShaderManager::assemble_glsl(defines.as_str(), body.as_str())
    }

    /// Says what is handed to the compiler for the shader called `name`:
    /// the complete source, put together from the effect's own source and
    /// its mapping. An effect whose source could not be had is not compiled:
    /// it counts as not found.
    pub fn compile_job(name: &str, user_code: Option<&str>, params_mapping: &str) -> (job: Result<
        String,
        ShaderError,
    >)
        ensures
            match job {
                Ok(source) => user_code matches Some(code) && source@ == glsl_of(
                    code@,
                    params_mapping@,
                ),
                Err(e) => user_code.is_none() && (e matches ShaderError::NotFound { name: missing }
                    && missing@ == name@),
            },
    {
        match user_code {
            Some(code) => Ok(ShaderManager::glsl_source(code, params_mapping)),
            None => Err(ShaderError::NotFound { name: String::from_str(name) }),
        }
    }

    /// Whether the fade has to be compiled: only where the effect's own
    /// shader could not be had.
    pub fn needs_fallback(own: &Result<String, ShaderError>) -> (needed: bool)
        ensures
            needed == (*own is Err),
            !needed ==> forall|fade: Result<String, ShaderError>|
                #[trigger] choice_of(*own, fade) is Primary,
    {
        match own {
            Ok(_) => false,
            Err(_) => true,
        }
    }

    /// Says where the shader of an effect comes from: a user's own effect
    /// has its source with the user, the lot is drawn as a fade, and every
    /// other effect is built in.
    pub fn get_shader(transition: &Transition) -> (source: Result<ShaderSource, ShaderError>)
        ensures
            match *transition {
                Transition::Custom { shader } => source matches Ok(
                    ShaderSource::External { shader: name },
                ) && name@ == shader@,
                _ => match source {
                    Ok(ShaderSource::Builtin { request }) => request_of(shader_effect(*transition))
                        == Some((request.name@, request.asset@, request.mapping@)),
                    Ok(ShaderSource::External { .. }) => false,
                    Err(e) => request_of(shader_effect(*transition)).is_none() && (
                    e matches ShaderError::NotFound { name } && name@ == shader_effect(
                        *transition,
                    ).spec_name()),
                },
            },
    {
        match transition {
            Transition::Custom { shader } => Ok(ShaderSource::External { shader: shader.clone() }),
            Transition::Random => match ShaderManager::builtin_request(&Transition::Fade) {
                Ok(request) => Ok(ShaderSource::Builtin { request }),
                Err(e) => Err(e),
            },
            _ => match ShaderManager::builtin_request(transition) {
                Ok(request) => Ok(ShaderSource::Builtin { request }),
                Err(e) => Err(e),
            },
        }
    }
}

/// Every effect of the catalogue but the angular one has a built-in source
/// under the name it reports. (The lot and the user's own effects are no
/// built-in effects.)
pub proof fn lemma_catalogue_effects_have_sources(transition: Transition)
    requires
        !(transition is Angular),
        !(transition is Random),
        !(transition is Custom),
    ensures
        builtin_asset(transition.spec_name()).is_some(),
        request_of(transition).is_some(),
{
}

/// An effect whose own shader fails is settled once: the choice is the
/// fade with the failure of the effect; the program made of it is kept under
/// the name that was asked for, so that the next request for that name is
/// served from the cache; and the failure is counted once.
pub proof fn lemma_failing_effect_is_settled_once<P>(
    cache: Seq<(Seq<char>, P)>,
    max_size: nat,
    name: Seq<char>,
    failure: ShaderError,
    wgsl: String,
    program: P,
    failures: u64,
)
    requires
        crate::program_cache::distinct_keys(cache),
    ensures
        choice_of(Err(failure), Ok(wgsl)) == (ShaderChoice::Fallback { wgsl, failure }),
        choice_of(Err(failure), Ok(wgsl)).is_failure(),
        choice_of(Err(failure), Ok(wgsl)).has_shader(),
        crate::program_cache::lookup(
            crate::program_cache::after_insert(cache, max_size, name, program),
            name,
        ) == Some(program),
        failures < u64::MAX ==> crate::texture_pool::bumped(failures) == failures + 1,
{
    crate::program_cache::lemma_stored_program_is_found(cache, max_size, name, program);
}

} // verus!
