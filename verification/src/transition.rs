//! The catalogue of transition effects: which effects exist and what each is
//! called.
//!
//! An effect has two names. The one it is looked up by on the way in is lower
//! case and comes from configuration or from the control socket. The one it
//! reports is the name of its shader source, under which its compiled program
//! is cached. The numeric parameters of an effect are not part of the
//! catalogue: they travel to the GPU as floating-point uniforms and stay with
//! the code that fills the uniform buffer.

use crate::chance::random_below;
use crate::text::str_eq;
use crate::text::to_lowercase;
use crate::text::lowercase_of;
use vstd::prelude::*;
use vstd::string::*;

verus! {

/// A transition effect.
#[derive(Debug)]
pub enum Transition {
    Angular,
    BookFlip,
    Bounce,
    BowTieHorizontal,
    BowTieVertical,
    BowTieWithParameter,
    Burn,
    ButterflyWaveScrawler,
    CannabisLeaf,
    Circle,
    CircleCrop,
    CircleOpen,
    ColorPhase,
    CoordFromIn,
    CrazyParametricFun,
    ColourDistance,
    CrossHatch,
    CrossWarp,
    CrossZoom,
    Cube,
    Directional,
    DirectionalEasing,
    DirectionalScaled,
    DirectionalWarp,
    DirectionalWipe,
    Displacement,
    Dissolve,
    Doom,
    Doorway,
    Dreamy,
    DreamyZoom,
    Edge,
    Fade,
    FadeColor,
    FadeGrayscale,
    FilmBurn,
    FlyEye,
    GlitchDisplace,
    GlitchMemories,
    GridFlip,
    Heart,
    Hexagonalize,
    HorizontalClose,
    HorizontalOpen,
    InvertedPageCurl,
    Kaleidoscope,
    LeftRight,
    LinearBlur,
    Luma,
    LuminanceMelt,
    Morph,
    Mosaic,
    MosaicTransition,
    MultiplyBlend,
    Overexposure,
    Perlin,
    Pinwheel,
    Pixelize,
    PolarFunction,
    PolkaDotsCurtain,
    PowerKaleido,
    Radial,
    RandomNoiseX,
    RandomSquares,
    Rectangle,
    RectangleCrop,
    Ripple,
    Rolls,
    Rotate,
    RotateScaleFade,
    RotateScaleVanish,
    ScaleIn,
    SimpleZoom,
    SimpleZoomOut,
    Slides,
    SquaresWire,
    Squeeze,
    StaticFade,
    StaticWipe,
    StereoViewer,
    Swap,
    Swirl,
    TangentMotionBlur,
    TopBottom,
    TvStatic,
    UndulatingBurnOut,
    VerticalClose,
    VerticalOpen,
    WaterDrop,
    Wind,
    WindowBlinds,
    WindowSlice,
    WipeDown,
    WipeLeft,
    WipeRight,
    WipeUp,
    XAxisTranslation,
    ZoomInCircles,
    ZoomLeftWipe,
    ZoomRightWipe,
    /// Stands for an effect that is yet to be drawn by lot.
    Random,
    /// An effect whose shader source the user supplies, by the name of that source.
    Custom { shader: String },
}

/// How many lower-case names `pick_random` draws from.
pub const PICKABLE_COUNT: usize = 100;

/// The lower-case name that `pick_random` draws at position `index`.
pub open spec fn pickable_name(index: int) -> Seq<char> {
    if index == 0 {
        "angular"@
    } else if index == 1 {
        "bookflip"@
    } else if index == 2 {
        "bounce"@
    } else if index == 3 {
        "bowtiehorizontal"@
    } else if index == 4 {
        "bowtievertical"@
    } else if index == 5 {
        "bowtiewithparameter"@
    } else if index == 6 {
        "burn"@
    } else if index == 7 {
        "butterflywavescrawler"@
    } else if index == 8 {
        "cannabisleaf"@
    } else if index == 9 {
        "circle"@
    } else if index == 10 {
        "circlecrop"@
    } else if index == 11 {
        "circleopen"@
    } else if index == 12 {
        "colorphase"@
    } else if index == 13 {
        "coord-from-in"@
    } else if index == 14 {
        "crazyparametricfun"@
    } else if index == 15 {
        "colourdistance"@
    } else if index == 16 {
        "crosshatch"@
    } else if index == 17 {
        "crosswarp"@
    } else if index == 18 {
        "crosszoom"@
    } else if index == 19 {
        "cube"@
    } else if index == 20 {
        "directional"@
    } else if index == 21 {
        "directionaleasing"@
    } else if index == 22 {
        "directionalscaled"@
    } else if index == 23 {
        "directionalwarp"@
    } else if index == 24 {
        "directionalwipe"@
    } else if index == 25 {
        "displacement"@
    } else if index == 26 {
        "dissolve"@
    } else if index == 27 {
        "doom"@
    } else if index == 28 {
        "doorway"@
    } else if index == 29 {
        "dreamy"@
    } else if index == 30 {
        "dreamyzoom"@
    } else if index == 31 {
        "edge"@
    } else if index == 32 {
        "fade"@
    } else if index == 33 {
        "fadecolor"@
    } else if index == 34 {
        "fadegrayscale"@
    } else if index == 35 {
        "filmburn"@
    } else if index == 36 {
        "flyeye"@
    } else if index == 37 {
        "glitchdisplace"@
    } else if index == 38 {
        "glitchmemories"@
    } else if index == 39 {
        "gridflip"@
    } else if index == 40 {
        "heart"@
    } else if index == 41 {
        "hexagonalize"@
    } else if index == 42 {
        "horizontalclose"@
    } else if index == 43 {
        "horizontalopen"@
    } else if index == 44 {
        "invertedpagecurl"@
    } else if index == 45 {
        "kaleidoscope"@
    } else if index == 46 {
        "leftright"@
    } else if index == 47 {
        "linearblur"@
    } else if index == 48 {
        "luma"@
    } else if index == 49 {
        "luminancemelt"@
    } else if index == 50 {
        "morph"@
    } else if index == 51 {
        "mosaic"@
    } else if index == 52 {
        "mosaic_transition"@
    } else if index == 53 {
        "multiplyblend"@
    } else if index == 54 {
        "overexposure"@
    } else if index == 55 {
        "perlin"@
    } else if index == 56 {
        "pinwheel"@
    } else if index == 57 {
        "pixelize"@
    } else if index == 58 {
        "polarfunction"@
    } else if index == 59 {
        "polkadotscurtain"@
    } else if index == 60 {
        "powerkaleido"@
    } else if index == 61 {
        "radial"@
    } else if index == 62 {
        "randomnoisex"@
    } else if index == 63 {
        "randomsquares"@
    } else if index == 64 {
        "rectangle"@
    } else if index == 65 {
        "rectanglecrop"@
    } else if index == 66 {
        "ripple"@
    } else if index == 67 {
        "rolls"@
    } else if index == 68 {
        "rotate"@
    } else if index == 69 {
        "rotatescalefade"@
    } else if index == 70 {
        "rotatescalevanish"@
    } else if index == 71 {
        "scale_in"@
    } else if index == 72 {
        "simplezoom"@
    } else if index == 73 {
        "simplezoomout"@
    } else if index == 74 {
        "slides"@
    } else if index == 75 {
        "squareswire"@
    } else if index == 76 {
        "squeeze"@
    } else if index == 77 {
        "staticfade"@
    } else if index == 78 {
        "static_wipe"@
    } else if index == 79 {
        "stereoviewer"@
    } else if index == 80 {
        "swap"@
    } else if index == 81 {
        "swirl"@
    } else if index == 82 {
        "tangentmotionblur"@
    } else if index == 83 {
        "topbottom"@
    } else if index == 84 {
        "tvstatic"@
    } else if index == 85 {
        "undulatingburnout"@
    } else if index == 86 {
        "verticalclose"@
    } else if index == 87 {
        "verticalopen"@
    } else if index == 88 {
        "waterdrop"@
    } else if index == 89 {
        "wind"@
    } else if index == 90 {
        "windowblinds"@
    } else if index == 91 {
        "windowslice"@
    } else if index == 92 {
        "wipedown"@
    } else if index == 93 {
        "wipeleft"@
    } else if index == 94 {
        "wiperight"@
    } else if index == 95 {
        "wipeup"@
    } else if index == 96 {
        "x-axis-translation"@
    } else if index == 97 {
        "zoomincircles"@
    } else if index == 98 {
        "zoomleftwipe"@
    } else {
        "zoomrightwipe"@
    }
}

impl Transition {
    /// The name of the effect's shader source.
    pub open spec fn spec_name(self) -> Seq<char> {
        match self {
            Transition::Angular => "angular"@,
            Transition::BookFlip => "BookFlip"@,
            Transition::Bounce => "Bounce"@,
            Transition::BowTieHorizontal => "BowTieHorizontal"@,
            Transition::BowTieVertical => "BowTieVertical"@,
            Transition::BowTieWithParameter => "BowTieWithParameter"@,
            Transition::Burn => "burn"@,
            Transition::ButterflyWaveScrawler => "ButterflyWaveScrawler"@,
            Transition::CannabisLeaf => "cannabisleaf"@,
            Transition::Circle => "circle"@,
            Transition::CircleCrop => "CircleCrop"@,
            Transition::CircleOpen => "circleopen"@,
            Transition::ColorPhase => "colorphase"@,
            Transition::CoordFromIn => "coord-from-in"@,
            Transition::CrazyParametricFun => "CrazyParametricFun"@,
            Transition::ColourDistance => "ColourDistance"@,
            Transition::CrossHatch => "crosshatch"@,
            Transition::CrossWarp => "crosswarp"@,
            Transition::CrossZoom => "CrossZoom"@,
            Transition::Cube => "cube"@,
            Transition::Directional => "Directional"@,
            Transition::DirectionalEasing => "directional-easing"@,
            Transition::DirectionalScaled => "DirectionalScaled"@,
            Transition::DirectionalWarp => "directionalwarp"@,
            Transition::DirectionalWipe => "directionalwipe"@,
            Transition::Displacement => "displacement"@,
            Transition::Dissolve => "dissolve"@,
            Transition::Doom => "DoomScreenTransition"@,
            Transition::Doorway => "doorway"@,
            Transition::Dreamy => "Dreamy"@,
            Transition::DreamyZoom => "DreamyZoom"@,
            Transition::Edge => "EdgeTransition"@,
            Transition::Fade => "fade"@,
            Transition::FadeColor => "fadecolor"@,
            Transition::FadeGrayscale => "fadegrayscale"@,
            Transition::FilmBurn => "FilmBurn"@,
            Transition::FlyEye => "flyeye"@,
            Transition::GlitchDisplace => "GlitchDisplace"@,
            Transition::GlitchMemories => "GlitchMemories"@,
            Transition::GridFlip => "GridFlip"@,
            Transition::Heart => "heart"@,
            Transition::Hexagonalize => "hexagonalize"@,
            Transition::HorizontalClose => "HorizontalClose"@,
            Transition::HorizontalOpen => "HorizontalOpen"@,
            Transition::InvertedPageCurl => "InvertedPageCurl"@,
            Transition::Kaleidoscope => "kaleidoscope"@,
            Transition::LeftRight => "LeftRight"@,
            Transition::LinearBlur => "LinearBlur"@,
            Transition::Luma => "luma"@,
            Transition::LuminanceMelt => "luminance_melt"@,
            Transition::Morph => "morph"@,
            Transition::Mosaic => "Mosaic"@,
            Transition::MosaicTransition => "mosaic_transition"@,
            Transition::MultiplyBlend => "multiply_blend"@,
            Transition::Overexposure => "Overexposure"@,
            Transition::Perlin => "perlin"@,
            Transition::Pinwheel => "pinwheel"@,
            Transition::Pixelize => "pixelize"@,
            Transition::PolarFunction => "polar_function"@,
            Transition::PolkaDotsCurtain => "PolkaDotsCurtain"@,
            Transition::PowerKaleido => "powerKaleido"@,
            Transition::Radial => "Radial"@,
            Transition::RandomNoiseX => "randomNoisex"@,
            Transition::RandomSquares => "randomsquares"@,
            Transition::Rectangle => "Rectangle"@,
            Transition::RectangleCrop => "RectangleCrop"@,
            Transition::Ripple => "ripple"@,
            Transition::Rolls => "Rolls"@,
            Transition::Rotate => "rotateTransition"@,
            Transition::RotateScaleFade => "rotate_scale_fade"@,
            Transition::RotateScaleVanish => "RotateScaleVanish"@,
            Transition::ScaleIn => "scale-in"@,
            Transition::SimpleZoom => "SimpleZoom"@,
            Transition::SimpleZoomOut => "SimpleZoomOut"@,
            Transition::Slides => "Slides"@,
            Transition::SquaresWire => "squareswire"@,
            Transition::Squeeze => "squeeze"@,
            Transition::StaticFade => "StaticFade"@,
            Transition::StaticWipe => "static_wipe"@,
            Transition::StereoViewer => "StereoViewer"@,
            Transition::Swap => "swap"@,
            Transition::Swirl => "Swirl"@,
            Transition::TangentMotionBlur => "tangentMotionBlur"@,
            Transition::TopBottom => "TopBottom"@,
            Transition::TvStatic => "TVStatic"@,
            Transition::UndulatingBurnOut => "undulatingBurnOut"@,
            Transition::VerticalClose => "VerticalClose"@,
            Transition::VerticalOpen => "VerticalOpen"@,
            Transition::WaterDrop => "WaterDrop"@,
            Transition::Wind => "wind"@,
            Transition::WindowBlinds => "windowblinds"@,
            Transition::WindowSlice => "windowslice"@,
            Transition::WipeDown => "wipeDown"@,
            Transition::WipeLeft => "wipeLeft"@,
            Transition::WipeRight => "wipeRight"@,
            Transition::WipeUp => "wipeUp"@,
            Transition::XAxisTranslation => "x_axis_translation"@,
            Transition::ZoomInCircles => "ZoomInCircles"@,
            Transition::ZoomLeftWipe => "ZoomLeftWipe"@,
            Transition::ZoomRightWipe => "ZoomRigthWipe"@,
            Transition::Random => "random"@,
            Transition::Custom { shader } => shader@,
        }
    }

    /// The effect a lower-case name stands for; a name that stands for none gives the fade.
    pub open spec fn spec_from_lowercase(lower: Seq<char>) -> Transition {
        if lower == "angular"@ {
            Transition::Angular
        } else if lower == "bookflip"@ {
            Transition::BookFlip
        } else if lower == "bounce"@ {
            Transition::Bounce
        } else if lower == "bowtiehorizontal"@ {
            Transition::BowTieHorizontal
        } else if lower == "bowtievertical"@ {
            Transition::BowTieVertical
        } else if lower == "bowtiewithparameter"@ {
            Transition::BowTieWithParameter
        } else if lower == "burn"@ {
            Transition::Burn
        } else if lower == "butterflywavescrawler"@ {
            Transition::ButterflyWaveScrawler
        } else if lower == "circle"@ {
            Transition::Circle
        } else if lower == "circlecrop"@ {
            Transition::CircleCrop
        } else if lower == "circleopen"@ {
            Transition::CircleOpen
        } else if lower == "colorphase"@ {
            Transition::ColorPhase
        } else if lower == "coord-from-in"@ {
            Transition::CoordFromIn
        } else if lower == "crazyparametricfun"@ {
            Transition::CrazyParametricFun
        } else if lower == "colourdistance"@ {
            Transition::ColourDistance
        } else if lower == "crosshatch"@ {
            Transition::CrossHatch
        } else if lower == "crosswarp"@ {
            Transition::CrossWarp
        } else if lower == "crosszoom"@ {
            Transition::CrossZoom
        } else if lower == "cube"@ {
            Transition::Cube
        } else if lower == "directional"@ {
            Transition::Directional
        } else if lower == "directionaleasing"@ {
            Transition::DirectionalEasing
        } else if lower == "directionalscaled"@ {
            Transition::DirectionalScaled
        } else if lower == "directionalwarp"@ {
            Transition::DirectionalWarp
        } else if lower == "directionalwipe"@ {
            Transition::DirectionalWipe
        } else if lower == "wipe"@ {
            Transition::DirectionalWipe
        } else if lower == "displacement"@ {
            Transition::Displacement
        } else if lower == "dissolve"@ {
            Transition::Dissolve
        } else if lower == "doom"@ {
            Transition::Doom
        } else if lower == "doorway"@ {
            Transition::Doorway
        } else if lower == "dreamy"@ {
            Transition::Dreamy
        } else if lower == "dreamyzoom"@ {
            Transition::DreamyZoom
        } else if lower == "edge"@ {
            Transition::Edge
        } else if lower == "fade"@ {
            Transition::Fade
        } else if lower == "fadecolor"@ {
            Transition::FadeColor
        } else if lower == "fadegrayscale"@ {
            Transition::FadeGrayscale
        } else if lower == "filmburn"@ {
            Transition::FilmBurn
        } else if lower == "flyeye"@ {
            Transition::FlyEye
        } else if lower == "glitchdisplace"@ {
            Transition::GlitchDisplace
        } else if lower == "glitchmemories"@ {
            Transition::GlitchMemories
        } else if lower == "gridflip"@ {
            Transition::GridFlip
        } else if lower == "heart"@ {
            Transition::Heart
        } else if lower == "hexagonalize"@ {
            Transition::Hexagonalize
        } else if lower == "horizontalclose"@ {
            Transition::HorizontalClose
        } else if lower == "horizontalopen"@ {
            Transition::HorizontalOpen
        } else if lower == "invertedpagecurl"@ {
            Transition::InvertedPageCurl
        } else if lower == "kaleidoscope"@ {
            Transition::Kaleidoscope
        } else if lower == "leftright"@ {
            Transition::LeftRight
        } else if lower == "linearblur"@ {
            Transition::LinearBlur
        } else if lower == "luma"@ {
            Transition::Luma
        } else if lower == "luminancemelt"@ {
            Transition::LuminanceMelt
        } else if lower == "morph"@ {
            Transition::Morph
        } else if lower == "mosaic"@ {
            Transition::Mosaic
        } else if lower == "mosaic_transition"@ {
            Transition::MosaicTransition
        } else if lower == "multiplyblend"@ {
            Transition::MultiplyBlend
        } else if lower == "overexposure"@ {
            Transition::Overexposure
        } else if lower == "perlin"@ {
            Transition::Perlin
        } else if lower == "pinwheel"@ {
            Transition::Pinwheel
        } else if lower == "pixelize"@ {
            Transition::Pixelize
        } else if lower == "polarfunction"@ {
            Transition::PolarFunction
        } else if lower == "polkadotscurtain"@ {
            Transition::PolkaDotsCurtain
        } else if lower == "powerkaleido"@ {
            Transition::PowerKaleido
        } else if lower == "radial"@ {
            Transition::Radial
        } else if lower == "randomnoisex"@ {
            Transition::RandomNoiseX
        } else if lower == "randomsquares"@ {
            Transition::RandomSquares
        } else if lower == "rectangle"@ {
            Transition::Rectangle
        } else if lower == "rectanglecrop"@ {
            Transition::RectangleCrop
        } else if lower == "ripple"@ {
            Transition::Ripple
        } else if lower == "rolls"@ {
            Transition::Rolls
        } else if lower == "rotate"@ {
            Transition::Rotate
        } else if lower == "rotatescalefade"@ {
            Transition::RotateScaleFade
        } else if lower == "rotatescalevanish"@ {
            Transition::RotateScaleVanish
        } else if lower == "scale_in"@ {
            Transition::ScaleIn
        } else if lower == "simplezoom"@ {
            Transition::SimpleZoom
        } else if lower == "simplezoomout"@ {
            Transition::SimpleZoomOut
        } else if lower == "slides"@ {
            Transition::Slides
        } else if lower == "squareswire"@ {
            Transition::SquaresWire
        } else if lower == "squeeze"@ {
            Transition::Squeeze
        } else if lower == "staticfade"@ {
            Transition::StaticFade
        } else if lower == "static_wipe"@ {
            Transition::StaticWipe
        } else if lower == "stereoviewer"@ {
            Transition::StereoViewer
        } else if lower == "swap"@ {
            Transition::Swap
        } else if lower == "swirl"@ {
            Transition::Swirl
        } else if lower == "tangentmotionblur"@ {
            Transition::TangentMotionBlur
        } else if lower == "topbottom"@ {
            Transition::TopBottom
        } else if lower == "tvstatic"@ {
            Transition::TvStatic
        } else if lower == "undulatingburnout"@ {
            Transition::UndulatingBurnOut
        } else if lower == "verticalclose"@ {
            Transition::VerticalClose
        } else if lower == "verticalopen"@ {
            Transition::VerticalOpen
        } else if lower == "waterdrop"@ {
            Transition::WaterDrop
        } else if lower == "wind"@ {
            Transition::Wind
        } else if lower == "windowblinds"@ {
            Transition::WindowBlinds
        } else if lower == "windowslice"@ {
            Transition::WindowSlice
        } else if lower == "wipedown"@ {
            Transition::WipeDown
        } else if lower == "wipeleft"@ {
            Transition::WipeLeft
        } else if lower == "wiperight"@ {
            Transition::WipeRight
        } else if lower == "wipeup"@ {
            Transition::WipeUp
        } else if lower == "x-axis-translation"@ {
            Transition::XAxisTranslation
        } else if lower == "zoomincircles"@ {
            Transition::ZoomInCircles
        } else if lower == "zoomleftwipe"@ {
            Transition::ZoomLeftWipe
        } else if lower == "zoomrightwipe"@ {
            Transition::ZoomRightWipe
        } else if lower == "random"@ {
            Transition::Random
        } else {
            Transition::Fade
        }
    }

    /// The effect `name` stands for, whatever its case.
    pub open spec fn spec_from_name(name: Seq<char>) -> Transition {
        Transition::spec_from_lowercase(lowercase_of(name))
    }

    /// The name of the effect's shader source: the key its compiled program is cached under.
    pub fn name(&self) -> (s: String)
        ensures
            s@ == self.spec_name(),
    {
        match self {
            Transition::Angular => String::from_str("angular"),
            Transition::BookFlip => String::from_str("BookFlip"),
            Transition::Bounce => String::from_str("Bounce"),
            Transition::BowTieHorizontal => String::from_str("BowTieHorizontal"),
            Transition::BowTieVertical => String::from_str("BowTieVertical"),
            Transition::BowTieWithParameter => String::from_str("BowTieWithParameter"),
            Transition::Burn => String::from_str("burn"),
            Transition::ButterflyWaveScrawler => String::from_str("ButterflyWaveScrawler"),
            Transition::CannabisLeaf => String::from_str("cannabisleaf"),
            Transition::Circle => String::from_str("circle"),
            Transition::CircleCrop => String::from_str("CircleCrop"),
            Transition::CircleOpen => String::from_str("circleopen"),
            Transition::ColorPhase => String::from_str("colorphase"),
            Transition::CoordFromIn => String::from_str("coord-from-in"),
            Transition::CrazyParametricFun => String::from_str("CrazyParametricFun"),
            Transition::ColourDistance => String::from_str("ColourDistance"),
            Transition::CrossHatch => String::from_str("crosshatch"),
            Transition::CrossWarp => String::from_str("crosswarp"),
            Transition::CrossZoom => String::from_str("CrossZoom"),
            Transition::Cube => String::from_str("cube"),
            Transition::Directional => String::from_str("Directional"),
            Transition::DirectionalEasing => String::from_str("directional-easing"),
            Transition::DirectionalScaled => String::from_str("DirectionalScaled"),
            Transition::DirectionalWarp => String::from_str("directionalwarp"),
            Transition::DirectionalWipe => String::from_str("directionalwipe"),
            Transition::Displacement => String::from_str("displacement"),
            Transition::Dissolve => String::from_str("dissolve"),
            Transition::Doom => String::from_str("DoomScreenTransition"),
            Transition::Doorway => String::from_str("doorway"),
            Transition::Dreamy => String::from_str("Dreamy"),
            Transition::DreamyZoom => String::from_str("DreamyZoom"),
            Transition::Edge => String::from_str("EdgeTransition"),
            Transition::Fade => String::from_str("fade"),
            Transition::FadeColor => String::from_str("fadecolor"),
            Transition::FadeGrayscale => String::from_str("fadegrayscale"),
            Transition::FilmBurn => String::from_str("FilmBurn"),
            Transition::FlyEye => String::from_str("flyeye"),
            Transition::GlitchDisplace => String::from_str("GlitchDisplace"),
            Transition::GlitchMemories => String::from_str("GlitchMemories"),
            Transition::GridFlip => String::from_str("GridFlip"),
            Transition::Heart => String::from_str("heart"),
            Transition::Hexagonalize => String::from_str("hexagonalize"),
            Transition::HorizontalClose => String::from_str("HorizontalClose"),
            Transition::HorizontalOpen => String::from_str("HorizontalOpen"),
            Transition::InvertedPageCurl => String::from_str("InvertedPageCurl"),
            Transition::Kaleidoscope => String::from_str("kaleidoscope"),
            Transition::LeftRight => String::from_str("LeftRight"),
            Transition::LinearBlur => String::from_str("LinearBlur"),
            Transition::Luma => String::from_str("luma"),
            Transition::LuminanceMelt => String::from_str("luminance_melt"),
            Transition::Morph => String::from_str("morph"),
            Transition::Mosaic => String::from_str("Mosaic"),
            Transition::MosaicTransition => String::from_str("mosaic_transition"),
            Transition::MultiplyBlend => String::from_str("multiply_blend"),
            Transition::Overexposure => String::from_str("Overexposure"),
            Transition::Perlin => String::from_str("perlin"),
            Transition::Pinwheel => String::from_str("pinwheel"),
            Transition::Pixelize => String::from_str("pixelize"),
            Transition::PolarFunction => String::from_str("polar_function"),
            Transition::PolkaDotsCurtain => String::from_str("PolkaDotsCurtain"),
            Transition::PowerKaleido => String::from_str("powerKaleido"),
            Transition::Radial => String::from_str("Radial"),
            Transition::RandomNoiseX => String::from_str("randomNoisex"),
            Transition::RandomSquares => String::from_str("randomsquares"),
            Transition::Rectangle => String::from_str("Rectangle"),
            Transition::RectangleCrop => String::from_str("RectangleCrop"),
            Transition::Ripple => String::from_str("ripple"),
            Transition::Rolls => String::from_str("Rolls"),
            Transition::Rotate => String::from_str("rotateTransition"),
            Transition::RotateScaleFade => String::from_str("rotate_scale_fade"),
            Transition::RotateScaleVanish => String::from_str("RotateScaleVanish"),
            Transition::ScaleIn => String::from_str("scale-in"),
            Transition::SimpleZoom => String::from_str("SimpleZoom"),
            Transition::SimpleZoomOut => String::from_str("SimpleZoomOut"),
            Transition::Slides => String::from_str("Slides"),
            Transition::SquaresWire => String::from_str("squareswire"),
            Transition::Squeeze => String::from_str("squeeze"),
            Transition::StaticFade => String::from_str("StaticFade"),
            Transition::StaticWipe => String::from_str("static_wipe"),
            Transition::StereoViewer => String::from_str("StereoViewer"),
            Transition::Swap => String::from_str("swap"),
            Transition::Swirl => String::from_str("Swirl"),
            Transition::TangentMotionBlur => String::from_str("tangentMotionBlur"),
            Transition::TopBottom => String::from_str("TopBottom"),
            Transition::TvStatic => String::from_str("TVStatic"),
            Transition::UndulatingBurnOut => String::from_str("undulatingBurnOut"),
            Transition::VerticalClose => String::from_str("VerticalClose"),
            Transition::VerticalOpen => String::from_str("VerticalOpen"),
            Transition::WaterDrop => String::from_str("WaterDrop"),
            Transition::Wind => String::from_str("wind"),
            Transition::WindowBlinds => String::from_str("windowblinds"),
            Transition::WindowSlice => String::from_str("windowslice"),
            Transition::WipeDown => String::from_str("wipeDown"),
            Transition::WipeLeft => String::from_str("wipeLeft"),
            Transition::WipeRight => String::from_str("wipeRight"),
            Transition::WipeUp => String::from_str("wipeUp"),
            Transition::XAxisTranslation => String::from_str("x_axis_translation"),
            Transition::ZoomInCircles => String::from_str("ZoomInCircles"),
            Transition::ZoomLeftWipe => String::from_str("ZoomLeftWipe"),
            Transition::ZoomRightWipe => String::from_str("ZoomRigthWipe"),
            Transition::Random => String::from_str("random"),
            Transition::Custom { shader } => shader.clone(),
        }
    }

    /// A second value of the same effect.
    pub fn duplicate(&self) -> (t: Transition)
        ensures
            t == *self,
    {
        match self {
            Transition::Angular => Transition::Angular,
            Transition::BookFlip => Transition::BookFlip,
            Transition::Bounce => Transition::Bounce,
            Transition::BowTieHorizontal => Transition::BowTieHorizontal,
            Transition::BowTieVertical => Transition::BowTieVertical,
            Transition::BowTieWithParameter => Transition::BowTieWithParameter,
            Transition::Burn => Transition::Burn,
            Transition::ButterflyWaveScrawler => Transition::ButterflyWaveScrawler,
            Transition::CannabisLeaf => Transition::CannabisLeaf,
            Transition::Circle => Transition::Circle,
            Transition::CircleCrop => Transition::CircleCrop,
            Transition::CircleOpen => Transition::CircleOpen,
            Transition::ColorPhase => Transition::ColorPhase,
            Transition::CoordFromIn => Transition::CoordFromIn,
            Transition::CrazyParametricFun => Transition::CrazyParametricFun,
            Transition::ColourDistance => Transition::ColourDistance,
            Transition::CrossHatch => Transition::CrossHatch,
            Transition::CrossWarp => Transition::CrossWarp,
            Transition::CrossZoom => Transition::CrossZoom,
            Transition::Cube => Transition::Cube,
            Transition::Directional => Transition::Directional,
            Transition::DirectionalEasing => Transition::DirectionalEasing,
            Transition::DirectionalScaled => Transition::DirectionalScaled,
            Transition::DirectionalWarp => Transition::DirectionalWarp,
            Transition::DirectionalWipe => Transition::DirectionalWipe,
            Transition::Displacement => Transition::Displacement,
            Transition::Dissolve => Transition::Dissolve,
            Transition::Doom => Transition::Doom,
            Transition::Doorway => Transition::Doorway,
            Transition::Dreamy => Transition::Dreamy,
            Transition::DreamyZoom => Transition::DreamyZoom,
            Transition::Edge => Transition::Edge,
            Transition::Fade => Transition::Fade,
            Transition::FadeColor => Transition::FadeColor,
            Transition::FadeGrayscale => Transition::FadeGrayscale,
            Transition::FilmBurn => Transition::FilmBurn,
            Transition::FlyEye => Transition::FlyEye,
            Transition::GlitchDisplace => Transition::GlitchDisplace,
            Transition::GlitchMemories => Transition::GlitchMemories,
            Transition::GridFlip => Transition::GridFlip,
            Transition::Heart => Transition::Heart,
            Transition::Hexagonalize => Transition::Hexagonalize,
            Transition::HorizontalClose => Transition::HorizontalClose,
            Transition::HorizontalOpen => Transition::HorizontalOpen,
            Transition::InvertedPageCurl => Transition::InvertedPageCurl,
            Transition::Kaleidoscope => Transition::Kaleidoscope,
            Transition::LeftRight => Transition::LeftRight,
            Transition::LinearBlur => Transition::LinearBlur,
            Transition::Luma => Transition::Luma,
            Transition::LuminanceMelt => Transition::LuminanceMelt,
            Transition::Morph => Transition::Morph,
            Transition::Mosaic => Transition::Mosaic,
            Transition::MosaicTransition => Transition::MosaicTransition,
            Transition::MultiplyBlend => Transition::MultiplyBlend,
            Transition::Overexposure => Transition::Overexposure,
            Transition::Perlin => Transition::Perlin,
            Transition::Pinwheel => Transition::Pinwheel,
            Transition::Pixelize => Transition::Pixelize,
            Transition::PolarFunction => Transition::PolarFunction,
            Transition::PolkaDotsCurtain => Transition::PolkaDotsCurtain,
            Transition::PowerKaleido => Transition::PowerKaleido,
            Transition::Radial => Transition::Radial,
            Transition::RandomNoiseX => Transition::RandomNoiseX,
            Transition::RandomSquares => Transition::RandomSquares,
            Transition::Rectangle => Transition::Rectangle,
            Transition::RectangleCrop => Transition::RectangleCrop,
            Transition::Ripple => Transition::Ripple,
            Transition::Rolls => Transition::Rolls,
            Transition::Rotate => Transition::Rotate,
            Transition::RotateScaleFade => Transition::RotateScaleFade,
            Transition::RotateScaleVanish => Transition::RotateScaleVanish,
            Transition::ScaleIn => Transition::ScaleIn,
            Transition::SimpleZoom => Transition::SimpleZoom,
            Transition::SimpleZoomOut => Transition::SimpleZoomOut,
            Transition::Slides => Transition::Slides,
            Transition::SquaresWire => Transition::SquaresWire,
            Transition::Squeeze => Transition::Squeeze,
            Transition::StaticFade => Transition::StaticFade,
            Transition::StaticWipe => Transition::StaticWipe,
            Transition::StereoViewer => Transition::StereoViewer,
            Transition::Swap => Transition::Swap,
            Transition::Swirl => Transition::Swirl,
            Transition::TangentMotionBlur => Transition::TangentMotionBlur,
            Transition::TopBottom => Transition::TopBottom,
            Transition::TvStatic => Transition::TvStatic,
            Transition::UndulatingBurnOut => Transition::UndulatingBurnOut,
            Transition::VerticalClose => Transition::VerticalClose,
            Transition::VerticalOpen => Transition::VerticalOpen,
            Transition::WaterDrop => Transition::WaterDrop,
            Transition::Wind => Transition::Wind,
            Transition::WindowBlinds => Transition::WindowBlinds,
            Transition::WindowSlice => Transition::WindowSlice,
            Transition::WipeDown => Transition::WipeDown,
            Transition::WipeLeft => Transition::WipeLeft,
            Transition::WipeRight => Transition::WipeRight,
            Transition::WipeUp => Transition::WipeUp,
            Transition::XAxisTranslation => Transition::XAxisTranslation,
            Transition::ZoomInCircles => Transition::ZoomInCircles,
            Transition::ZoomLeftWipe => Transition::ZoomLeftWipe,
            Transition::ZoomRightWipe => Transition::ZoomRightWipe,
            Transition::Random => Transition::Random,
            Transition::Custom { shader } => Transition::Custom { shader: shader.clone() },
        }
    }

    /// The effect a name that is already lower case stands for. A name that
    /// stands for no effect gives the fade.
    pub fn from_lowercase_name(lower: &str) -> (t: Transition)
        ensures
            t == Transition::spec_from_lowercase(lower@),
    {
        if str_eq(lower, "angular") {
            Transition::Angular
        } else if str_eq(lower, "bookflip") {
            Transition::BookFlip
        } else if str_eq(lower, "bounce") {
            Transition::Bounce
        } else if str_eq(lower, "bowtiehorizontal") {
            Transition::BowTieHorizontal
        } else if str_eq(lower, "bowtievertical") {
            Transition::BowTieVertical
        } else if str_eq(lower, "bowtiewithparameter") {
            Transition::BowTieWithParameter
        } else if str_eq(lower, "burn") {
            Transition::Burn
        } else if str_eq(lower, "butterflywavescrawler") {
            Transition::ButterflyWaveScrawler
        } else if str_eq(lower, "circle") {
            Transition::Circle
        } else if str_eq(lower, "circlecrop") {
            Transition::CircleCrop
        } else if str_eq(lower, "circleopen") {
            Transition::CircleOpen
        } else if str_eq(lower, "colorphase") {
            Transition::ColorPhase
        } else if str_eq(lower, "coord-from-in") {
            Transition::CoordFromIn
        } else if str_eq(lower, "crazyparametricfun") {
            Transition::CrazyParametricFun
        } else if str_eq(lower, "colourdistance") {
            Transition::ColourDistance
        } else if str_eq(lower, "crosshatch") {
            Transition::CrossHatch
        } else if str_eq(lower, "crosswarp") {
            Transition::CrossWarp
        } else if str_eq(lower, "crosszoom") {
            Transition::CrossZoom
        } else if str_eq(lower, "cube") {
            Transition::Cube
        } else if str_eq(lower, "directional") {
            Transition::Directional
        } else if str_eq(lower, "directionaleasing") {
            Transition::DirectionalEasing
        } else if str_eq(lower, "directionalscaled") {
            Transition::DirectionalScaled
        } else if str_eq(lower, "directionalwarp") {
            Transition::DirectionalWarp
        } else if str_eq(lower, "directionalwipe") {
            Transition::DirectionalWipe
        } else if str_eq(lower, "wipe") {
            Transition::DirectionalWipe
        } else if str_eq(lower, "displacement") {
            Transition::Displacement
        } else if str_eq(lower, "dissolve") {
            Transition::Dissolve
        } else if str_eq(lower, "doom") {
            Transition::Doom
        } else if str_eq(lower, "doorway") {
            Transition::Doorway
        } else if str_eq(lower, "dreamy") {
            Transition::Dreamy
        } else if str_eq(lower, "dreamyzoom") {
            Transition::DreamyZoom
        } else if str_eq(lower, "edge") {
            Transition::Edge
        } else if str_eq(lower, "fade") {
            Transition::Fade
        } else if str_eq(lower, "fadecolor") {
            Transition::FadeColor
        } else if str_eq(lower, "fadegrayscale") {
            Transition::FadeGrayscale
        } else if str_eq(lower, "filmburn") {
            Transition::FilmBurn
        } else if str_eq(lower, "flyeye") {
            Transition::FlyEye
        } else if str_eq(lower, "glitchdisplace") {
            Transition::GlitchDisplace
        } else if str_eq(lower, "glitchmemories") {
            Transition::GlitchMemories
        } else if str_eq(lower, "gridflip") {
            Transition::GridFlip
        } else if str_eq(lower, "heart") {
            Transition::Heart
        } else if str_eq(lower, "hexagonalize") {
            Transition::Hexagonalize
        } else if str_eq(lower, "horizontalclose") {
            Transition::HorizontalClose
        } else if str_eq(lower, "horizontalopen") {
            Transition::HorizontalOpen
        } else if str_eq(lower, "invertedpagecurl") {
            Transition::InvertedPageCurl
        } else if str_eq(lower, "kaleidoscope") {
            Transition::Kaleidoscope
        } else if str_eq(lower, "leftright") {
            Transition::LeftRight
        } else if str_eq(lower, "linearblur") {
            Transition::LinearBlur
        } else if str_eq(lower, "luma") {
            Transition::Luma
        } else if str_eq(lower, "luminancemelt") {
            Transition::LuminanceMelt
        } else if str_eq(lower, "morph") {
            Transition::Morph
        } else if str_eq(lower, "mosaic") {
            Transition::Mosaic
        } else if str_eq(lower, "mosaic_transition") {
            Transition::MosaicTransition
        } else if str_eq(lower, "multiplyblend") {
            Transition::MultiplyBlend
        } else if str_eq(lower, "overexposure") {
            Transition::Overexposure
        } else if str_eq(lower, "perlin") {
            Transition::Perlin
        } else if str_eq(lower, "pinwheel") {
            Transition::Pinwheel
        } else if str_eq(lower, "pixelize") {
            Transition::Pixelize
        } else if str_eq(lower, "polarfunction") {
            Transition::PolarFunction
        } else if str_eq(lower, "polkadotscurtain") {
            Transition::PolkaDotsCurtain
        } else if str_eq(lower, "powerkaleido") {
            Transition::PowerKaleido
        } else if str_eq(lower, "radial") {
            Transition::Radial
        } else if str_eq(lower, "randomnoisex") {
            Transition::RandomNoiseX
        } else if str_eq(lower, "randomsquares") {
            Transition::RandomSquares
        } else if str_eq(lower, "rectangle") {
            Transition::Rectangle
        } else if str_eq(lower, "rectanglecrop") {
            Transition::RectangleCrop
        } else if str_eq(lower, "ripple") {
            Transition::Ripple
        } else if str_eq(lower, "rolls") {
            Transition::Rolls
        } else if str_eq(lower, "rotate") {
            Transition::Rotate
        } else if str_eq(lower, "rotatescalefade") {
            Transition::RotateScaleFade
        } else if str_eq(lower, "rotatescalevanish") {
            Transition::RotateScaleVanish
        } else if str_eq(lower, "scale_in") {
            Transition::ScaleIn
        } else if str_eq(lower, "simplezoom") {
            Transition::SimpleZoom
        } else if str_eq(lower, "simplezoomout") {
            Transition::SimpleZoomOut
        } else if str_eq(lower, "slides") {
            Transition::Slides
        } else if str_eq(lower, "squareswire") {
            Transition::SquaresWire
        } else if str_eq(lower, "squeeze") {
            Transition::Squeeze
        } else if str_eq(lower, "staticfade") {
            Transition::StaticFade
        } else if str_eq(lower, "static_wipe") {
            Transition::StaticWipe
        } else if str_eq(lower, "stereoviewer") {
            Transition::StereoViewer
        } else if str_eq(lower, "swap") {
            Transition::Swap
        } else if str_eq(lower, "swirl") {
            Transition::Swirl
        } else if str_eq(lower, "tangentmotionblur") {
            Transition::TangentMotionBlur
        } else if str_eq(lower, "topbottom") {
            Transition::TopBottom
        } else if str_eq(lower, "tvstatic") {
            Transition::TvStatic
        } else if str_eq(lower, "undulatingburnout") {
            Transition::UndulatingBurnOut
        } else if str_eq(lower, "verticalclose") {
            Transition::VerticalClose
        } else if str_eq(lower, "verticalopen") {
            Transition::VerticalOpen
        } else if str_eq(lower, "waterdrop") {
            Transition::WaterDrop
        } else if str_eq(lower, "wind") {
            Transition::Wind
        } else if str_eq(lower, "windowblinds") {
            Transition::WindowBlinds
        } else if str_eq(lower, "windowslice") {
            Transition::WindowSlice
        } else if str_eq(lower, "wipedown") {
            Transition::WipeDown
        } else if str_eq(lower, "wipeleft") {
            Transition::WipeLeft
        } else if str_eq(lower, "wiperight") {
            Transition::WipeRight
        } else if str_eq(lower, "wipeup") {
            Transition::WipeUp
        } else if str_eq(lower, "x-axis-translation") {
            Transition::XAxisTranslation
        } else if str_eq(lower, "zoomincircles") {
            Transition::ZoomInCircles
        } else if str_eq(lower, "zoomleftwipe") {
            Transition::ZoomLeftWipe
        } else if str_eq(lower, "zoomrightwipe") {
            Transition::ZoomRightWipe
        } else if str_eq(lower, "random") {
            Transition::Random
        } else {
            Transition::Fade
        }
    }

    /// The effect `name` stands for. Case is ignored; a name that stands for
    /// no effect gives the fade.
    pub fn from_name(name: &str) -> (t: Transition)
        ensures
            t == Transition::spec_from_name(name@),
    {
        let lower = to_lowercase(name);
        Transition::from_lowercase_name(lower.as_str())
    }

    /// An effect drawn by lot from the names of the catalogue.
    pub fn pick_random() -> (t: Transition)
        ensures
            exists|index: int|
                0 <= index < PICKABLE_COUNT && t == Transition::spec_from_name(
                    #[trigger] pickable_name(index),
                ),
    {
        let index = random_below(PICKABLE_COUNT);
        let t = Transition::pick_at(index);
        assert(t == Transition::spec_from_name(pickable_name(index as int)));
        t
    }

    /// The effect drawn at position `index` of the lot.
    pub fn pick_at(index: usize) -> (t: Transition)
        requires
            index < PICKABLE_COUNT,
        ensures
            t == Transition::spec_from_name(pickable_name(index as int)),
    {
        Transition::from_name(pickable(index))
    }
}

/// The lower-case name at position `index` of the lot.
pub fn pickable(index: usize) -> (name: &'static str)
    requires
        index < PICKABLE_COUNT,
    ensures
        name@ == pickable_name(index as int),
{
    if index == 0 {
        "angular"
    } else if index == 1 {
        "bookflip"
    } else if index == 2 {
        "bounce"
    } else if index == 3 {
        "bowtiehorizontal"
    } else if index == 4 {
        "bowtievertical"
    } else if index == 5 {
        "bowtiewithparameter"
    } else if index == 6 {
        "burn"
    } else if index == 7 {
        "butterflywavescrawler"
    } else if index == 8 {
        "cannabisleaf"
    } else if index == 9 {
        "circle"
    } else if index == 10 {
        "circlecrop"
    } else if index == 11 {
        "circleopen"
    } else if index == 12 {
        "colorphase"
    } else if index == 13 {
        "coord-from-in"
    } else if index == 14 {
        "crazyparametricfun"
    } else if index == 15 {
        "colourdistance"
    } else if index == 16 {
        "crosshatch"
    } else if index == 17 {
        "crosswarp"
    } else if index == 18 {
        "crosszoom"
    } else if index == 19 {
        "cube"
    } else if index == 20 {
        "directional"
    } else if index == 21 {
        "directionaleasing"
    } else if index == 22 {
        "directionalscaled"
    } else if index == 23 {
        "directionalwarp"
    } else if index == 24 {
        "directionalwipe"
    } else if index == 25 {
        "displacement"
    } else if index == 26 {
        "dissolve"
    } else if index == 27 {
        "doom"
    } else if index == 28 {
        "doorway"
    } else if index == 29 {
        "dreamy"
    } else if index == 30 {
        "dreamyzoom"
    } else if index == 31 {
        "edge"
    } else if index == 32 {
        "fade"
    } else if index == 33 {
        "fadecolor"
    } else if index == 34 {
        "fadegrayscale"
    } else if index == 35 {
        "filmburn"
    } else if index == 36 {
        "flyeye"
    } else if index == 37 {
        "glitchdisplace"
    } else if index == 38 {
        "glitchmemories"
    } else if index == 39 {
        "gridflip"
    } else if index == 40 {
        "heart"
    } else if index == 41 {
        "hexagonalize"
    } else if index == 42 {
        "horizontalclose"
    } else if index == 43 {
        "horizontalopen"
    } else if index == 44 {
        "invertedpagecurl"
    } else if index == 45 {
        "kaleidoscope"
    } else if index == 46 {
        "leftright"
    } else if index == 47 {
        "linearblur"
    } else if index == 48 {
        "luma"
    } else if index == 49 {
        "luminancemelt"
    } else if index == 50 {
        "morph"
    } else if index == 51 {
        "mosaic"
    } else if index == 52 {
        "mosaic_transition"
    } else if index == 53 {
        "multiplyblend"
    } else if index == 54 {
        "overexposure"
    } else if index == 55 {
        "perlin"
    } else if index == 56 {
        "pinwheel"
    } else if index == 57 {
        "pixelize"
    } else if index == 58 {
        "polarfunction"
    } else if index == 59 {
        "polkadotscurtain"
    } else if index == 60 {
        "powerkaleido"
    } else if index == 61 {
        "radial"
    } else if index == 62 {
        "randomnoisex"
    } else if index == 63 {
        "randomsquares"
    } else if index == 64 {
        "rectangle"
    } else if index == 65 {
        "rectanglecrop"
    } else if index == 66 {
        "ripple"
    } else if index == 67 {
        "rolls"
    } else if index == 68 {
        "rotate"
    } else if index == 69 {
        "rotatescalefade"
    } else if index == 70 {
        "rotatescalevanish"
    } else if index == 71 {
        "scale_in"
    } else if index == 72 {
        "simplezoom"
    } else if index == 73 {
        "simplezoomout"
    } else if index == 74 {
        "slides"
    } else if index == 75 {
        "squareswire"
    } else if index == 76 {
        "squeeze"
    } else if index == 77 {
        "staticfade"
    } else if index == 78 {
        "static_wipe"
    } else if index == 79 {
        "stereoviewer"
    } else if index == 80 {
        "swap"
    } else if index == 81 {
        "swirl"
    } else if index == 82 {
        "tangentmotionblur"
    } else if index == 83 {
        "topbottom"
    } else if index == 84 {
        "tvstatic"
    } else if index == 85 {
        "undulatingburnout"
    } else if index == 86 {
        "verticalclose"
    } else if index == 87 {
        "verticalopen"
    } else if index == 88 {
        "waterdrop"
    } else if index == 89 {
        "wind"
    } else if index == 90 {
        "windowblinds"
    } else if index == 91 {
        "windowslice"
    } else if index == 92 {
        "wipedown"
    } else if index == 93 {
        "wipeleft"
    } else if index == 94 {
        "wiperight"
    } else if index == 95 {
        "wipeup"
    } else if index == 96 {
        "x-axis-translation"
    } else if index == 97 {
        "zoomincircles"
    } else if index == 98 {
        "zoomleftwipe"
    } else {
        "zoomrightwipe"
    }
}

} // verus!
