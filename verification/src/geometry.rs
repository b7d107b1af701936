//! Sizes and what follows from them: how content covers a surface, how many
//! mip levels a texture has, and which way of presenting a surface prefers.

use vstd::prelude::*;

verus! {

/// The side of the content that is cropped when it covers the surface.
#[derive(Debug, Clone, Copy, PartialEq, Eq, Structural)]
pub enum CropAxis {
    /// The surface is wider than the content: the content fits in width and loses height.
    Height,
    /// The content is at least as wide as the surface: it fits in height and loses width.
    Width,
}

/// How content covers a surface: scaled evenly until it fills the surface,
/// cropped along one axis. `visible_num / visible_den` is the share of the
/// content that stays visible along the cropped axis.
#[derive(Debug, Clone, Copy, PartialEq, Eq, Structural)]
pub struct CoverFit {
    pub cropped: CropAxis,
    pub visible_num: u64,
    pub visible_den: u64,
}

/// A way of handing frames to the display.
#[derive(Debug, Clone, Copy, PartialEq, Eq, Structural)]
pub enum PresentMode {
    Mailbox,
    Immediate,
    Fifo,
    Other,
}

/// How content of size `content` covers a surface of size `surface`, each
/// given as width and height.
///
/// The surface is wider than the content exactly when
/// `surface.0 * content.1 > surface.1 * content.0`. The visible share is the
/// smaller of these two products over the larger one.
pub open spec fn cover_of(surface: (u32, u32), content: (u32, u32)) -> CoverFit {
    let across = surface.0 as u64 * content.1 as u64;
    let along = surface.1 as u64 * content.0 as u64;
    if across > along {
        CoverFit { cropped: CropAxis::Height, visible_num: along as u64, visible_den: across as u64 }
    } else {
        CoverFit { cropped: CropAxis::Width, visible_num: across as u64, visible_den: along as u64 }
    }
}

/// Number of mip levels of a texture whose longer side is `side`: one more
/// than the number of times the side can be halved before it reaches one.
pub open spec fn mip_levels(side: nat) -> nat
    decreases side,
{
    if side <= 1 {
        1
    } else {
        1 + mip_levels(side / 2)
    }
}

/// Two to the power of `exp`.
pub open spec fn pow2(exp: nat) -> nat
    decreases exp,
{
    if exp == 0 {
        1
    } else {
        2 * pow2((exp - 1) as nat)
    }
}

/// The preferred way of presenting among those on offer: the mailbox for its
/// low latency, else immediate presentation, else the queue, which every
/// surface has.
pub open spec fn preferred_present_mode(offered: Seq<PresentMode>) -> PresentMode {
    if offered.contains(PresentMode::Mailbox) {
        PresentMode::Mailbox
    } else if offered.contains(PresentMode::Immediate) {
        PresentMode::Immediate
    } else {
        PresentMode::Fifo
    }
}

/// Fits content to a surface by covering it.
pub fn cover_fit(surface: (u32, u32), content: (u32, u32)) -> (fit: CoverFit)
    ensures
        fit == cover_of(surface, content),
        fit.visible_num <= fit.visible_den,
{
    proof {
        assert(surface.0 as int * content.1 as int <= 0xffff_ffff * 0xffff_ffff) by (nonlinear_arith)
            requires
                0 <= surface.0 as int <= 0xffff_ffff,
                0 <= content.1 as int <= 0xffff_ffff,
        ;
        assert(surface.1 as int * content.0 as int <= 0xffff_ffff * 0xffff_ffff) by (nonlinear_arith)
            requires
                0 <= surface.1 as int <= 0xffff_ffff,
                0 <= content.0 as int <= 0xffff_ffff,
        ;
    }
    let across: u64 = (surface.0 as u64) * (content.1 as u64);
    let along: u64 = (surface.1 as u64) * (content.0 as u64);
    if across > along {
        CoverFit { cropped: CropAxis::Height, visible_num: along, visible_den: across }
    } else {
        CoverFit { cropped: CropAxis::Width, visible_num: across, visible_den: along }
    }
}

/// Number of mip levels of a texture of the given size: the chain goes down
/// to a single texel along the longer side.
pub fn mip_level_count(width: u32, height: u32) -> (levels: u32)
    ensures
        levels as nat == mip_levels(
            if width >= height {
                width as nat
            } else {
                height as nat
            },
        ),
        1 <= levels <= 32,
{
    let longer: u32 = if width >= height {
        width
    } else {
        height
    };
    let mut side: u32 = longer;
    let mut levels: u32 = 1;
    assert(pow2(0) == 1);
    assert((side as nat) * pow2((levels - 1) as nat) == longer as nat) by (nonlinear_arith)
        requires
            side == longer,
            pow2((levels - 1) as nat) == 1,
    ;
    while side > 1
        invariant
            1 <= levels <= 32,
            levels as nat + mip_levels(side as nat) == 1 + mip_levels(longer as nat),
            (side as nat) * pow2((levels - 1) as nat) <= longer as nat,
            pow2((levels - 1) as nat) >= 1,
        decreases side,
    {
        proof {
            lemma_pow2_step((levels - 1) as nat);
            assert((side / 2) as nat * (2 * pow2((levels - 1) as nat)) <= (side as nat) * pow2(
                (levels - 1) as nat,
            )) by (nonlinear_arith)
                requires
                    side >= 2,
                    pow2((levels - 1) as nat) >= 1,
            ;
            if levels == 32 {
                lemma_pow2_31();
                assert((side as nat) * pow2(31) >= 2 * pow2(31)) by (nonlinear_arith)
                    requires
                        side >= 2,
                ;
                assert(false);
            }
        }
        side = side / 2;
        levels = levels + 1;
    }
    levels
}

proof fn lemma_pow2_step(exp: nat)
    ensures
        pow2(exp + 1) == 2 * pow2(exp),
        pow2(exp) >= 1,
    decreases exp,
{
    if exp > 0 {
        lemma_pow2_step((exp - 1) as nat);
    }
}

proof fn lemma_pow2_31()
    ensures
        pow2(31) == 0x8000_0000,
{
    reveal_with_fuel(pow2, 32);
}

/// Picks the way of presenting that the engine prefers among those on offer.
pub fn choose_present_mode(offered: &Vec<PresentMode>) -> (mode: PresentMode)
    ensures
        mode == preferred_present_mode(offered@),
{
    let mut has_mailbox = false;
    let mut has_immediate = false;
    let mut i: usize = 0;
    while i < offered.len()
        invariant
            i <= offered@.len(),
            has_mailbox == exists|j: int| 0 <= j < i && offered@[j] == PresentMode::Mailbox,
            has_immediate == exists|j: int| 0 <= j < i && offered@[j] == PresentMode::Immediate,
        decreases offered@.len() - i,
    {
        match offered[i] {
            PresentMode::Mailbox => {
                has_mailbox = true;
            },
            PresentMode::Immediate => {
                has_immediate = true;
            },
            _ => {},
        }
        i = i + 1;
    }
    if has_mailbox {
        PresentMode::Mailbox
    } else if has_immediate {
        PresentMode::Immediate
    } else {
        PresentMode::Fifo
    }
}

/// A texture whose longer side is at least one has as many mip levels as its
/// longer side has binary digits.
pub proof fn lemma_mip_levels_bracket_side(side: nat)
    requires
        side >= 1,
    ensures
        pow2((mip_levels(side) - 1) as nat) <= side < pow2(mip_levels(side)),
    decreases side,
{
    if side > 1 {
        lemma_mip_levels_bracket_side(side / 2);
        lemma_pow2_step((mip_levels(side / 2) - 1) as nat);
        lemma_pow2_step(mip_levels(side / 2));
    } else {
        assert(pow2(1) == 2 * pow2(0));
    }
}

/// Content of the same shape as the surface is shown whole.
pub proof fn lemma_same_aspect_is_uncropped(surface: (u32, u32), content: (u32, u32))
    requires
        surface.0 as int * content.1 as int == surface.1 as int * content.0 as int,
    ensures
        cover_of(surface, content).visible_num == cover_of(surface, content).visible_den,
{
}

} // verus!
