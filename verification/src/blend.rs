use vstd::prelude::*;

verus! {

/// The fixed set of blend factors the compositing table draws from; each
/// names the multiplier a GPU applies to the source or destination value.
#[derive(Clone, Copy, Debug, PartialEq, Eq, Hash, Structural)]
pub enum BlendFactor {
    Zero,
    One,
    SrcAlpha,
    OneMinusSrcAlpha,
    DstAlpha,
    OneMinusDstAlpha,
    DstColor,
    OneMinusSrcColor,
}

/// The blend equation combining the two weighted terms. Every operator in
/// this system is additive; no subtractive or min/max variant is used.
#[derive(Clone, Copy, Debug, PartialEq, Eq, Hash, Structural)]
pub enum BlendOperation {
    Add,
}

/// One channel's blend state: `operation(src * src_factor, dst * dst_factor)`.
#[derive(Clone, Copy, Debug, PartialEq, Eq, Hash, Structural)]
pub struct BlendComponent {
    pub src_factor: BlendFactor,
    pub dst_factor: BlendFactor,
    pub operation: BlendOperation,
}

/// A named compositing operation as a pair of per-channel blend states,
/// separable between the color and alpha channels.
#[derive(Clone, Copy, Debug, PartialEq, Eq, Hash, Structural)]
pub struct Blend {
    pub alpha: BlendComponent,
    pub color: BlendComponent,
}

/// The blend whose color channel adds `color_src`/`color_dst`-weighted
/// terms and whose alpha channel adds `alpha_src`/`alpha_dst`-weighted ones.
pub open spec fn blend_add_sep(
    color_src: BlendFactor,
    color_dst: BlendFactor,
    alpha_src: BlendFactor,
    alpha_dst: BlendFactor,
) -> Blend {
    Blend {
        alpha: BlendComponent {
            src_factor: alpha_src,
            dst_factor: alpha_dst,
            operation: BlendOperation::Add,
        },
        color: BlendComponent {
            src_factor: color_src,
            dst_factor: color_dst,
            operation: BlendOperation::Add,
        },
    }
}

/// The blend using the same additive factor pair on both channels.
pub open spec fn blend_add(src: BlendFactor, dst: BlendFactor) -> Blend {
    blend_add_sep(src, dst, src, dst)
}

impl Blend {
    /// The general constructor: separate additive factor pairs for the
    /// color and alpha channels.
    pub fn add_sep(
        color_src: BlendFactor,
        color_dst: BlendFactor,
        alpha_src: BlendFactor,
        alpha_dst: BlendFactor,
    ) -> (r: Blend)
        ensures
            r == blend_add_sep(color_src, color_dst, alpha_src, alpha_dst),
    {
        Blend {
            alpha: BlendComponent {
                src_factor: alpha_src,
                dst_factor: alpha_dst,
                operation: BlendOperation::Add,
            },
            color: BlendComponent {
                src_factor: color_src,
                dst_factor: color_dst,
                operation: BlendOperation::Add,
            },
        }
    }

    /// The convenience constructor using one factor pair for both channels.
    pub fn add(src: BlendFactor, dst: BlendFactor) -> (r: Blend)
        ensures
            r == blend_add(src, dst),
    {
        Blend::add_sep(src, dst, src, dst)
    }

    /// No blending: the source replaces the destination.
    pub fn replace() -> (r: Blend)
        ensures
            r == blend_add(BlendFactor::One, BlendFactor::Zero),
    {
        Blend::add(BlendFactor::One, BlendFactor::Zero)
    }

    /// The premultiplied-alpha "normal" blend, the same as source-over.
    pub fn pma_normal() -> (r: Blend)
        ensures
            r == blend_add(BlendFactor::One, BlendFactor::OneMinusSrcAlpha),
    {
        Blend::pma_src_over()
    }

    /// Porter-Duff source.
    pub fn pma_src() -> (r: Blend)
        ensures
            r == blend_add(BlendFactor::One, BlendFactor::Zero),
    {
        Blend::add(BlendFactor::One, BlendFactor::Zero)
    }

    /// Porter-Duff source-atop.
    pub fn pma_src_atop() -> (r: Blend)
        ensures
            r == blend_add(BlendFactor::DstAlpha, BlendFactor::OneMinusSrcAlpha),
    {
        Blend::add(BlendFactor::DstAlpha, BlendFactor::OneMinusSrcAlpha)
    }

    /// Porter-Duff source-over.
    pub fn pma_src_over() -> (r: Blend)
        ensures
            r == blend_add(BlendFactor::One, BlendFactor::OneMinusSrcAlpha),
    {
        Blend::add(BlendFactor::One, BlendFactor::OneMinusSrcAlpha)
    }

    /// Porter-Duff source-in.
    pub fn pma_src_in() -> (r: Blend)
        ensures
            r == blend_add(BlendFactor::DstAlpha, BlendFactor::Zero),
    {
        Blend::add(BlendFactor::DstAlpha, BlendFactor::Zero)
    }

    /// Porter-Duff source-out.
    pub fn pma_src_out() -> (r: Blend)
        ensures
            r == blend_add(BlendFactor::OneMinusDstAlpha, BlendFactor::Zero),
    {
        Blend::add(BlendFactor::OneMinusDstAlpha, BlendFactor::Zero)
    }

    /// Porter-Duff destination.
    pub fn pma_dst() -> (r: Blend)
        ensures
            r == blend_add(BlendFactor::Zero, BlendFactor::One),
    {
        Blend::add(BlendFactor::Zero, BlendFactor::One)
    }

    /// Porter-Duff destination-atop.
    pub fn pma_dst_atop() -> (r: Blend)
        ensures
            r == blend_add(BlendFactor::OneMinusDstAlpha, BlendFactor::SrcAlpha),
    {
        Blend::add(BlendFactor::OneMinusDstAlpha, BlendFactor::SrcAlpha)
    }

    /// Porter-Duff destination-over.
    pub fn pma_dst_over() -> (r: Blend)
        ensures
            r == blend_add(BlendFactor::OneMinusDstAlpha, BlendFactor::One),
    {
        Blend::add(BlendFactor::OneMinusDstAlpha, BlendFactor::One)
    }

    /// Porter-Duff destination-in.
    pub fn pma_dst_in() -> (r: Blend)
        ensures
            r == blend_add(BlendFactor::Zero, BlendFactor::SrcAlpha),
    {
        Blend::add(BlendFactor::Zero, BlendFactor::SrcAlpha)
    }

    /// Porter-Duff destination-out.
    pub fn pma_dst_out() -> (r: Blend)
        ensures
            r == blend_add(BlendFactor::Zero, BlendFactor::OneMinusSrcAlpha),
    {
        Blend::add(BlendFactor::Zero, BlendFactor::OneMinusSrcAlpha)
    }

    /// Porter-Duff exclusive-or.
    pub fn pma_xor() -> (r: Blend)
        ensures
            r == blend_add(BlendFactor::OneMinusDstAlpha, BlendFactor::OneMinusSrcAlpha),
    {
        Blend::add(BlendFactor::OneMinusDstAlpha, BlendFactor::OneMinusSrcAlpha)
    }

    /// Porter-Duff clear.
    pub fn pma_clear() -> (r: Blend)
        ensures
            r == blend_add(BlendFactor::Zero, BlendFactor::Zero),
    {
        Blend::add(BlendFactor::Zero, BlendFactor::Zero)
    }

    /// Arithmetic additive blend.
    pub fn pma_add() -> (r: Blend)
        ensures
            r == blend_add(BlendFactor::One, BlendFactor::One),
    {
        Blend::add(BlendFactor::One, BlendFactor::One)
    }

    /// Arithmetic multiply blend, separable per channel.
    pub fn pma_mul() -> (r: Blend)
        ensures
            r == blend_add_sep(
                BlendFactor::DstColor,
                BlendFactor::OneMinusSrcAlpha,
                BlendFactor::One,
                BlendFactor::OneMinusSrcAlpha,
            ),
    {
        Blend::add_sep(
            BlendFactor::DstColor,
            BlendFactor::OneMinusSrcAlpha,
            BlendFactor::One,
            BlendFactor::OneMinusSrcAlpha,
        )
    }

    /// Arithmetic screen blend, separable per channel.
    pub fn pma_screen() -> (r: Blend)
        ensures
            r == blend_add_sep(
                BlendFactor::One,
                BlendFactor::OneMinusSrcColor,
                BlendFactor::One,
                BlendFactor::OneMinusSrcAlpha,
            ),
    {
        Blend::add_sep(
            BlendFactor::One,
            BlendFactor::OneMinusSrcColor,
            BlendFactor::One,
            BlendFactor::OneMinusSrcAlpha,
        )
    }

    /// The "normal" blend for textures that are not premultiplied.
    pub fn npm_normal() -> (r: Blend)
        ensures
            r == blend_add_sep(
                BlendFactor::SrcAlpha,
                BlendFactor::OneMinusSrcAlpha,
                BlendFactor::One,
                BlendFactor::OneMinusSrcAlpha,
            ),
    {
        Blend::add_sep(
            BlendFactor::SrcAlpha,
            BlendFactor::OneMinusSrcAlpha,
            BlendFactor::One,
            BlendFactor::OneMinusSrcAlpha,
        )
    }

    /// Additive blend for textures that are not premultiplied.
    pub fn npm_add() -> (r: Blend)
        ensures
            r == blend_add_sep(
                BlendFactor::SrcAlpha,
                BlendFactor::One,
                BlendFactor::One,
                BlendFactor::One,
            ),
    {
        Blend::add_sep(BlendFactor::SrcAlpha, BlendFactor::One, BlendFactor::One, BlendFactor::One)
    }

    /// Screen blend for textures that are not premultiplied.
    pub fn npm_screen() -> (r: Blend)
        ensures
            r == blend_add_sep(
                BlendFactor::SrcAlpha,
                BlendFactor::OneMinusSrcColor,
                BlendFactor::One,
                BlendFactor::OneMinusSrcAlpha,
            ),
    {
        Blend::add_sep(
            BlendFactor::SrcAlpha,
            BlendFactor::OneMinusSrcColor,
            BlendFactor::One,
            BlendFactor::OneMinusSrcAlpha,
        )
    }
}

} // verus!
