//! Pixel formats: the descriptor that configures a drawable surface, and the
//! attribute list that asks the driver for an accelerated multisample format.

use vstd::prelude::*;

verus! {

/// The buffer is double buffered.
pub const PFD_DOUBLEBUFFER: u32 = 0x0000_0001;

/// The buffer can draw to a window or device surface.
pub const PFD_DRAW_TO_WINDOW: u32 = 0x0000_0004;

/// The buffer supports OpenGL drawing.
pub const PFD_SUPPORT_OPENGL: u32 = 0x0000_0020;

/// RGBA pixels: each pixel has four components.
pub const PFD_TYPE_RGBA: i8 = 0;

/// The main rendering layer.
pub const PFD_MAIN_PLANE: i8 = 0;

/// Size in bytes of the platform's descriptor structure.
pub const DESCRIPTOR_SIZE: u16 = 40;

/// Version of the platform's descriptor structure.
pub const DESCRIPTOR_VERSION: u16 = 1;

/// Capability flags of the basic format: draw to window, support OpenGL,
/// double buffer.
pub const BASIC_FLAGS: u32 = 0x0000_0025;

/// A pixel format: bit depths, buffering mode and rendering-API type of a
/// drawable. The fields are those of the platform's descriptor, in its order.
#[derive(Clone, Copy, Debug, PartialEq, Eq, Structural)]
pub struct PixelFormatDescriptor {
    pub size: u16,
    pub version: u16,
    pub flags: u32,
    pub pixel_type: i8,
    pub color_bits: u8,
    pub red_bits: u8,
    pub red_shift: u8,
    pub green_bits: u8,
    pub green_shift: u8,
    pub blue_bits: u8,
    pub blue_shift: u8,
    pub alpha_bits: u8,
    pub alpha_shift: u8,
    pub accum_bits: u8,
    pub accum_red_bits: u8,
    pub accum_green_bits: u8,
    pub accum_blue_bits: u8,
    pub accum_alpha_bits: u8,
    pub depth_bits: u8,
    pub stencil_bits: u8,
    pub aux_buffers: u8,
    pub layer_type: i8,
    pub reserved: u8,
    pub layer_mask: u32,
    pub visible_mask: u32,
    pub damage_mask: u32,
}

impl PixelFormatDescriptor {
    /// The descriptor with every field zero.
    pub open spec fn spec_zeroed() -> PixelFormatDescriptor {
        PixelFormatDescriptor {
            size: 0,
            version: 0,
            flags: 0,
            pixel_type: 0,
            color_bits: 0,
            red_bits: 0,
            red_shift: 0,
            green_bits: 0,
            green_shift: 0,
            blue_bits: 0,
            blue_shift: 0,
            alpha_bits: 0,
            alpha_shift: 0,
            accum_bits: 0,
            accum_red_bits: 0,
            accum_green_bits: 0,
            accum_blue_bits: 0,
            accum_alpha_bits: 0,
            depth_bits: 0,
            stencil_bits: 0,
            aux_buffers: 0,
            layer_type: 0,
            reserved: 0,
            layer_mask: 0,
            visible_mask: 0,
            damage_mask: 0,
        }
    }

    /// The basic format: what the throwaway surface asks of the platform's
    /// generic best-match chooser.
    pub open spec fn spec_basic() -> PixelFormatDescriptor {
        PixelFormatDescriptor {
            size: DESCRIPTOR_SIZE,
            version: DESCRIPTOR_VERSION,
            flags: BASIC_FLAGS,
            pixel_type: PFD_TYPE_RGBA,
            color_bits: 32,
            depth_bits: 24,
            stencil_bits: 8,
            layer_type: PFD_MAIN_PLANE,
            ..Self::spec_zeroed()
        }
    }

    /// Whether every bit of `flag` is set in the capability flags.
    pub open spec fn spec_has_flag(self, flag: u32) -> bool {
        self.flags & flag == flag
    }

    #[verifier::when_used_as_spec(spec_zeroed)]
    pub fn zeroed() -> (d: PixelFormatDescriptor)
        ensures
            d == Self::spec_zeroed(),
    {
        PixelFormatDescriptor {
            size: 0,
            version: 0,
            flags: 0,
            pixel_type: 0,
            color_bits: 0,
            red_bits: 0,
            red_shift: 0,
            green_bits: 0,
            green_shift: 0,
            blue_bits: 0,
            blue_shift: 0,
            alpha_bits: 0,
            alpha_shift: 0,
            accum_bits: 0,
            accum_red_bits: 0,
            accum_green_bits: 0,
            accum_blue_bits: 0,
            accum_alpha_bits: 0,
            depth_bits: 0,
            stencil_bits: 0,
            aux_buffers: 0,
            layer_type: 0,
            reserved: 0,
            layer_mask: 0,
            visible_mask: 0,
            damage_mask: 0,
        }
    }

    #[verifier::when_used_as_spec(spec_basic)]
    pub fn basic() -> (d: PixelFormatDescriptor)
        ensures
            d == Self::spec_basic(),
    {
        let mut d = PixelFormatDescriptor::zeroed();
        d.size = DESCRIPTOR_SIZE;
        d.version = DESCRIPTOR_VERSION;
        d.flags = PFD_DRAW_TO_WINDOW | PFD_SUPPORT_OPENGL | PFD_DOUBLEBUFFER;
        d.pixel_type = PFD_TYPE_RGBA;
        d.color_bits = 32;
        d.depth_bits = 24;
        d.stencil_bits = 8;
        d.layer_type = PFD_MAIN_PLANE;
        proof {
            assert(0x0000_0004u32 | 0x0000_0020u32 | 0x0000_0001u32 == 0x0000_0025u32)
                by (bit_vector);
        }
        d
    }

    #[verifier::when_used_as_spec(spec_has_flag)]
    pub fn has_flag(self, flag: u32) -> (b: bool)
        ensures
            b == self.spec_has_flag(flag),
    {
        self.flags & flag == flag
    }
}

} // verus!
