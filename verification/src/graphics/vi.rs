//! The video interface (VI): the register values that set up a 320x240 RGBA5551 picture for
//! PAL, NTSC or MPAL, and the framebuffers that it shows.

use vstd::prelude::*;

use crate::graphics::color::RGBA5551;
use crate::graphics::framebuffer_images::FramebufferImages;
use crate::register::RegisterWrite;

verus! {

/// The pixel format of the framebuffers.
pub type PixelType = RGBA5551;

pub const TV_TYPE_PAL: u8 = 0;
pub const TV_TYPE_NTSC: u8 = 1;
pub const TV_TYPE_MPAL: u8 = 2;

pub const WIDTH: u32 = 320;
pub const HEIGHT: u32 = 240;

/// The alignment in bytes that framebuffers need.
pub const FRAMEBUFFER_ALIGNMENT: usize = 32;

pub const VI_STATUS_REG: u32 = 0xA440_0000;
pub const VI_DRAM_ADDRESS_REG: u32 = 0xA440_0004;
pub const VI_H_WIDTH_REG: u32 = 0xA440_0008;
pub const VI_V_INTR_REG: u32 = 0xA440_000C;
pub const VI_TIMING_REG: u32 = 0xA440_0014;
pub const VI_V_SYNC_REG: u32 = 0xA440_0018;
pub const VI_H_SYNC_REG: u32 = 0xA440_001C;
pub const VI_H_SYNC_LEAP_REG: u32 = 0xA440_0020;
pub const VI_H_VIDEO_REG: u32 = 0xA440_0024;
pub const VI_V_VIDEO_REG: u32 = 0xA440_0028;
pub const VI_V_BURST_REG: u32 = 0xA440_002C;
pub const VI_X_SCALE_REG: u32 = 0xA440_0030;
pub const VI_Y_SCALE_REG: u32 = 0xA440_0034;

/// The timing values of a TV type, in the order Timing, VSync, HSync, HSyncLeap, HVideo, VVideo,
/// VBurst, XScale, YScale. Types other than PAL and MPAL get NTSC timing.
pub open spec fn timing_values(tv_type: u8) -> Seq<u32> {
    if tv_type == TV_TYPE_PAL {
        seq![0x0404_233A, 0x0000_0271, 0x0015_0C69, 0xC6F0_C6E, 0x0080_0300, 0x002D_026D, 0x0009_026B, 512, 853]
    } else if tv_type == TV_TYPE_MPAL {
        seq![0x0465_1E39, 0x0000_020D, 0x0000_0C10, 0x0C1C_0C1C, 0x006C_02EC, 0x0023_0203, 0x000E_0204, 512, 1024]
    } else {
        seq![0x03E5_2239, 0x0000_020D, 0x0000_0C15, 0x0C15_0C15, 0x006C_02EC, 0x0025_01FF, 0x000E_0204, 512, 1024]
    }
}

/// The registers that the timing values go to, in order.
pub open spec fn timing_registers() -> Seq<u32> {
    seq![VI_TIMING_REG, VI_V_SYNC_REG, VI_H_SYNC_REG, VI_H_SYNC_LEAP_REG, VI_H_VIDEO_REG, VI_V_VIDEO_REG,
        VI_V_BURST_REG, VI_X_SCALE_REG, VI_Y_SCALE_REG]
}

/// The uncached address through which the VI reads a framebuffer at `ptr`.
pub open spec fn framebuffer_dram_address(ptr: u32) -> u32 {
    (ptr & 0x1FFF_FFFF) | 0xA000_0000
}

pub struct Video {
    framebuffers: FramebufferImages<PixelType>,
}

impl Video {
    /// The framebuffers.
    pub closed spec fn spec_framebuffers(&self) -> FramebufferImages<PixelType> {
        self.framebuffers
    }

    /// A video interface without framebuffers.
    pub fn new() -> (r: Self)
        ensures
            r.spec_framebuffers().spec_buffer1_is_front(),
            r.spec_framebuffers().spec_buffer1() is None,
            r.spec_framebuffers().spec_buffer2() is None,
    {
        Self { framebuffers: FramebufferImages::new() }
    }

    /// The register stores that set up the VI for `tv_type`: status (16 bit color, antialiasing
    /// and resampling), the vertical interrupt line, then the timing registers.
    pub fn init(&self, tv_type: u8) -> (r: Vec<RegisterWrite>)
        ensures
            r@.len() == 11,
            r@[0] == (RegisterWrite { address: VI_STATUS_REG, value: 12878 }),
            r@[1] == (RegisterWrite { address: VI_V_INTR_REG, value: 2 }),
            forall|i: int| 0 <= i < 9 ==> #[trigger] r@[i + 2] == (RegisterWrite {
                address: timing_registers()[i],
                value: timing_values(tv_type)[i],
            }),
    {
        let mut r: Vec<RegisterWrite> = Vec::new();
        r.push(RegisterWrite::new(VI_STATUS_REG, 12878));
        r.push(RegisterWrite::new(VI_V_INTR_REG, 2));
        let values: [u32; 9] = if tv_type == TV_TYPE_PAL {
            [0x0404_233A, 0x0000_0271, 0x0015_0C69, 0xC6F0_C6E, 0x0080_0300, 0x002D_026D, 0x0009_026B, 512, 853]
        } else if tv_type == TV_TYPE_MPAL {
            [0x0465_1E39, 0x0000_020D, 0x0000_0C10, 0x0C1C_0C1C, 0x006C_02EC, 0x0023_0203, 0x000E_0204, 512, 1024]
        } else {
            [0x03E5_2239, 0x0000_020D, 0x0000_0C15, 0x0C15_0C15, 0x006C_02EC, 0x0025_01FF, 0x000E_0204, 512, 1024]
        };
        let registers: [u32; 9] = [VI_TIMING_REG, VI_V_SYNC_REG, VI_H_SYNC_REG, VI_H_SYNC_LEAP_REG, VI_H_VIDEO_REG,
            VI_V_VIDEO_REG, VI_V_BURST_REG, VI_X_SCALE_REG, VI_Y_SCALE_REG];
        assert(values@ =~= timing_values(tv_type));
        assert(registers@ =~= timing_registers());
        let mut i: usize = 0;
        while i < 9
            invariant
                0 <= i <= 9,
                values@ == timing_values(tv_type),
                registers@ == timing_registers(),
                r@.len() == 2 + i,
                r@[0] == (RegisterWrite { address: VI_STATUS_REG, value: 12878 }),
                r@[1] == (RegisterWrite { address: VI_V_INTR_REG, value: 2 }),
                forall|j: int| 0 <= j < i ==> #[trigger] r@[j + 2] == (RegisterWrite {
                    address: timing_registers()[j],
                    value: timing_values(tv_type)[j],
                }),
            decreases 9 - i,
        {
            r.push(RegisterWrite::new(registers[i], values[i]));
            i = i + 1;
        }
        r
    }

    /// The framebuffers.
    pub fn framebuffers(&self) -> (r: &FramebufferImages<PixelType>)
        ensures
            *r == self.spec_framebuffers(),
    {
        &self.framebuffers
    }

    /// The framebuffers, to be changed in place.
    pub fn framebuffers_mut(&mut self) -> (r: &mut FramebufferImages<PixelType>)
        ensures
            *r == old(self).spec_framebuffers(),
            final(self).spec_framebuffers() == *final(r),
    {
        &mut self.framebuffers
    }

    /// Takes two zeroed pixel arrays of `WIDTH` by `HEIGHT` pixels as the framebuffers and gives
    /// the store that sets the VI's line width.
    pub fn alloc_framebuffer(&mut self, framebuffer1: Vec<PixelType>, framebuffer2: Vec<PixelType>) -> (r: RegisterWrite)
        ensures
            r == (RegisterWrite { address: VI_H_WIDTH_REG, value: WIDTH }),
            final(self).spec_framebuffers().spec_buffer1_is_front() == old(self).spec_framebuffers().spec_buffer1_is_front(),
            final(self).spec_framebuffers().spec_buffer1() matches Some(image) && image.spec_width() == WIDTH
                && image.spec_height() == HEIGHT && image.pixels() == framebuffer1@,
            final(self).spec_framebuffers().spec_buffer2() matches Some(image) && image.spec_width() == WIDTH
                && image.spec_height() == HEIGHT && image.pixels() == framebuffer2@,
    {
        self.framebuffers.use_existing_buffers(WIDTH, HEIGHT, framebuffer1, framebuffer2);
        RegisterWrite::new(VI_H_WIDTH_REG, WIDTH)
    }

    /// Exchanges the front and the back framebuffer.
    pub fn swap_buffers(&mut self)
        ensures
            final(self).spec_framebuffers().spec_buffer1_is_front() == !old(self).spec_framebuffers().spec_buffer1_is_front(),
            final(self).spec_framebuffers().spec_buffer1() == old(self).spec_framebuffers().spec_buffer1(),
            final(self).spec_framebuffers().spec_buffer2() == old(self).spec_framebuffers().spec_buffer2(),
    {
        self.framebuffers.swap_buffers();
    }

    /// The store that makes the VI show the framebuffer whose pixels are at `ptr`.
    pub fn activate_frontbuffer(&self, ptr: u32) -> (r: RegisterWrite)
        ensures
            r == (RegisterWrite { address: VI_DRAM_ADDRESS_REG, value: framebuffer_dram_address(ptr) }),
    {
        RegisterWrite::new(VI_DRAM_ADDRESS_REG, (ptr & 0x1FFF_FFFF) | 0xA000_0000)
    }
}

/// The VI timing of each TV type, register by register: PAL has 625 lines (VSync 0x271) and
/// a Y scale of 853, MPAL and NTSC have 525 lines (VSync 0x20D) and a Y scale of 1024; every
/// type other than PAL and MPAL gets NTSC timing.
pub proof fn lemma_timing_values(tv_type: u8)
    ensures
        timing_registers() == seq![
            0xA440_0014u32, 0xA440_0018, 0xA440_001C, 0xA440_0020, 0xA440_0024, 0xA440_0028,
            0xA440_002C, 0xA440_0030, 0xA440_0034,
        ],
        timing_values(0) == seq![
            0x0404_233Au32, 0x0000_0271, 0x0015_0C69, 0x0C6F_0C6E, 0x0080_0300, 0x002D_026D,
            0x0009_026B, 512, 853,
        ],
        timing_values(2) == seq![
            0x0465_1E39u32, 0x0000_020D, 0x0000_0C10, 0x0C1C_0C1C, 0x006C_02EC, 0x0023_0203,
            0x000E_0204, 512, 1024,
        ],
        tv_type != 0 && tv_type != 2 ==> timing_values(tv_type) == seq![
            0x03E5_2239u32, 0x0000_020D, 0x0000_0C15, 0x0C15_0C15, 0x006C_02EC, 0x0025_01FF,
            0x000E_0204, 512, 1024,
        ],
{
    assert(timing_registers() =~= seq![
        0xA440_0014u32, 0xA440_0018, 0xA440_001C, 0xA440_0020, 0xA440_0024, 0xA440_0028,
        0xA440_002C, 0xA440_0030, 0xA440_0034,
    ]);
    assert(timing_values(0) =~= seq![
        0x0404_233Au32, 0x0000_0271, 0x0015_0C69, 0x0C6F_0C6E, 0x0080_0300, 0x002D_026D,
        0x0009_026B, 512, 853,
    ]);
    assert(timing_values(2) =~= seq![
        0x0465_1E39u32, 0x0000_020D, 0x0000_0C10, 0x0C1C_0C1C, 0x006C_02EC, 0x0023_0203,
        0x000E_0204, 512, 1024,
    ]);
    if tv_type != 0 && tv_type != 2 {
        assert(timing_values(tv_type) =~= seq![
            0x03E5_2239u32, 0x0000_020D, 0x0000_0C15, 0x0C15_0C15, 0x006C_02EC, 0x0025_01FF,
            0x000E_0204, 512, 1024,
        ]);
    }
}

} // verus!
