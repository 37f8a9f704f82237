//! Two framebuffers, one shown (front) while the other is drawn into (back).

use vstd::prelude::*;

use crate::graphics::color::Color;
use crate::graphics::image::Image;

verus! {

pub struct FramebufferImages<T: Copy + Color> {
    buffer1_is_front: bool,
    buffer1: Option<Image<T>>,
    buffer2: Option<Image<T>>,
}

impl<T: Copy + Color> FramebufferImages<T> {
    /// Whether the first buffer is the one shown.
    pub closed spec fn spec_buffer1_is_front(&self) -> bool {
        self.buffer1_is_front
    }

    /// The first buffer.
    pub closed spec fn spec_buffer1(&self) -> Option<Image<T>> {
        self.buffer1
    }

    /// The second buffer.
    pub closed spec fn spec_buffer2(&self) -> Option<Image<T>> {
        self.buffer2
    }

    /// The buffer that is shown.
    pub open spec fn spec_frontbuffer(&self) -> Option<Image<T>> {
        if self.spec_buffer1_is_front() { self.spec_buffer1() } else { self.spec_buffer2() }
    }

    /// The buffer that is drawn into.
    pub open spec fn spec_backbuffer(&self) -> Option<Image<T>> {
        if self.spec_buffer1_is_front() { self.spec_buffer2() } else { self.spec_buffer1() }
    }

    /// No buffers yet; the first one will be in front.
    pub fn new() -> (r: Self)
        ensures
            r.spec_buffer1_is_front(),
            r.spec_buffer1() is None,
            r.spec_buffer2() is None,
    {
        Self { buffer1_is_front: true, buffer1: None, buffer2: None }
    }

    /// Takes two pixel arrays as the buffers, each `width` by `height` with 8 pixels of padding
    /// at the right of each row.
    pub fn use_existing_buffers(&mut self, width: u32, height: u32, framebuffer1: Vec<T>, framebuffer2: Vec<T>)
        ensures
            final(self).spec_buffer1_is_front() == old(self).spec_buffer1_is_front(),
            final(self).spec_buffer1() matches Some(image) && image.spec_width() == width && image.spec_height() == height
                && image.spec_padding_right() == 8 && image.pixels() == framebuffer1@,
            final(self).spec_buffer2() matches Some(image) && image.spec_width() == width && image.spec_height() == height
                && image.spec_padding_right() == 8 && image.pixels() == framebuffer2@,
    {
        self.buffer1 = Some(Image::new(width, height, 8, framebuffer1));
        self.buffer2 = Some(Image::new(width, height, 8, framebuffer2));
    }

    /// Exchanges the front and the back buffer.
    pub fn swap_buffers(&mut self)
        ensures
            final(self).spec_buffer1_is_front() == !old(self).spec_buffer1_is_front(),
            final(self).spec_buffer1() == old(self).spec_buffer1(),
            final(self).spec_buffer2() == old(self).spec_buffer2(),
    {
        self.buffer1_is_front = !self.buffer1_is_front;
    }

    /// Whether the first buffer is the one shown.
    pub fn buffer1_is_front(&self) -> (r: bool)
        ensures
            r == self.spec_buffer1_is_front(),
    {
        self.buffer1_is_front
    }

    /// The buffer that is shown.
    pub fn frontbuffer(&self) -> (r: &Option<Image<T>>)
        ensures
            *r == self.spec_frontbuffer(),
    {
        if true ^ self.buffer1_is_front() { &self.buffer2 } else { &self.buffer1 }
    }

    /// The buffer that is drawn into.
    pub fn backbuffer(&self) -> (r: &Option<Image<T>>)
        ensures
            *r == self.spec_backbuffer(),
    {
        if false ^ self.buffer1_is_front() { &self.buffer2 } else { &self.buffer1 }
    }

    /// The buffer that is shown, to be changed in place.
    pub fn frontbuffer_mut(&mut self) -> (r: &mut Option<Image<T>>)
        ensures
            *r == old(self).spec_frontbuffer(),
            final(self).spec_buffer1_is_front() == old(self).spec_buffer1_is_front(),
            final(self).spec_frontbuffer() == *final(r),
            final(self).spec_backbuffer() == old(self).spec_backbuffer(),
    {
        if self.buffer1_is_front { &mut self.buffer1 } else { &mut self.buffer2 }
    }

    /// The buffer that is drawn into, to be changed in place.
    pub fn backbuffer_mut(&mut self) -> (r: &mut Option<Image<T>>)
        ensures
            *r == old(self).spec_backbuffer(),
            final(self).spec_buffer1_is_front() == old(self).spec_buffer1_is_front(),
            final(self).spec_backbuffer() == *final(r),
            final(self).spec_frontbuffer() == old(self).spec_frontbuffer(),
    {
        if self.buffer1_is_front { &mut self.buffer2 } else { &mut self.buffer1 }
    }
}

/// Swapping makes the back buffer the front buffer and the other way round, and swapping twice
/// changes nothing.
pub proof fn lemma_swap_buffers<T: Copy + Color>(a: FramebufferImages<T>, b: FramebufferImages<T>, c: FramebufferImages<T>)
    requires
        b.spec_buffer1_is_front() == !a.spec_buffer1_is_front(),
        b.spec_buffer1() == a.spec_buffer1(),
        b.spec_buffer2() == a.spec_buffer2(),
        c.spec_buffer1_is_front() == !b.spec_buffer1_is_front(),
        c.spec_buffer1() == b.spec_buffer1(),
        c.spec_buffer2() == b.spec_buffer2(),
    ensures
        b.spec_frontbuffer() == a.spec_backbuffer(),
        b.spec_backbuffer() == a.spec_frontbuffer(),
        c.spec_frontbuffer() == a.spec_frontbuffer(),
        c.spec_backbuffer() == a.spec_backbuffer(),
{
}

} // verus!
