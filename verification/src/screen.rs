//! Screen: the 256 x 240 frame buffer of palette indices, plus the
//! "frame ready" flag the host polls.
//!
//! Each entry is a palette index in 0..64; the host translates indices to
//! RGB when it presents the frame.

use vstd::prelude::*;

verus! {

pub const FRAME_WIDTH: usize = 256;
pub const FRAME_HEIGHT: usize = 240;

pub struct Screen {
    pub frame_buffer: Vec<u8>,
    pub draw_requested: bool,
}

#[verifier::ext_equal]
pub ghost struct ScreenV {
    pub frame: Seq<u8>,
    pub draw_requested: bool,
}

impl View for Screen {
    type V = ScreenV;

    open spec fn view(&self) -> ScreenV {
        ScreenV { frame: self.frame_buffer@, draw_requested: self.draw_requested }
    }
}

impl ScreenV {
    pub open spec fn wf(self) -> bool {
        &&& self.frame.len() == FRAME_WIDTH * FRAME_HEIGHT
        &&& forall|i: int| 0 <= i < self.frame.len() ==> self.frame[i] < 64
    }
}

impl Screen {
    pub open spec fn wf(self) -> bool {
        self@.wf()
    }

    pub fn new() -> (screen: Screen)
        ensures
            screen.wf(),
            !screen.draw_requested,
            screen@.frame == Seq::new((FRAME_WIDTH * FRAME_HEIGHT) as nat, |i: int| 0u8),
    {
        let frame_buffer: Vec<u8> = vec![0u8; FRAME_WIDTH * FRAME_HEIGHT];
        proof {
            assert(frame_buffer@ =~= Seq::new((FRAME_WIDTH * FRAME_HEIGHT) as nat, |i: int| 0u8));
        }
        Screen { frame_buffer, draw_requested: false }
    }

    pub fn get_frame_buffer(&self) -> (frame: &Vec<u8>)
        ensures
            frame@ == self@.frame,
    {
        &self.frame_buffer
    }

    /// Store a palette index (taken modulo 64) at (x, y), row-major.
    pub fn set_pixel(&mut self, x: usize, y: usize, color: u8)
        requires
            old(self).wf(),
            x < FRAME_WIDTH,
            y < FRAME_HEIGHT,
        ensures
            final(self).wf(),
            final(self)@.frame == old(self)@.frame.update(y * FRAME_WIDTH + x, (color % 64) as u8),
            final(self).draw_requested == old(self).draw_requested,
    {
        self.frame_buffer[y * FRAME_WIDTH + x] = color % 64;
    }

    pub fn is_draw_requested(&self) -> (requested: bool)
        ensures
            requested == self.draw_requested,
    {
        self.draw_requested
    }

    pub fn request_draw(&mut self)
        ensures
            final(self).frame_buffer == old(self).frame_buffer,
            final(self).draw_requested,
            old(self).wf() ==> final(self).wf(),
    {
        self.draw_requested = true;
    }

    pub fn finish_draw(&mut self)
        ensures
            final(self).frame_buffer == old(self).frame_buffer,
            !final(self).draw_requested,
            old(self).wf() ==> final(self).wf(),
    {
        self.draw_requested = false;
    }
}

} // verus!
