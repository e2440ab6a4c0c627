//! State advanced by the shader canvas's animation-frame loop: the fixed-step
//! time counter, the pointer position a move handler records, the uniforms
//! pushed before each draw call, and the canvas buffer's sizing.

use vstd::prelude::*;

verus! {

/// How much the time counter grows on every animation frame. The counter is
/// frame-driven, never derived from wall-clock time.
pub const TIME_STEP: u64 = 20;

/// The pointer's last known position, in client coordinates.
#[derive(Clone, Copy, Debug, PartialEq, Eq, Structural)]
pub struct MousePos {
    pub x: i32,
    pub y: i32,
}

impl MousePos {
    /// The position before any pointer event has arrived.
    pub fn origin() -> (p: MousePos)
        ensures
            p.x == 0,
            p.y == 0,
    {
        MousePos { x: 0, y: 0 }
    }

    /// The pointer-move handler's whole effect: record the event's
    /// client coordinates, overwriting the previous position.
    pub fn moved_to(&mut self, x: i32, y: i32)
        ensures
            final(self).x == x,
            final(self).y == y,
    {
        self.x = x;
        self.y = y;
    }
}

/// The values pushed to the shader before one draw call: the time counter,
/// the pointer position, and the drawing buffer's resolution.
#[derive(Clone, Copy, Debug, PartialEq, Eq, Structural)]
pub struct FrameUniforms {
    pub time: u64,
    pub mouse: MousePos,
    pub width: i32,
    pub height: i32,
}

/// The render loop's time counter. It starts at zero and each frame adds
/// exactly `TIME_STEP`, so it is strictly increasing across frames.
pub struct FrameClock {
    pub timestamp: u64,
}

impl FrameClock {
    /// The clock before the first frame callback has run.
    pub fn new() -> (c: FrameClock)
        ensures
            c.timestamp == 0,
    {
        FrameClock { timestamp: 0 }
    }

    /// One frame's advance: the counter grows by exactly the fixed step.
    pub fn tick(&mut self)
        requires
            old(self).timestamp + TIME_STEP <= u64::MAX,
        ensures
            final(self).timestamp == old(self).timestamp + TIME_STEP,
            final(self).timestamp > old(self).timestamp,
    {
        self.timestamp = self.timestamp + TIME_STEP;
    }

    /// What the loop pushes before a draw call, given the pointer position
    /// and the drawing buffer's resolution read at that moment.
    pub fn uniforms(&self, mouse: MousePos, width: i32, height: i32) -> (u: FrameUniforms)
        ensures
            u.time == self.timestamp,
            u.mouse == mouse,
            u.width == width,
            u.height == height,
    {
        FrameUniforms { time: self.timestamp, mouse, width, height }
    }

    /// One whole frame callback: advance the clock by the fixed step, then
    /// report the uniforms of the draw that follows.
    pub fn next_frame(&mut self, mouse: MousePos, width: i32, height: i32) -> (u: FrameUniforms)
        requires
            old(self).timestamp + TIME_STEP <= u64::MAX,
        ensures
            final(self).timestamp == old(self).timestamp + TIME_STEP,
            u.time == final(self).timestamp,
            u.mouse == mouse,
            u.width == width,
            u.height == height,
    {
        self.tick();
        self.uniforms(mouse, width, height)
    }
}

/// The canvas buffer's size after the first render: exactly the element's
/// client rectangle, which the layout engine reports as non-negative.
pub fn canvas_dimensions(client_width: i32, client_height: i32) -> (d: (u32, u32))
    requires
        0 <= client_width,
        0 <= client_height,
    ensures
        d.0 == client_width as u32,
        d.1 == client_height as u32,
        d.0 as int == client_width as int,
        d.1 as int == client_height as int,
{
    (client_width as u32, client_height as u32)
}

} // verus!
