use vstd::prelude::*;

pub mod schedule;
pub mod status;
pub mod shopify;
pub mod app;

verus! {

/// Width of the panel in pixels.
pub const DISPLAY_WIDTH: u32 = 400;

/// Height of the panel in pixels.
pub const DISPLAY_HEIGHT: u32 = 300;

/// A display backend: it makes the drawing surface `D`, blanks it, and shows it on
/// its device. One backend is chosen when the program is built.
pub trait Output<D> {
    /// A fresh surface of the panel's size.
    fn get_display(&self) -> D;

    /// Sets every pixel of the surface to the background color.
    fn clear_display(&self, draw_target: &mut D) -> Result<(), std::convert::Infallible>;

    /// Shows the surface on the device.
    fn draw(&mut self, draw_target: &mut D);
}

} // verus!
