//! A thin 2D application shell, reduced to the decisions it makes.
//!
//! The crate holds the retained scene, the positioning of shaped text, the
//! surface manager with its offscreen target and conversion pass, the frame
//! driver, the canvas read-back and the input bookkeeping as plain data and
//! total functions. Lengths are whole numbers of layout units, sixty-four to
//! the pixel. The shell around the crate talks to the window system, the
//! rasterizer, the shaper and the graphics device, and does what the crate
//! decides.

pub mod canvas;
pub mod color;
pub mod context;
pub mod coords;
pub mod font;
pub mod frame_laws;
pub mod gpu;
pub mod image;
pub mod layout;
pub mod layout_laws;
pub mod prim;
pub mod scene;
pub mod shapes;
pub mod state;
pub mod text;
pub mod texture;
pub mod window;
