//! Rendering core for a terminal 3D rasterizer: RGB colours with their ANSI
//! escape encodings (24-bit truecolor and the 256-colour palette), terminal
//! cells built from half-block glyphs, the character framebuffer and its
//! serialization to text, and the axis selector used by clip-space clipping.

pub mod cell;
pub mod clip;
pub mod color;
pub mod framebuf;

pub use cell::CharHalf;
pub use cell::CharInfo;
pub use cell::half_block_shader;
pub use clip::ClipComponent;
pub use color::AnsiColorMode;
pub use color::CharColor;
pub use color::CharColorLayer;
pub use framebuf::CharBuf;
