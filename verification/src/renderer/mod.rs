//! What the render loop decides about the cursor before it paints.

pub mod cursor_renderer;
