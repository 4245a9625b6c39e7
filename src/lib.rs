//! Decision logic of a small windowed triangle renderer: the render loop's
//! state machine, the shader-program build sequence, and the geometry layout
//! handed to the graphics API.
pub mod program;
pub mod render_loop;
pub mod shader;
