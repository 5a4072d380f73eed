//! Height-field image viewer core: the procedural grid that the vertex stage
//! synthesises, the pipeline settings for each colour channel, the camera
//! controller, the per-frame pass plan and the session's decisions.
pub mod camera;
pub mod cli;
pub mod frac;
pub mod mesh;
pub mod pipeline;
pub mod scene;
pub mod session;
