//! GLSL sources of the lessons' shader programs, by stage.
pub mod stage2;
pub mod stage3;
pub mod stage4;
pub mod stage6;
pub mod stage7;
pub mod stage8;
pub mod stage9;
pub mod stage10_w_11;
pub mod stage12;
pub mod stage14;
