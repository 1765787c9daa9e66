//! One adapter per manager: the command lines it runs and how its output
//! is read.

pub mod brew;
pub mod bun;
pub mod cargo;
pub mod mas;
pub mod npm;
pub mod pip;
pub mod pipx;
pub mod pnpm;
pub mod uv;
pub mod yarn;
