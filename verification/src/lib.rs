use vstd::prelude::*;

pub mod fps;
pub mod window;
pub mod conf;
pub mod ctx;
pub mod pipeline;
pub mod laws;
pub mod draw;
