pub mod debug;
pub mod util;
