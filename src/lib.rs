pub mod imaging;
pub mod resize;
