pub mod color;
pub mod compose;
pub mod fit;
pub mod generator;
pub mod layout;
pub mod line;
pub mod typeface;
pub mod units;
pub mod utils;
