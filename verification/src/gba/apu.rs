pub mod sound;
pub mod length;
pub mod noise;
pub mod period;
pub mod pulse;
