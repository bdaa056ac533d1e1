pub mod birds;
pub mod sunny;
pub mod clouds;
pub mod raindrops;
pub mod thunderstorm;
