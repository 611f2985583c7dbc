pub mod converter;
pub mod round_trip;
