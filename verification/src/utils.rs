pub mod temperature;
