pub mod in_flight;
pub mod memphis_station;
pub mod memphis_station_options;
