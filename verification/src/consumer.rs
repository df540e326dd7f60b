pub mod consumer_error;
pub mod incoming_message;
pub mod keep_alive;
pub mod memphis_consumer;
pub mod memphis_consumer_options;
