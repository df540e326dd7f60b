pub mod composable_message;
pub mod dls_message;
pub mod memphis_producer;
pub mod memphis_producer_options;
pub mod producer_error;
