//! How a producer is configured.

use vstd::prelude::*;

verus! {

/// The name a producer registers under, and whether a random suffix keeps it
/// unique among clients.
pub struct MemphisProducerOptions {
    pub station_name: String,
    pub producer_name: String,
    pub generate_unique_suffix: bool,
}

impl MemphisProducerOptions {
    /// The defaults every builder starts from: a unique suffix is appended.
    pub fn new(producer_name: &str) -> (o: Self)
        ensures
            o.producer_name@ == producer_name@,
            o.station_name@ == "Default_Station_Name"@,
            o.generate_unique_suffix,
    {
        MemphisProducerOptions {
            station_name: "Default_Station_Name".to_owned(),
            producer_name: producer_name.to_owned(),
            generate_unique_suffix: true,
        }
    }

    pub fn with_generate_unique_suffix(self, generate_unique_suffix: bool) -> (o: Self)
        ensures
            o == (Self { generate_unique_suffix, ..self }),
    {
        Self { generate_unique_suffix, ..self }
    }
}

} // verus!
