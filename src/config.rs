use vstd::prelude::*;

verus! {

/// Settings fixed when the application is built.
pub struct Config {
    /// The onion service that maps are downloaded from.
    pub onion_service_url: String,
}

} // verus!
