use vstd::prelude::*;

verus! {

/// The application's settings.
pub struct AppConfig {
    pub setting1: String,
    pub setting2: i32,
}

} // verus!
