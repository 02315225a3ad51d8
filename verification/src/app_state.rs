use vstd::prelude::*;

verus! {

/// Process-wide application state shared with the handlers.
#[derive(Debug, Clone)]
pub struct MyAppState {
    pub db_enpoint: String,
    pub is_connected: bool,
    pub conntection_string: String,
}

} // verus!
