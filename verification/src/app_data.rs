use vstd::prelude::*;
use vstd::string::*;

verus! {

/// What every request handler shares: the folder under which uploads are
/// converted.
pub struct AppData {
    pub temp_folder: String,
}

impl AppData {
    pub fn new(temp_folder: &str) -> (r: AppData)
        ensures
            r.temp_folder@ == temp_folder@,
    {
        AppData { temp_folder: String::from_str(temp_folder) }
    }
}

} // verus!
