//! The reply of the remote-procedure service.
use vstd::prelude::*;

verus! {

/// The service that answers a request with the data it received.
pub struct MyServiceImpl;

impl MyServiceImpl {
    /// The reply to a request carrying `data`: `Reeived: ` followed by the
    /// data.
    pub fn my_method(&self, data: &str) -> (res: String)
        ensures
            res@ == "Reeived: "@ + data@,
    {
        let mut res = String::from_str("Reeived: ");
        res.append(data);
        res
    }
}

} // verus!
