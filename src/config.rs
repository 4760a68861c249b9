//! The console's settings, built once at startup and handed to whatever
//! needs them.
use vstd::prelude::*;

verus! {

/// Where the service is reached when the settings name no other address.
pub open spec fn default_base() -> Seq<char> {
    "http://localhost:8080/GamifyUser/"@
}

/// The address of the service when the settings name none.
pub fn default_base_link() -> (r: String)
    ensures
        r@ == default_base(),
{
    String::from_str("http://localhost:8080/GamifyUser/")
}

/// The console's settings.
pub struct Config {
    pub username: String,
    pub password: String,
    pub debug: bool,
    pub history: bool,
    pub base_link: String,
}

impl Config {
    /// The full address of an endpoint: the base address followed by the
    /// endpoint's path.
    pub fn url(&self, path: &str) -> (r: String)
        ensures
            r@ == self.base_link@ + path@,
    {
        let mut u = self.base_link.clone();
        u.append(path);
        u
    }
}

} // verus!
