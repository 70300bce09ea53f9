use vstd::prelude::*;

verus! {

/// Where the browser-hosted client reaches its API.
#[derive(Clone, Debug, PartialEq)]
pub struct Config {
    api_url: String,
}

impl View for Config {
    type V = Seq<char>;

    closed spec fn view(&self) -> Seq<char> {
        self.api_url@
    }
}

impl Config {
    /// The configured API entry point.
    pub fn api_url(&self) -> (r: &str)
        ensures
            r@ == self@,
    {
        self.api_url.as_str()
    }
}

impl Default for Config {
    /// The development default: a local API server.
    fn default() -> (r: Self)
        ensures
            r@ == "http://localhost:9000/api"@,
    {
        Config { api_url: "http://localhost:9000/api".to_owned() }
    }
}

} // verus!
