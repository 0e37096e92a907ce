use vstd::prelude::*;

verus! {

/// Where the GStreamer daemon's HTTP API is reached.
#[derive(Debug)]
pub struct GstClient {
    pub base_url: String,
}

impl GstClient {
    pub fn new(base_url: String) -> (r: GstClient)
        ensures
            r.base_url == base_url,
    {
        GstClient { base_url }
    }

    /// An exact copy of this client.
    pub fn duplicate(&self) -> (r: GstClient)
        ensures
            r == *self,
    {
        GstClient { base_url: self.base_url.clone() }
    }
}

/// Requests to the `debug/` endpoint of the daemon.
#[derive(Debug)]
pub struct Debug {
    pub client: GstClient,
}

/// The text of a boolean query value.
pub open spec fn bool_text(b: bool) -> Seq<char> {
    if b {
        "true"@
    } else {
        "false"@
    }
}

fn bool_str(b: bool) -> (r: &'static str)
    ensures
        r@ == bool_text(b),
{
    if b {
        "true"
    } else {
        "false"
    }
}

impl Debug {
    pub fn new(client: &GstClient) -> (r: Debug)
        ensures
            r.client == *client,
    {
        Debug { client: client.duplicate() }
    }

    /// Path of the request that switches debugging on or off.
    pub fn enable_path(&self, on: bool) -> (r: String)
        ensures
            r@ == "debug/enable?name="@ + bool_text(on),
    {
        "debug/enable?name=".to_owned().concat(bool_str(on))
    }

    /// Path of the request that resets the debug threshold, or not.
    pub fn reset_path(&self, value: bool) -> (r: String)
        ensures
            r@ == "debug/reset?name="@ + bool_text(value),
    {
        "debug/reset?name=".to_owned().concat(bool_str(value))
    }

    /// Path of the request that sets the debug threshold to `value`.
    pub fn threshold_path(&self, value: &str) -> (r: String)
        ensures
            r@ == "debug/threshold?name="@ + value@,
    {
        "debug/threshold?name=".to_owned().concat(value)
    }

    /// Path of the request that switches coloured debug output on or off.
    pub fn color_path(&self, on: bool) -> (r: String)
        ensures
            r@ == "debug/color?name="@ + bool_text(on),
    {
        "debug/color?name=".to_owned().concat(bool_str(on))
    }
}

} // verus!
