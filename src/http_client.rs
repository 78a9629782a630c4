use vstd::prelude::*;

verus! {

/// Where the DID registry client sends its requests.
pub struct HttpClientConfig {
    pub base_url: String,
}

} // verus!
