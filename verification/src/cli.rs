use vstd::prelude::*;
use vstd::string::StringExecFns;

verus! {

/// The submission endpoint for a cluster name: the local validator for
/// "localhost", the public development cluster for anything else.
pub open spec fn spec_rpc_url(cluster: Seq<char>) -> Seq<char> {
    if cluster == "localhost"@ {
        "http://127.0.0.1:8899"@
    } else {
        "https://api.devnet.solana.com"@
    }
}

pub fn rpc_url(cluster: &str) -> (r: String)
    ensures
        r@ == spec_rpc_url(cluster@),
{
    let c = String::from_str(cluster);
    let localhost = String::from_str("localhost");
    if c == localhost {
        String::from_str("http://127.0.0.1:8899")
    } else {
        String::from_str("https://api.devnet.solana.com")
    }
}

} // verus!
