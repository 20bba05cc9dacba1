use vstd::prelude::*;
use crate::text::push_str;

verus! {

/// The name of the WireGuard interface the tunnels use.
pub const WIREGUARD_INTERFACE: &'static str = "wg0";

/// The stem of the rendezvous server's configuration file name.
pub const SERVER_FILENAME: &'static str = "server";

/// The stem of a peer's configuration file name.
pub const PEER_FILENAME: &'static str = "client";

/// The YAML file name for `input`: `input.yaml`.
pub fn yaml_filename(input: &str) -> (r: String)
    ensures
        r@ == input@ + ".yaml"@,
{
    let mut s = input.to_string();
    push_str(&mut s, ".yaml");
    s
}

/// The WireGuard configuration file name for `input`: `input-wg0.conf`.
pub fn wireguard_config_name(input: &str) -> (r: String)
    ensures
        r@ == input@ + "-"@ + WIREGUARD_INTERFACE@ + ".conf"@,
{
    let mut s = input.to_string();
    push_str(&mut s, "-");
    push_str(&mut s, WIREGUARD_INTERFACE);
    push_str(&mut s, ".conf");
    s
}

} // verus!
