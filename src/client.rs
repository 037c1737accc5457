use vstd::prelude::*;
use vstd::string::StringExecFns;

verus! {

/// The transport a client instance speaks for all of its requests.
#[derive(PartialEq, Eq, Structural, Clone, Copy, Debug)]
pub enum Protocol {
    Http,
    Https,
}

/// The transport for a client: plain HTTP only when `insecure` is asked for,
/// HTTPS otherwise.
pub fn protocol_for(insecure: Option<bool>) -> (r: Protocol)
    ensures
        r == (if insecure == Some(true) {
            Protocol::Http
        } else {
            Protocol::Https
        }),
{
    match insecure {
        Some(true) => Protocol::Http,
        _ => Protocol::Https,
    }
}

/// The confirmation of a cross-repository mount.
pub open spec fn mount_text(digest: Seq<char>, from: Seq<char>, target: Seq<char>) -> Seq<char> {
    "Mounted blob "@ + digest + " from "@ + from + " to "@ + target
}

/// Words the confirmation of a blob mounted from `from` into `target`.
pub fn mount_message(digest: &str, from: &str, target: &str) -> (r: String)
    ensures
        r@ == mount_text(digest@, from@, target@),
{
    <String as StringExecFns>::from_str("Mounted blob ").concat(digest).concat(" from ").concat(from).concat(" to ").concat(
        target,
    )
}

} // verus!
