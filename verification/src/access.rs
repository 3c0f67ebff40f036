//! Who may see what, and where the service listens.
use crate::text::same_text;
use vstd::prelude::*;

verus! {

/// The port the service listens on, after the host's address.
pub const PORT_SUFFIX: &'static str = ":14324";

/// The reply to a visitor from another host who asks for a task's rows.
pub const NO_PERMISSION: &'static str = "no permission";

/// The reply to a visitor from another host who asks for the administrator's list.
pub const ADMIN_NO_PERMISSION: &'static str = "无权限";

/// The reply of the greeting route.
pub const HELLO: &'static str = "Hey there!";

/// Whether the visitor at `peer_ip` comes from another host than the
/// service's own address `host_ip`.
pub fn is_not_local_host(peer_ip: &str, host_ip: &str) -> (r: bool)
    ensures
        r == (peer_ip@ != host_ip@),
{
    !same_text(peer_ip, host_ip)
}

/// The refusal a visitor gets when asking for a task's rows: `None` lets the
/// visitor through, which only a visitor from the service's own host is.
pub fn excel_refusal(peer_ip: &str, host_ip: &str) -> (r: Option<&'static str>)
    ensures
        r == (if peer_ip@ != host_ip@ {
            Some(NO_PERMISSION)
        } else {
            None
        }),
{
    if is_not_local_host(peer_ip, host_ip) {
        Some(NO_PERMISSION)
    } else {
        None
    }
}

/// The refusal a visitor gets when asking for the administrator's list:
/// `None` lets the visitor through, which only a visitor from the service's
/// own host is.
pub fn admin_refusal(peer_ip: &str, host_ip: &str) -> (r: Option<&'static str>)
    ensures
        r == (if peer_ip@ != host_ip@ {
            Some(ADMIN_NO_PERMISSION)
        } else {
            None
        }),
{
    if is_not_local_host(peer_ip, host_ip) {
        Some(ADMIN_NO_PERMISSION)
    } else {
        None
    }
}

/// The address the service binds: the host's address and the service's port.
pub fn listen_address(host_ip: &str) -> (r: String)
    ensures
        r@ == host_ip@ + PORT_SUFFIX@,
{
    let mut r = String::from_str(host_ip);
    r.append(PORT_SUFFIX);
    r
}

/// The origin that cross-origin requests may come from: the service's own
/// address over HTTP.
pub fn allowed_origin(address: &str) -> (r: String)
    ensures
        r@ == "http://"@ + address@,
{
    let mut r = String::from_str("http://");
    r.append(address);
    r
}

} // verus!
