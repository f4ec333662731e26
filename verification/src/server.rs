//! Where the server listens and which database it opens.
use vstd::prelude::*;

use crate::auth::{setting, setting_or};
use crate::text::{parse_u16, parsed_u16};

verus! {

/// The address and port to listen on: `IP_BIND_ADDRESS` (or `127.0.0.1`) and
/// `PORT_BIND_ADDRESS` (or `8080`), which must be a port number.
pub fn bind_address(ip: Option<String>, port: Option<String>) -> (res: (String, u16))
    requires
        parsed_u16(setting(port, "8080"@)) is Some,
    ensures
        res.0@ == setting(ip, "127.0.0.1"@),
        Some(res.1) == parsed_u16(setting(port, "8080"@)),
{
    let address = setting_or(ip, "127.0.0.1");
    let port_text = setting_or(port, "8080");
    let p = match parse_u16(port_text.as_str()) {
        Some(p) => p,
        None => 0,
    };
    (address, p)
}

/// The SQLite database to open: `DATABASE_URL`, or `db/ravage.db`.
pub fn database_url(url: Option<String>) -> (res: String)
    ensures
        res@ == setting(url, "db/ravage.db"@),
{
    setting_or(url, "db/ravage.db")
}

} // verus!
