//! Where the database is, and the password to it.

use vstd::prelude::*;
use vstd::string::StringExecFns;

use crate::text::join;

verus! {

/// The host of the database and the password of the database's user.
#[derive(Debug, PartialEq, Eq)]
pub struct ConnectionConfig {
    pub host: String,
    pub password: String,
}

impl ConnectionConfig {
    /// The configuration that a new configuration file starts with: words
    /// that stand for the host and the password, for the user to replace.
    pub fn template() -> (config: ConnectionConfig)
        ensures
            config.host@ == "HOST"@,
            config.password@ == "PASSWORD"@,
    {
        ConnectionConfig { host: String::from_str("HOST"), password: String::from_str("PASSWORD") }
    }

    /// The address to connect to: the database `proton_cli` on the host, as
    /// the user `proton` with the password.
    pub fn connection_string(&self) -> (address: String)
        ensures
            address@ == "postgresql://proton:"@ + self.password@ + "@"@ + self.host@
                + "/proton_cli"@,
    {
        let mut address = join("postgresql://proton:", self.password.as_str());
        address.append("@");
        address.append(self.host.as_str());
        address.append("/proton_cli");
        address
    }
}

} // verus!
