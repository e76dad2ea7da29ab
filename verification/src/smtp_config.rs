//! The mail and reset-URL configuration the reset flow is given. The
//! values come from the process's secret store at startup; the caller
//! reads them there and builds this object once.

use vstd::prelude::*;

verus! {

/// SMTP transport settings and the base URL that reset links start with.
pub struct Config {
    pub smtp_host: String,
    pub smtp_port: u16,
    pub smtp_user: String,
    pub smtp_pass: String,
    pub smtp_from: String,
    pub smtp_to: String,
    pub reset_password_url: String,
}

impl Config {
    /// Bundle already-loaded configuration values.
    pub fn new(
        smtp_host: String,
        smtp_port: u16,
        smtp_user: String,
        smtp_pass: String,
        smtp_from: String,
        smtp_to: String,
        reset_password_url: String,
    ) -> (r: Config)
        ensures
            r == (Config {
                smtp_host,
                smtp_port,
                smtp_user,
                smtp_pass,
                smtp_from,
                smtp_to,
                reset_password_url,
            }),
    {
        Config { smtp_host, smtp_port, smtp_user, smtp_pass, smtp_from, smtp_to, reset_password_url }
    }
}

} // verus!
