use vstd::prelude::*;
use vstd::string::StringExecFns;

use crate::config::{section_entries, text_entry, Config};
use crate::error::{error_cause, Error};

verus! {

pub const ERR_CONFIG_NO_ADDRESS: &'static str = "No address specified in api config";

/// The settings of the HTTP interface.
#[derive(Debug)]
pub struct ApiConfig {
    pub address: String,
}

impl Config {
    /// The settings of the `api` section: its `address` string is required.
    pub fn api(&self) -> (r: Result<ApiConfig, Error>)
        ensures
            match text_entry(section_entries(self.sections@, "api"@), "address"@) {
                Some(a) => r matches Ok(c) && c.address@ == a,
                None => r matches Err(e) && e is Configuration && error_cause(e)
                    == ERR_CONFIG_NO_ADDRESS@,
            },
    {
        match self.section_text("api", "address") {
            Some(address) => Ok(ApiConfig { address }),
            None => Err(Error::Configuration(String::from_str(ERR_CONFIG_NO_ADDRESS))),
        }
    }
}

} // verus!
