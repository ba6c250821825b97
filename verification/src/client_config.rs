//! The command-line client's configuration, as plain values: the API base
//! URL, the preferred output format, and creation defaults.  Reading and
//! writing the configuration file happens outside the verified core.

use crate::instance::clone_opt_string;
use crate::output::spec_output_format;
use crate::output::OutputFormat;
use vstd::prelude::*;
use vstd::string::*;

verus! {

/// Where the API is reached.
#[derive(Debug)]
pub struct ApiConfig {
    pub base_url: String,
}

/// How output is rendered by default.
#[derive(Debug)]
pub struct OutputConfig {
    pub format: String,
}

/// Defaults applied to creation requests.
#[derive(Debug)]
pub struct CreateConfig {
    pub rdp_password: Option<String>,
}

/// The client's configuration.
#[derive(Debug)]
pub struct ClientConfig {
    pub api: ApiConfig,
    pub output: OutputConfig,
    pub create: CreateConfig,
}

pub fn default_api_url() -> (r: String)
    ensures
        r@ == "http://localhost:3000"@,
{
    String::from_str("http://localhost:3000")
}

pub fn default_output_format() -> (r: String)
    ensures
        r@ == "table"@,
{
    String::from_str("table")
}

impl Default for ApiConfig {
    fn default() -> (r: Self)
        ensures
            r.base_url@ == "http://localhost:3000"@,
    {
        ApiConfig { base_url: default_api_url() }
    }
}

impl Default for OutputConfig {
    fn default() -> (r: Self)
        ensures
            r.format@ == "table"@,
    {
        OutputConfig { format: default_output_format() }
    }
}

impl Default for CreateConfig {
    fn default() -> (r: Self)
        ensures
            r.rdp_password is None,
    {
        CreateConfig { rdp_password: None }
    }
}

impl Default for ClientConfig {
    fn default() -> (r: Self)
        ensures
            r.api.base_url@ == "http://localhost:3000"@,
            r.output.format@ == "table"@,
            r.create.rdp_password is None,
    {
        ClientConfig {
            api: ApiConfig::default(),
            output: OutputConfig::default(),
            create: CreateConfig::default(),
        }
    }
}

impl Clone for ClientConfig {
    fn clone(&self) -> (r: Self)
        ensures
            r.api.base_url@ == self.api.base_url@,
            r.output.format@ == self.output.format@,
            r.create.rdp_password == self.create.rdp_password,
    {
        ClientConfig {
            api: ApiConfig { base_url: self.api.base_url.clone() },
            output: OutputConfig { format: self.output.format.clone() },
            create: CreateConfig { rdp_password: clone_opt_string(&self.create.rdp_password) },
        }
    }
}

impl ClientConfig {
    /// The configured output format, if its name parses.
    pub fn output_format(&self) -> (r: Option<OutputFormat>)
        ensures
            r == spec_output_format(self.output.format@),
    {
        OutputFormat::from_str(self.output.format.as_str())
    }
}

} // verus!
