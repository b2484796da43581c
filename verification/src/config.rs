//! Application configuration data. Loading from the environment is I/O and
//! lives outside the library; the validation of loaded values lives here.

use vstd::prelude::*;

use crate::errors::Error;

verus! {

/// Connection data for the database.
#[derive(Clone, Debug)]
pub struct Database {
    pub url: String,
    pub pool_size: u32,
}

/// Settings of the HTTP(S) server.
#[derive(Clone, Debug)]
pub struct Http {
    pub port: u16,
    pub access_logs: bool,
    pub public_directory: String,
}

/// The mail backends the platform can send through.
#[derive(Clone, Copy, Debug, PartialEq, Eq, Structural)]
pub enum MailDriver {
    Ses,
}

impl MailDriver {
    /// Parses a driver name; `"ses"` is the only accepted value.
    pub fn from_str(s: &str) -> (r: Result<MailDriver, Error>)
        ensures
            r is Ok <==> s@ == "ses"@,
            r matches Ok(d) ==> d == MailDriver::Ses,
            r is Err ==> (r matches Err(Error::InvalidArgument(m)) && m@ == "config: "@ + s@
                + " is not a valid mail driver"@),
    {
        if s.to_owned() == String::from_str("ses") {
            Ok(MailDriver::Ses)
        } else {
            let msg = String::from_str("config: ").concat(s).concat(" is not a valid mail driver");
            Err(Error::InvalidArgument(msg))
        }
    }

    /// The canonical name of the driver.
    pub fn as_str(&self) -> (r: &'static str)
        ensures
            r@ == "ses"@,
    {
        "ses"
    }
}

/// Mail sending settings, including the blocklist of disposable domains.
#[derive(Clone, Debug)]
pub struct Mail {
    pub driver: MailDriver,
    pub notify_address: String,
    pub domains_blocklist_file: String,
    pub domains_blocklist: Vec<String>,
}

/// The storage backends the platform can use.
#[derive(Clone, Copy, Debug, PartialEq, Eq, Structural)]
pub enum StorageDriver {
    S3,
}

impl StorageDriver {
    /// Parses a driver name; `"s3"` is the only accepted value.
    pub fn from_str(s: &str) -> (r: Result<StorageDriver, Error>)
        ensures
            r is Ok <==> s@ == "s3"@,
            r matches Ok(d) ==> d == StorageDriver::S3,
            r is Err ==> (r matches Err(Error::InvalidArgument(m)) && m@ == "config: "@ + s@
                + " is not a valid storage driver"@),
    {
        if s.to_owned() == String::from_str("s3") {
            Ok(StorageDriver::S3)
        } else {
            let msg = String::from_str("config: ").concat(s).concat(
                " is not a valid storage driver",
            );
            Err(Error::InvalidArgument(msg))
        }
    }

    /// The canonical name of the driver.
    pub fn as_str(&self) -> (r: &'static str)
        ensures
            r@ == "s3"@,
    {
        "s3"
    }
}

/// File storage settings.
#[derive(Clone, Debug)]
pub struct Storage {
    pub driver: StorageDriver,
    pub base_direcotry: String,
}

/// Billing provider credentials and catalogue data.
#[derive(Clone, Debug)]
pub struct Stripe {
    pub secret_key: String,
    pub public_key: String,
    pub webhook_secret: String,
    pub data: StripeData,
    pub json_data: String,
}

/// Catalogue data of the billing provider.
#[derive(Clone, Debug)]
pub struct StripeData {
    pub taxes: Vec<(String, String)>,
    pub products: StripeProducts,
    pub prices: StripePrices,
}

/// Product identifiers per plan.
#[derive(Clone, Debug)]
pub struct StripeProducts {
    pub starter: String,
    pub pro: String,
    pub ultra: String,
}

/// Price identifiers per plan.
#[derive(Clone, Debug)]
pub struct StripePrices {
    pub starter: String,
    pub pro: String,
    pub ultra: String,
}

/// AWS credentials and default region.
#[derive(Clone, Debug)]
pub struct Aws {
    pub secret_access_key: Option<String>,
    pub access_key_id: Option<String>,
    pub default_region: String,
}

/// SMTP relay settings.
#[derive(Clone, Debug)]
pub struct Smtp {
    pub port: Option<u16>,
    pub host: Option<String>,
    pub username: Option<String>,
    pub password: Option<String>,
}

/// SES region.
#[derive(Clone, Debug)]
pub struct Ses {
    pub region: String,
}

/// S3 region and bucket.
#[derive(Clone, Debug)]
pub struct S3 {
    pub region: String,
    pub bucket: Option<String>,
}

/// Background worker settings.
#[derive(Clone, Debug)]
pub struct Worker {
    pub concurrency: usize,
}

/// Error-reporting settings.
#[derive(Clone, Debug)]
pub struct Sentry {
    pub security_report_uri: Option<String>,
    pub ingest_domain: Option<String>,
    pub dsn: Option<String>,
}

/// The whole application configuration.
#[derive(Clone, Debug)]
pub struct Config {
    pub env: String,
    pub base_url: String,
    pub master_key: Vec<u8>,
    pub old_master_key: Option<Vec<u8>>,
    pub self_hosted: bool,
    pub debug: bool,
    pub http: Http,
    pub database: Database,
    pub smtp: Smtp,
    pub mail: Mail,
    pub storage: Storage,
    pub stripe: Stripe,
    pub aws: Aws,
    pub ses: Ses,
    pub s3: S3,
    pub worker: Worker,
    pub sentry: Sentry,
}

/// The environment names a configuration may carry.
pub open spec fn env_name_ok(env: Seq<char>) -> bool {
    env == "dev"@ || env == "staging"@ || env == "production"@
}

impl Config {
    /// Checks the loaded values; today the environment name is the only rule.
    pub fn clean_and_validate(&mut self) -> (r: Result<(), Error>)
        ensures
            *final(self) == *old(self),
            r is Ok <==> env_name_ok(old(self).env@),
            r is Err ==> (r matches Err(Error::InvalidArgument(m)) && m@ == "config: Invalid env: "@
                + old(self).env@),
    {
        if self.env == String::from_str("dev") || self.env == String::from_str("staging")
            || self.env == String::from_str("production") {
            Ok(())
        } else {
            let msg = String::from_str("config: Invalid env: ").concat(self.env.as_str());
            Err(Error::InvalidArgument(msg))
        }
    }
}

} // verus!
