//! Configuration of the client: logging, account and venue endpoints.
use vstd::prelude::*;
use vstd::string::*;
use crate::error::ConfigError;
use crate::order::Symbol;
use crate::text::to_chars;

verus! {

/// Credentials of one account.
#[derive(Debug, Clone)]
pub struct AccountConfidential {
    pub name: String,
    pub api_key: String,
    pub api_secret: String,
    pub is_testnet: bool,
}

/// Whether a flag in the account table says yes: the word `true`, in any
/// mix of upper and lower case.
pub open spec fn says_true(text: Seq<char>) -> bool {
    &&& text.len() == 4
    &&& (text[0] == 't' || text[0] == 'T')
    &&& (text[1] == 'r' || text[1] == 'R')
    &&& (text[2] == 'u' || text[2] == 'U')
    &&& (text[3] == 'e' || text[3] == 'E')
}

/// Reads a yes/no flag of the account table; see [`says_true`].
pub fn bool_from_string(text: &str) -> (b: bool)
    ensures
        b == says_true(text@),
{
    let chars = to_chars(text);
    chars.len() == 4 && (chars[0] == 't' || chars[0] == 'T') && (chars[1] == 'r' || chars[1]
        == 'R') && (chars[2] == 'u' || chars[2] == 'U') && (chars[3] == 'e' || chars[3] == 'E')
}

impl AccountConfidential {
    pub fn new(name: String, api_key: String, api_secret: String, is_testnet: bool) -> (r: Self)
        ensures
            r.name == name,
            r.api_key == api_key,
            r.api_secret == api_secret,
            r.is_testnet == is_testnet,
    {
        AccountConfidential { name, api_key, api_secret, is_testnet }
    }

    /// Whether the account lives on the venue's test network.
    pub fn is_testnet(&self) -> (r: bool)
        ensures
            r == self.is_testnet,
    {
        self.is_testnet
    }

    /// The first account of the given name among the records of an account
    /// table, or the error that there is none.
    pub fn find<'a>(name: &str, records: &'a [AccountConfidential]) -> (r: Result<
        &'a AccountConfidential,
        ConfigError,
    >)
        ensures
            match r {
                Ok(found) => exists|i: int|
                    0 <= i < records@.len() && *found == #[trigger] records@[i] && found.name@
                        == name@ && forall|j: int|
                        0 <= j < i ==> (#[trigger] records@[j]).name@ != name@,
                Err(e) => (forall|i: int|
                    0 <= i < records@.len() ==> (#[trigger] records@[i]).name@ != name@) && (e
                    matches ConfigError::AccountNotFound { name: missing } && missing@ == name@),
            },
    {
        let wanted = String::from_str(name);
        let mut k: usize = 0;
        while k < records.len()
            invariant
                k <= records.len(),
                wanted@ == name@,
                forall|j: int| 0 <= j < k ==> (#[trigger] records@[j]).name@ != name@,
            decreases records.len() - k,
        {
            if records[k].name == wanted {
                return Ok(&records[k]);
            }
            k += 1;
        }
        Err(ConfigError::AccountNotFound { name: wanted })
    }
}

/// Where and how the log file is written.
#[derive(Debug, Clone)]
pub struct LoggingFileConfig {
    pub dir: String,
    pub name: String,
    pub rolling: String,
    pub level: String,
    pub json: bool,
}

/// How the console log is written.
#[derive(Debug, Clone)]
pub struct LoggingConsoleConfig {
    pub level: String,
    pub pretty: bool,
}

/// Logging.
#[derive(Debug, Clone)]
pub struct LoggingConfig {
    pub file_log: bool,
    pub console_log: bool,
    pub file: LoggingFileConfig,
    pub console: LoggingConsoleConfig,
}

/// Which of the venue's networks to use.
#[derive(Debug, Clone, Copy, PartialEq, Eq, Structural)]
pub enum Environment {
    Production,
    Testnet,
}

/// The account to trade on.
#[derive(Debug, Clone)]
pub struct AccountConfig {
    pub exchange: String,
    pub environment: Environment,
    pub name: String,
    pub csv_path: String,
}

/// One address per network.
#[derive(Debug, Clone)]
pub struct EndpointMap {
    pub production: String,
    pub testnet: String,
}

impl EndpointMap {
    /// The address for the given network.
    pub fn select(&self, environment: Environment) -> (r: &String)
        ensures
            *r == (match environment {
                Environment::Production => self.production,
                Environment::Testnet => self.testnet,
            }),
    {
        match environment {
            Environment::Production => &self.production,
            Environment::Testnet => &self.testnet,
        }
    }
}

/// REST addresses.
#[derive(Debug, Clone)]
pub struct RestConfig {
    pub endpoints: EndpointMap,
}

/// Stream addresses.
#[derive(Debug, Clone)]
pub struct WsConfig {
    pub endpoints: EndpointMap,
}

/// The venue.
#[derive(Debug, Clone)]
pub struct ExchangeConfig {
    pub symbols: Vec<Symbol>,
    pub rest: RestConfig,
    pub ws: WsConfig,
}

/// The whole configuration.
#[derive(Debug, Clone)]
pub struct DataCenterConfig {
    pub logging: LoggingConfig,
    pub account: AccountConfig,
    pub exchange: ExchangeConfig,
}

impl DataCenterConfig {
    /// The REST address for the configured network.
    pub fn rest_endpoint(&self) -> (r: &String)
        ensures
            *r == (match self.account.environment {
                Environment::Production => self.exchange.rest.endpoints.production,
                Environment::Testnet => self.exchange.rest.endpoints.testnet,
            }),
    {
        self.exchange.rest.endpoints.select(self.account.environment)
    }

    /// The stream address for the configured network.
    pub fn ws_endpoint(&self) -> (r: &String)
        ensures
            *r == (match self.account.environment {
                Environment::Production => self.exchange.ws.endpoints.production,
                Environment::Testnet => self.exchange.ws.endpoints.testnet,
            }),
    {
        self.exchange.ws.endpoints.select(self.account.environment)
    }
}

} // verus!
