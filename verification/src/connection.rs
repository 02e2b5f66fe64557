//! The settings for reaching the message broker.
use vstd::prelude::*;
use crate::text::opt_string_view;
use crate::amqp::spec_decimal_text;
use crate::number::{law_parse_reads_decimal_text, IntErrorKind, parse_unsigned, spec_int_error_description, spec_parse_unsigned};

verus! {

/// Where the broker is, who logs in, and which queue carries the jobs.
#[derive(Clone, Debug)]
pub struct ConnectionConfig {
    pub host: String,
    pub port: u16,
    pub user: String,
    pub pass: String,
    pub jobs_queue_name: String,
}

/// Why the broker settings could not be assembled.
#[derive(Clone, Copy, Debug, PartialEq, Eq, Structural)]
pub enum ConfigError {
    MissingHost,
    MissingPort,
    InvalidPort(IntErrorKind),
    MissingUser,
    MissingPassword,
    MissingJobsQueue,
}

/// The context each error is reported with. The user and password settings
/// report the host message.
pub open spec fn spec_config_error_message(e: ConfigError) -> Seq<char> {
    match e {
        ConfigError::MissingHost => "Error getting connection host"@,
        ConfigError::MissingPort => "Error getting connection port"@,
        ConfigError::InvalidPort(kind) => spec_int_error_description(kind),
        ConfigError::MissingUser => "Error getting connection host"@,
        ConfigError::MissingPassword => "Error getting connection host"@,
        ConfigError::MissingJobsQueue => "Error getting jobs queue name"@,
    }
}

impl ConfigError {
    pub fn message(&self) -> (res: &'static str)
        ensures
            res@ == spec_config_error_message(*self),
    {
        match self {
            ConfigError::MissingHost => "Error getting connection host",
            ConfigError::MissingPort => "Error getting connection port",
            ConfigError::InvalidPort(kind) => kind.description(),
            ConfigError::MissingUser => "Error getting connection host",
            ConfigError::MissingPassword => "Error getting connection host",
            ConfigError::MissingJobsQueue => "Error getting jobs queue name",
        }
    }
}

/// The largest port number.
pub const MAX_PORT: u64 = 65535;

/// The outcome of assembling the settings from the values of the
/// variables `RABBITMQ_CONNECTION_HOST`, `_PORT`, `_USER`, `_PASS` and
/// `RABBITMQ_JOBS_QUEUE` (`None` for an unset one), checked in that order.
pub open spec fn spec_connection_config(
    host: Option<Seq<char>>,
    port: Option<Seq<char>>,
    user: Option<Seq<char>>,
    pass: Option<Seq<char>>,
    jobs: Option<Seq<char>>,
) -> Result<(Seq<char>, int, Seq<char>, Seq<char>, Seq<char>), ConfigError> {
    if host is None {
        Err(ConfigError::MissingHost)
    } else if port is None {
        Err(ConfigError::MissingPort)
    } else {
        match spec_parse_unsigned(port->0, MAX_PORT as int) {
            Err(kind) => Err(ConfigError::InvalidPort(kind)),
            Ok(p) => if user is None {
                Err(ConfigError::MissingUser)
            } else if pass is None {
                Err(ConfigError::MissingPassword)
            } else if jobs is None {
                Err(ConfigError::MissingJobsQueue)
            } else {
                Ok((host->0, p, user->0, pass->0, jobs->0))
            },
        }
    }
}

impl ConnectionConfig {
    /// The settings as plain values, to compare with the specification.
    pub open spec fn spec_tuple(&self) -> (Seq<char>, int, Seq<char>, Seq<char>, Seq<char>) {
        (self.host@, self.port as int, self.user@, self.pass@, self.jobs_queue_name@)
    }

    /// Assembles the settings from the variables' values.
    pub fn from_values(
        host: Option<String>,
        port: Option<String>,
        user: Option<String>,
        pass: Option<String>,
        jobs_queue_name: Option<String>,
    ) -> (res: Result<ConnectionConfig, ConfigError>)
        ensures
            match spec_connection_config(
                opt_string_view(host),
                opt_string_view(port),
                opt_string_view(user),
                opt_string_view(pass),
                opt_string_view(jobs_queue_name),
            ) {
                Ok(t) => res matches Ok(cfg) && cfg.spec_tuple() == t,
                Err(e) => res == Err::<ConnectionConfig, ConfigError>(e),
            },
    {
        let host = match host {
            Some(h) => h,
            None => return Err(ConfigError::MissingHost),
        };
        let port_text = match port {
            Some(p) => p,
            None => return Err(ConfigError::MissingPort),
        };
        let port_str = port_text.as_str();
        let parsed = parse_unsigned(port_str, MAX_PORT);
        let port = match parsed {
            Ok(p) => p as u16,
            Err(kind) => return Err(ConfigError::InvalidPort(kind)),
        };
        let user = match user {
            Some(u) => u,
            None => return Err(ConfigError::MissingUser),
        };
        let pass = match pass {
            Some(p) => p,
            None => return Err(ConfigError::MissingPassword),
        };
        let jobs_queue_name = match jobs_queue_name {
            Some(j) => j,
            None => return Err(ConfigError::MissingJobsQueue),
        };
        Ok(ConnectionConfig { host, port, user, pass, jobs_queue_name })
    }
}

/// Every port number a `u16` holds is accepted: with the port given as its
/// decimal text and every other setting present, the settings are
/// assembled with that port.
pub proof fn law_every_port_accepted(host: Seq<char>, port: nat, user: Seq<char>, pass: Seq<char>, jobs: Seq<char>)
    requires
        port <= 65535,
    ensures
        spec_connection_config(Some(host), Some(spec_decimal_text(port)), Some(user), Some(pass), Some(jobs))
            == Ok::<(Seq<char>, int, Seq<char>, Seq<char>, Seq<char>), ConfigError>((host, port as int, user, pass, jobs)),
{
    law_parse_reads_decimal_text(port, MAX_PORT as int);
}

} // verus!
