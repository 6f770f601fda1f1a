//! The configuration model: the three sections of the configuration
//! document, and how the gateway and controller sections map to link
//! descriptors. Reading and deserialising the document itself happens
//! outside the library.

use vstd::prelude::*;

use crate::transport::ConnectionType;
use crate::wire;

verus! {

/// The whole configuration document.
#[allow(non_snake_case)]
#[derive(Debug)]
pub struct Config {
    pub Server: Option<Server>,
    pub Gateway: Option<Gateway>,
    pub Controller: Option<Controller>,
}

/// The `Server` section.
#[derive(Debug)]
pub struct Server {
    pub database_url: Option<String>,
    pub log_level: Option<String>,
}

/// The `Gateway` section: the link towards the radio network.
#[derive(Debug)]
pub struct Gateway {
    pub link_type: Option<String>,
    pub port: Option<String>,
    pub timeout_enabled: Option<String>,
    pub baud_rate: Option<String>,
    pub broker: Option<String>,
    pub publish_topic_prefix: Option<String>,
}

/// The `Controller` section: the optional upstream link.
#[derive(Debug)]
pub struct Controller {
    pub link_type: Option<String>,
    pub port: Option<String>,
    pub timeout_enabled: Option<String>,
    pub baud_rate: Option<String>,
    pub broker: Option<String>,
    pub publish_topic_prefix: Option<String>,
}

/// Why a section cannot be turned into a link descriptor.
#[derive(Debug, Clone, Copy, PartialEq, Eq, Structural)]
pub enum ConfigError {
    MissingSection,
    MissingType,
    MissingPort,
    BadTimeout,
    BadBaudRate,
    MissingBroker,
    BadBrokerPort,
    MissingTopicPrefix,
}

/// The mathematical shape of a link descriptor.
pub enum ConnectionTypeView {
    Serial { port: Seq<char>, baud_rate: u32 },
    TcpServer { port: Seq<char>, timeout_enabled: bool },
    TcpClient { port: Seq<char>, timeout_enabled: bool },
    MQTT { broker: Seq<char>, port: u16, publish_topic_prefix: Seq<char> },
}

impl View for ConnectionType {
    type V = ConnectionTypeView;

    open spec fn view(&self) -> ConnectionTypeView {
        match self {
            ConnectionType::Serial { port, baud_rate } => ConnectionTypeView::Serial {
                port: port@,
                baud_rate: *baud_rate,
            },
            ConnectionType::TcpServer { port, timeout_enabled } => ConnectionTypeView::TcpServer {
                port: port@,
                timeout_enabled: *timeout_enabled,
            },
            ConnectionType::TcpClient { port, timeout_enabled } => ConnectionTypeView::TcpClient {
                port: port@,
                timeout_enabled: *timeout_enabled,
            },
            ConnectionType::MQTT { broker, port, publish_topic_prefix } => ConnectionTypeView::MQTT {
                broker: broker@,
                port: *port,
                publish_topic_prefix: publish_topic_prefix@,
            },
        }
    }
}

/// What the literal `true`/`false` option values mean.
pub open spec fn bool_option_spec(s: Seq<char>) -> Option<bool> {
    if s == "true"@ {
        Some(true)
    } else if s == "false"@ {
        Some(false)
    } else {
        None
    }
}

/// Parse a `true`/`false` option value.
pub fn parse_bool_option(s: &str) -> (r: Option<bool>)
    ensures
        r == bool_option_spec(s@),
{
    let v: String = s.to_owned();
    if v == "true".to_owned() {
        Some(true)
    } else if v == "false".to_owned() {
        Some(false)
    } else {
        None
    }
}

/// The link descriptor a section's raw options name: the type selects the
/// variant, the serial rate defaults to 9600, timeouts default to off, and
/// any type other than `Serial` and `TCP` is an MQTT broker. `server` picks
/// between accepting (`TcpServer`) and connecting (`TcpClient`) for `TCP`.
pub open spec fn link_spec(
    link_type: Option<Seq<char>>,
    port: Option<Seq<char>>,
    timeout_enabled: Option<Seq<char>>,
    baud_rate: Option<Seq<char>>,
    broker: Option<Seq<char>>,
    publish_topic_prefix: Option<Seq<char>>,
    server: bool,
) -> Result<ConnectionTypeView, ConfigError> {
    if link_type is None {
        Err(ConfigError::MissingType)
    } else if port is None {
        Err(ConfigError::MissingPort)
    } else if timeout_enabled is Some && bool_option_spec(timeout_enabled.unwrap()) is None {
        Err(ConfigError::BadTimeout)
    } else if baud_rate is Some && wire::dec_parse_u32(baud_rate.unwrap()) is None {
        Err(ConfigError::BadBaudRate)
    } else {
        let timeout = if timeout_enabled is Some {
            bool_option_spec(timeout_enabled.unwrap()).unwrap()
        } else {
            false
        };
        let baud = if baud_rate is Some {
            wire::dec_parse_u32(baud_rate.unwrap()).unwrap()
        } else {
            9600u32
        };
        if link_type.unwrap() == "Serial"@ {
            Ok(ConnectionTypeView::Serial { port: port.unwrap(), baud_rate: baud })
        } else if link_type.unwrap() == "TCP"@ {
            if server {
                Ok(
                    ConnectionTypeView::TcpServer {
                        port: port.unwrap(),
                        timeout_enabled: timeout,
                    },
                )
            } else {
                Ok(
                    ConnectionTypeView::TcpClient {
                        port: port.unwrap(),
                        timeout_enabled: timeout,
                    },
                )
            }
        } else if broker is None {
            Err(ConfigError::MissingBroker)
        } else if wire::dec_parse_u32(port.unwrap()) is None || wire::dec_parse_u32(
            port.unwrap(),
        ).unwrap() > 0xFFFF {
            Err(ConfigError::BadBrokerPort)
        } else if publish_topic_prefix is None {
            Err(ConfigError::MissingTopicPrefix)
        } else {
            Ok(
                ConnectionTypeView::MQTT {
                    broker: broker.unwrap(),
                    port: wire::dec_parse_u32(port.unwrap()).unwrap() as u16,
                    publish_topic_prefix: publish_topic_prefix.unwrap(),
                },
            )
        }
    }
}

/// The view of an optional string.
pub open spec fn opt_view(s: Option<String>) -> Option<Seq<char>> {
    match s {
        Some(v) => Some(v@),
        None => None,
    }
}

fn build_link(
    link_type: &Option<String>,
    port: &Option<String>,
    timeout_enabled: &Option<String>,
    baud_rate: &Option<String>,
    broker: &Option<String>,
    publish_topic_prefix: &Option<String>,
    server: bool,
) -> (r: Result<ConnectionType, ConfigError>)
    ensures
        (match r {
            Ok(c) => link_spec(
                opt_view(*link_type),
                opt_view(*port),
                opt_view(*timeout_enabled),
                opt_view(*baud_rate),
                opt_view(*broker),
                opt_view(*publish_topic_prefix),
                server,
            ) == Ok::<ConnectionTypeView, ConfigError>(c@),
            Err(e) => link_spec(
                opt_view(*link_type),
                opt_view(*port),
                opt_view(*timeout_enabled),
                opt_view(*baud_rate),
                opt_view(*broker),
                opt_view(*publish_topic_prefix),
                server,
            ) == Err::<ConnectionTypeView, ConfigError>(e),
        }),
{
    let kind = match link_type {
        Some(t) => t,
        None => {
            return Err(ConfigError::MissingType);
        },
    };
    let port_value = match port {
        Some(p) => p,
        None => {
            return Err(ConfigError::MissingPort);
        },
    };
    let timeout = match timeout_enabled {
        Some(t) => match parse_bool_option(t.as_str()) {
            Some(b) => b,
            None => {
                return Err(ConfigError::BadTimeout);
            },
        },
        None => false,
    };
    let baud = match baud_rate {
        Some(b) => match wire::parse_dec_u32(b.as_str()) {
            Some(v) => v,
            None => {
                return Err(ConfigError::BadBaudRate);
            },
        },
        None => 9600,
    };
    if *kind == "Serial".to_owned() {
        return Ok(ConnectionType::Serial { port: port_value.clone(), baud_rate: baud });
    }
    if *kind == "TCP".to_owned() {
        if server {
            return Ok(
                ConnectionType::TcpServer { port: port_value.clone(), timeout_enabled: timeout },
            );
        }
        return Ok(
            ConnectionType::TcpClient { port: port_value.clone(), timeout_enabled: timeout },
        );
    }
    let broker_value = match broker {
        Some(b) => b,
        None => {
            return Err(ConfigError::MissingBroker);
        },
    };
    let broker_port = match wire::parse_dec_u32(port_value.as_str()) {
        Some(v) => if v <= 0xFFFF {
            v as u16
        } else {
            return Err(ConfigError::BadBrokerPort);
        },
        None => {
            return Err(ConfigError::BadBrokerPort);
        },
    };
    let prefix = match publish_topic_prefix {
        Some(p) => p,
        None => {
            return Err(ConfigError::MissingTopicPrefix);
        },
    };
    Ok(
        ConnectionType::MQTT {
            broker: broker_value.clone(),
            port: broker_port,
            publish_topic_prefix: prefix.clone(),
        },
    )
}

/// The gateway link the configuration names: `TCP` means connecting out to
/// the gateway. A missing section or option is an error.
pub fn get_mys_gateway(config: &Config) -> (r: Result<ConnectionType, ConfigError>)
    ensures
        (match config.Gateway {
            None => r matches Err(e) && e == ConfigError::MissingSection,
            Some(g) => match r {
                Ok(c) => link_spec(
                    opt_view(g.link_type),
                    opt_view(g.port),
                    opt_view(g.timeout_enabled),
                    opt_view(g.baud_rate),
                    opt_view(g.broker),
                    opt_view(g.publish_topic_prefix),
                    false,
                ) == Ok::<ConnectionTypeView, ConfigError>(c@),
                Err(e) => link_spec(
                    opt_view(g.link_type),
                    opt_view(g.port),
                    opt_view(g.timeout_enabled),
                    opt_view(g.baud_rate),
                    opt_view(g.broker),
                    opt_view(g.publish_topic_prefix),
                    false,
                ) == Err::<ConnectionTypeView, ConfigError>(e),
            },
        }),
{
    match &config.Gateway {
        Some(g) => build_link(
            &g.link_type,
            &g.port,
            &g.timeout_enabled,
            &g.baud_rate,
            &g.broker,
            &g.publish_topic_prefix,
            false,
        ),
        None => Err(ConfigError::MissingSection),
    }
}

/// The controller link the configuration names, if the section is present:
/// `TCP` means accepting the controller's connection. Nothing is returned
/// without a section; a missing option within one is an error.
pub fn get_mys_controller(config: &Config) -> (r: Result<Option<ConnectionType>, ConfigError>)
    ensures
        (match config.Controller {
            None => r matches Ok(c) && c is None,
            Some(g) => match r {
                Ok(c) => c matches Some(conn) && link_spec(
                    opt_view(g.link_type),
                    opt_view(g.port),
                    opt_view(g.timeout_enabled),
                    opt_view(g.baud_rate),
                    opt_view(g.broker),
                    opt_view(g.publish_topic_prefix),
                    true,
                ) == Ok::<ConnectionTypeView, ConfigError>(conn@),
                Err(e) => link_spec(
                    opt_view(g.link_type),
                    opt_view(g.port),
                    opt_view(g.timeout_enabled),
                    opt_view(g.baud_rate),
                    opt_view(g.broker),
                    opt_view(g.publish_topic_prefix),
                    true,
                ) == Err::<ConnectionTypeView, ConfigError>(e),
            },
        }),
{
    match &config.Controller {
        Some(g) => match build_link(
            &g.link_type,
            &g.port,
            &g.timeout_enabled,
            &g.baud_rate,
            &g.broker,
            &g.publish_topic_prefix,
            true,
        ) {
            Ok(c) => Ok(Some(c)),
            Err(e) => Err(e),
        },
        None => Ok(None),
    }
}

/// The database location the server section names; the caller must have
/// checked it is configured.
pub fn server_configs(config: &Config) -> (r: String)
    requires
        config.Server matches Some(s) && s.database_url is Some,
    ensures
        config.Server matches Some(s) && s.database_url matches Some(u) && r@ == u@,
{
    match &config.Server {
        Some(s) => match &s.database_url {
            Some(u) => u.clone(),
            None => String::new(),
        },
        None => String::new(),
    }
}

/// The log filter the server section names, with its default.
pub fn log_level(config: &Config) -> (r: String)
    ensures
        r@ == (match config.Server {
            Some(s) => match s.log_level {
                Some(l) => l@,
                None => "myscontroller_rs=info"@,
            },
            None => "myscontroller_rs=info"@,
        }),
{
    match &config.Server {
        Some(s) => match &s.log_level {
            Some(l) => l.clone(),
            None => "myscontroller_rs=info".to_owned(),
        },
        None => "myscontroller_rs=info".to_owned(),
    }
}

} // verus!
