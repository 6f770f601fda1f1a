use myscontroller_rs::config::{get_mys_controller, get_mys_gateway, log_level, Config, ConfigError, Controller, Gateway, Server};
use myscontroller_rs::transport::{
    heartbeat_line, reboot_line, supervisor_step, ConnectionType, LinkEvent, MySMessage,
    SupervisorAction, SupervisorState,
};

#[test]
fn should_get_topic_and_payload_in_mqtt_format() {
    let message_string = "1;255;4;0;0;0A0001005000D4460102\n".to_owned();
    let (topic, payload) = MySMessage::topic_and_payload("prefix".to_owned(), message_string);
    assert_eq!(topic, "prefix-in/1/255/4/0/0");
    assert_eq!(payload, "0A0001005000D4460102");
}

#[test]
fn mqtt_publish_rejoins_into_a_wire_line() {
    let message = MySMessage::publish_line("prefix-out/1/255/4/0/0", "0A0001005000D4460102");
    assert_eq!(message, "1;255;4;0;0;0A0001005000D4460102");
    // A topic without any path separator leaves only the payload.
    assert_eq!(MySMessage::publish_line("odd", "x"), "x");
}

#[test]
fn short_lines_map_to_no_topic() {
    let (topic, payload) = MySMessage::topic_and_payload("p".to_owned(), "a;b;c\n".to_owned());
    assert_eq!(topic, "");
    assert_eq!(payload, "");
}

#[test]
fn heartbeat_and_reboot_lines() {
    assert_eq!(heartbeat_line(), "0;255;3;0;2;\n");
    assert_eq!(reboot_line(9), "9;255;3;0;13;0");
    assert_eq!(reboot_line(123), "123;255;3;0;13;0");
}

#[test]
fn supervisor_restarts_after_a_link_failure() {
    // The link opens: reader, writer and health checker start.
    let (state, actions) = supervisor_step(SupervisorState::Opening, LinkEvent::Opened);
    assert_eq!(state, SupervisorState::Running);
    assert_eq!(
        actions,
        vec![
            SupervisorAction::StartReader,
            SupervisorAction::StartWriter,
            SupervisorAction::StartHealthCheck
        ]
    );
    // The link fails mid-write, the reader stops: the writer and the health
    // checker are stopped, stale outbound lines are discarded, and the link
    // reopens; the next open restarts everything, so a line produced after
    // the reconnect is delivered by the restarted writer.
    let (state, actions) = supervisor_step(state, LinkEvent::ReaderStopped);
    assert_eq!(state, SupervisorState::Opening);
    assert_eq!(
        actions,
        vec![
            SupervisorAction::StopWriter,
            SupervisorAction::StopHealthCheck,
            SupervisorAction::DrainOutbound,
            SupervisorAction::Reopen
        ]
    );
    let (state, actions) = supervisor_step(state, LinkEvent::Opened);
    assert_eq!(state, SupervisorState::Running);
    assert!(actions.contains(&SupervisorAction::StartWriter));
    // Spurious events change nothing.
    let (state, actions) = supervisor_step(state, LinkEvent::Opened);
    assert_eq!(state, SupervisorState::Running);
    assert!(actions.is_empty());
}

fn section(
    link_type: &str,
    port: &str,
    broker: Option<&str>,
    prefix: Option<&str>,
) -> Gateway {
    Gateway {
        link_type: Some(link_type.to_owned()),
        port: Some(port.to_owned()),
        timeout_enabled: None,
        baud_rate: None,
        broker: broker.map(|s| s.to_owned()),
        publish_topic_prefix: prefix.map(|s| s.to_owned()),
    }
}

#[test]
fn configuration_names_the_links() {
    let config = Config {
        Server: Some(Server { database_url: Some("/var/lib/db".to_owned()), log_level: None }),
        Gateway: Some(section("Serial", "/dev/tty1", None, None)),
        Controller: None,
    };
    match get_mys_gateway(&config).unwrap() {
        ConnectionType::Serial { port, baud_rate } => {
            assert_eq!(port, "/dev/tty1");
            assert_eq!(baud_rate, 9600);
        }
        _ => panic!("expected a serial link"),
    }
    // Without a controller section no upstream link is opened.
    assert!(get_mys_controller(&config).unwrap().is_none());
    assert_eq!(log_level(&config), "myscontroller_rs=info");
}

#[test]
fn tcp_points_the_two_links_in_opposite_directions() {
    let config = Config {
        Server: None,
        Gateway: Some(section("TCP", "10.0.0.2:5003", None, None)),
        Controller: Some(Controller {
            link_type: Some("TCP".to_owned()),
            port: Some("0.0.0.0:5003".to_owned()),
            timeout_enabled: Some("true".to_owned()),
            baud_rate: None,
            broker: None,
            publish_topic_prefix: None,
        }),
    };
    assert!(matches!(
        get_mys_gateway(&config),
        Ok(ConnectionType::TcpClient { .. })
    ));
    match get_mys_controller(&config).unwrap().unwrap() {
        ConnectionType::TcpServer { port, timeout_enabled } => {
            assert_eq!(port, "0.0.0.0:5003");
            assert!(timeout_enabled);
        }
        _ => panic!("expected a listening link"),
    }
}

#[test]
fn unknown_types_are_mqtt_brokers() {
    let config = Config {
        Server: None,
        Gateway: Some(section("MQTT", "1883", Some("broker.local"), Some("mys"))),
        Controller: None,
    };
    match get_mys_gateway(&config).unwrap() {
        ConnectionType::MQTT { broker, port, publish_topic_prefix } => {
            assert_eq!(broker, "broker.local");
            assert_eq!(port, 1883);
            assert_eq!(publish_topic_prefix, "mys");
        }
        _ => panic!("expected an MQTT link"),
    }
    let config = Config {
        Server: None,
        Gateway: Some(section("MQTT", "1883", None, Some("mys"))),
        Controller: None,
    };
    assert_eq!(get_mys_gateway(&config).unwrap_err(), ConfigError::MissingBroker);
    let config = Config {
        Server: None,
        Gateway: Some(section("MQTT", "70000", Some("broker.local"), Some("mys"))),
        Controller: None,
    };
    assert_eq!(get_mys_gateway(&config).unwrap_err(), ConfigError::BadBrokerPort);
    let config = Config { Server: None, Gateway: None, Controller: None };
    assert_eq!(get_mys_gateway(&config).unwrap_err(), ConfigError::MissingSection);
}
