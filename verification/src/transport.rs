//! The pure part of the transport layer: link descriptors, the MQTT topic
//! mapping between wire lines and publishes, the liveness probe line, and
//! the supervisor's reconnection state machine. Opening sockets, reading and
//! writing live outside the library.

use vstd::prelude::*;

use crate::wire;

verus! {

/// How a link reaches its peer.
#[derive(Debug, Clone)]
pub enum ConnectionType {
    Serial { port: String, baud_rate: u32 },
    TcpServer { port: String, timeout_enabled: bool },
    TcpClient { port: String, timeout_enabled: bool },
    MQTT { broker: String, port: u16, publish_topic_prefix: String },
}

/// The liveness probe written on every link twice a minute.
pub fn heartbeat_line() -> (r: String)
    ensures
        r@ == "0;255;3;0;2;\n"@,
{
    "0;255;3;0;2;\n".to_owned()
}

/// The line that asks a node to reboot into its bootloader.
pub open spec fn reboot_line_spec(node_id: u8) -> Seq<char> {
    wire::dec_render_u8(node_id) + ";255;3;0;13;0"@
}

/// Render the reboot request for a node.
pub fn reboot_line(node_id: u8) -> (r: String)
    ensures
        r@ == reboot_line_spec(node_id),
{
    let mut out = String::new();
    wire::append_dec_u8(&mut out, node_id);
    out.append(";255;3;0;13;0");
    proof {
        assert(out@ =~= reboot_line_spec(node_id));
    }
    out
}

/// What publishing one wire line on MQTT means: the first five fields become
/// the topic path under `<prefix>-in`, the payload field becomes the body; a
/// line without six fields maps to nothing.
pub open spec fn topic_and_payload_spec(prefix: Seq<char>, line: Seq<char>) -> (Seq<char>, Seq<
    char,
>) {
    let p = wire::split_semi_spec(wire::trim_spec(line));
    if p.len() != 6 {
        (Seq::<char>::empty(), Seq::<char>::empty())
    } else {
        (
            prefix + "-in"@ + seq!['/'] + p[0] + seq!['/'] + p[1] + seq!['/'] + p[2] + seq!['/']
                + p[3] + seq!['/'] + p[4],
            p[5],
        )
    }
}

/// The sequence with every topic separator turned into a field separator.
pub open spec fn slashes_to_semis(s: Seq<char>) -> Seq<char> {
    Seq::new(
        s.len(),
        |i: int|
            if s[i] == '/' {
                ';'
            } else {
                s[i]
            },
    )
}

/// What remains of a topic after its first path segment.
pub open spec fn tail_after_slash(s: Seq<char>) -> Option<Seq<char>>
    decreases s.len(),
{
    if s.len() == 0 {
        None
    } else if s[0] == '/' {
        Some(s.drop_first())
    } else {
        tail_after_slash(s.drop_first())
    }
}

/// The wire line a received publish stands for: the topic's path segments
/// after the subscription root, joined by `;`, with the body as the final
/// payload field.
pub open spec fn publish_line_spec(topic: Seq<char>, payload: Seq<char>) -> Seq<char> {
    match tail_after_slash(wire::trim_spec(topic)) {
        Some(rest) => slashes_to_semis(rest) + seq![';'] + payload,
        None => payload,
    }
}

/// The mapping between wire lines and MQTT publishes.
pub struct MySMessage;

impl MySMessage {
    /// Split one outbound line into the publish topic and body.
    pub fn topic_and_payload(publish_topic_prefix: String, line: String) -> (r: (String, String))
        ensures
            (r.0@, r.1@) == topic_and_payload_spec(publish_topic_prefix@, line@),
    {
        let trimmed = wire::trim_ws(line.as_str());
        let parts = wire::split_semi(trimmed);
        let ghost p = wire::split_semi_spec(wire::trim_spec(line@));
        if parts.len() != 6 {
            return (String::new(), String::new());
        }
        proof {
            assert forall|i: int| 0 <= i < 6 implies parts@[i]@ == p[i] by {
                assert(parts.deep_view()[i] == parts@[i]@);
            }
        }
        let mut topic = publish_topic_prefix;
        topic.append("-in");
        let mut i: usize = 0;
        while i < 5
            invariant
                0 <= i <= 5,
                parts@.len() == 6,
                forall|k: int| 0 <= k < 6 ==> (#[trigger] parts@[k])@ == p[k],
                topic@ == (if i == 0 {
                    publish_topic_prefix@ + "-in"@
                } else if i == 1 {
                    publish_topic_prefix@ + "-in"@ + seq!['/'] + p[0]
                } else if i == 2 {
                    publish_topic_prefix@ + "-in"@ + seq!['/'] + p[0] + seq!['/'] + p[1]
                } else if i == 3 {
                    publish_topic_prefix@ + "-in"@ + seq!['/'] + p[0] + seq!['/'] + p[1]
                        + seq!['/'] + p[2]
                } else if i == 4 {
                    publish_topic_prefix@ + "-in"@ + seq!['/'] + p[0] + seq!['/'] + p[1]
                        + seq!['/'] + p[2] + seq!['/'] + p[3]
                } else {
                    publish_topic_prefix@ + "-in"@ + seq!['/'] + p[0] + seq!['/'] + p[1]
                        + seq!['/'] + p[2] + seq!['/'] + p[3] + seq!['/'] + p[4]
                }),
            decreases 5 - i,
        {
            wire::push_char(&mut topic, '/');
            topic.append(parts[i].as_str());
            proof {
                assert(topic@ =~= (if i + 1 == 1 {
                    publish_topic_prefix@ + "-in"@ + seq!['/'] + p[0]
                } else if i + 1 == 2 {
                    publish_topic_prefix@ + "-in"@ + seq!['/'] + p[0] + seq!['/'] + p[1]
                } else if i + 1 == 3 {
                    publish_topic_prefix@ + "-in"@ + seq!['/'] + p[0] + seq!['/'] + p[1]
                        + seq!['/'] + p[2]
                } else if i + 1 == 4 {
                    publish_topic_prefix@ + "-in"@ + seq!['/'] + p[0] + seq!['/'] + p[1]
                        + seq!['/'] + p[2] + seq!['/'] + p[3]
                } else {
                    publish_topic_prefix@ + "-in"@ + seq!['/'] + p[0] + seq!['/'] + p[1]
                        + seq!['/'] + p[2] + seq!['/'] + p[3] + seq!['/'] + p[4]
                }));
            }
            i = i + 1;
        }
        let payload = parts[5].clone();
        (topic, payload)
    }

    /// Rejoin a received publish into the canonical wire line.
    pub fn publish_line(topic: &str, payload: &str) -> (r: String)
        ensures
            r@ == publish_line_spec(topic@, payload@),
    {
        let t = wire::trim_ws(topic);
        let n = t.unicode_len();
        let mut i: usize = 0;
        proof {
            assert(t@.skip(0) =~= t@);
        }
        while i < n && t.get_char(i) != '/'
            invariant
                0 <= i <= n == t@.len(),
                tail_after_slash(t@) == tail_after_slash(t@.skip(i as int)),
            decreases n - i,
        {
            proof {
                assert(t@.skip(i as int).drop_first() =~= t@.skip(i + 1));
            }
            i = i + 1;
        }
        if i >= n {
            proof {
                assert(t@.skip(n as int) =~= Seq::<char>::empty());
            }
            return payload.to_owned();
        }
        proof {
            assert(t@.skip(i as int)[0] == t@[i as int]);
            assert(t@.skip(i as int).drop_first() =~= t@.skip(i + 1));
        }
        let ghost rest = t@.skip(i + 1);
        let mut out = String::new();
        let mut k: usize = i + 1;
        while k < n
            invariant
                i + 1 <= k <= n == t@.len(),
                rest == t@.skip(i + 1),
                out@ == slashes_to_semis(rest).take(k - i - 1),
            decreases n - k,
        {
            let c = t.get_char(k);
            if c == '/' {
                wire::push_char(&mut out, ';');
            } else {
                wire::push_char(&mut out, c);
            }
            proof {
                assert(rest[k - i - 1] == t@[k as int]);
                assert(slashes_to_semis(rest).take(k - i) =~= slashes_to_semis(rest).take(
                    k - i - 1,
                ).push(
                    if t@[k as int] == '/' {
                        ';'
                    } else {
                        t@[k as int]
                    },
                ));
            }
            k = k + 1;
        }
        proof {
            assert(slashes_to_semis(rest).take(n - i - 1) =~= slashes_to_semis(rest));
        }
        wire::push_char(&mut out, ';');
        out.append(payload);
        proof {
            assert(out@ =~= slashes_to_semis(rest) + seq![';'] + payload@);
        }
        out
    }
}

/// Where the link supervisor stands: waiting for the link to open, or
/// running its reader, writer and health checker.
#[derive(Debug, Clone, Copy, PartialEq, Eq, Structural)]
pub enum SupervisorState {
    Opening,
    Running,
}

/// What the surrounding process reports to the supervisor.
#[derive(Debug, Clone, Copy, PartialEq, Eq, Structural)]
pub enum LinkEvent {
    Opened,
    ReaderStopped,
}

/// What the supervisor asks the surrounding process to do.
#[derive(Debug, Clone, Copy, PartialEq, Eq, Structural)]
pub enum SupervisorAction {
    DrainOutbound,
    StartReader,
    StartWriter,
    StartHealthCheck,
    StopWriter,
    StopHealthCheck,
    Reopen,
}

/// One step of the link supervisor. A link that opens starts the reader,
/// the writer and the health checker. A reader that stops while running
/// stops the writer and the health checker, discards whatever queued up
/// while disconnected, and reopens the link; everything else is ignored.
pub fn supervisor_step(state: SupervisorState, event: LinkEvent) -> (r: (
    SupervisorState,
    Vec<SupervisorAction>,
))
    ensures
        (match (state, event) {
            (SupervisorState::Opening, LinkEvent::Opened) => r.0 == SupervisorState::Running
                && r.1@ == seq![
                SupervisorAction::StartReader,
                SupervisorAction::StartWriter,
                SupervisorAction::StartHealthCheck,
            ],
            (SupervisorState::Running, LinkEvent::ReaderStopped) => r.0
                == SupervisorState::Opening && r.1@ == seq![
                SupervisorAction::StopWriter,
                SupervisorAction::StopHealthCheck,
                SupervisorAction::DrainOutbound,
                SupervisorAction::Reopen,
            ],
            _ => r.0 == state && r.1@ == Seq::<SupervisorAction>::empty(),
        }),
{
    match (state, event) {
        (SupervisorState::Opening, LinkEvent::Opened) => {
            let mut actions: Vec<SupervisorAction> = Vec::new();
            actions.push(SupervisorAction::StartReader);
            actions.push(SupervisorAction::StartWriter);
            actions.push(SupervisorAction::StartHealthCheck);
            proof {
                assert(actions@ =~= seq![
                    SupervisorAction::StartReader,
                    SupervisorAction::StartWriter,
                    SupervisorAction::StartHealthCheck,
                ]);
            }
            (SupervisorState::Running, actions)
        },
        (SupervisorState::Running, LinkEvent::ReaderStopped) => {
            let mut actions: Vec<SupervisorAction> = Vec::new();
            actions.push(SupervisorAction::StopWriter);
            actions.push(SupervisorAction::StopHealthCheck);
            actions.push(SupervisorAction::DrainOutbound);
            actions.push(SupervisorAction::Reopen);
            proof {
                assert(actions@ =~= seq![
                    SupervisorAction::StopWriter,
                    SupervisorAction::StopHealthCheck,
                    SupervisorAction::DrainOutbound,
                    SupervisorAction::Reopen,
                ]);
            }
            (SupervisorState::Opening, actions)
        },
        (s, _) => (s, Vec::new()),
    }
}

} // verus!
