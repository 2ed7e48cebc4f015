use vstd::prelude::*;
use vstd::string::StringExecFns;

use crate::hub::{decimal, decimal_string};

verus! {

/// The status code of an asynchronous operation of the source that is still running.
pub const STARTED: i32 = 0;

/// The status code with which the source's asynchronous operations report completion.
pub const COMPLETED: i32 = 1;

/// What to do after asking an asynchronous operation of the source for its status.
#[derive(Clone, Copy, Debug, PartialEq, Eq, Structural)]
pub enum PollAction {
    /// The operation completed: take its result.
    Ready,
    /// Still running: sleep briefly and ask again.
    Pending,
    /// The status could not be read, or the operation was cancelled or failed:
    /// give up on it and report no data.
    Failed,
}

/// Decides the next step of a poll-until-complete loop from the status read,
/// `None` standing for a failed status query. Only a running operation is polled
/// again; any status other than running or completed ends the loop.
pub fn poll_action(status: Option<i32>) -> (r: PollAction)
    ensures
        r == match status {
            Some(s) => if s == COMPLETED {
                PollAction::Ready
            } else if s == STARTED {
                PollAction::Pending
            } else {
                PollAction::Failed
            },
            None => PollAction::Failed,
        },
{
    match status {
        Some(s) => if s == COMPLETED {
            PollAction::Ready
        } else if s == STARTED {
            PollAction::Pending
        } else {
            PollAction::Failed
        },
        None => PollAction::Failed,
    }
}

/// The name of the hosting client, told apart by the class name of its main window.
pub open spec fn client_of(class_name: Option<Seq<char>>) -> Seq<char> {
    match class_name {
        None => "Unknown"@,
        Some(c) => if c == "mIRC"@ {
            "mIRC"@
        } else if c == "mIRC32"@ {
            "mIRC32"@
        } else {
            "AdiIRC"@
        },
    }
}

/// Names the hosting client from its main window's class name, `None` when the
/// class name could not be read.
pub fn client_name(class_name: Option<String>) -> (r: String)
    ensures
        r@ == client_of(class_name.deep_view()),
{
    match class_name {
        None => String::from_str("Unknown"),
        Some(c) => {
            let mirc = String::from_str("mIRC");
            let mirc32 = String::from_str("mIRC32");
            if c.eq(&mirc) {
                mirc
            } else if c.eq(&mirc32) {
                mirc32
            } else {
                String::from_str("AdiIRC")
            }
        },
    }
}

/// Splits the host's packed version number into its low and high 16-bit halves.
pub fn host_version_parts(m_version: u32) -> (r: (u32, u32))
    ensures
        r.0 == m_version % 0x10000,
        r.1 == m_version / 0x10000,
{
    let low = m_version & 0xFFFF;
    let high = m_version >> 16;
    assert(m_version & 0xFFFF == m_version % 0x10000) by (bit_vector);
    assert(m_version >> 16 == m_version / 0x10000) by (bit_vector);
    (low, high)
}

/// The line that describes this plugin and its host:
/// `<name> <version> on <client> v<low>.<high> (<arch>)`.
pub open spec fn version_line(
    name: Seq<char>,
    version: Seq<char>,
    client: Seq<char>,
    m_version: u32,
    arch: Seq<char>,
) -> Seq<char> {
    name + " "@ + version + " on "@ + client + " v"@ + decimal((m_version % 0x10000) as nat)
        + "."@ + decimal((m_version / 0x10000) as nat) + " ("@ + arch + ")"@
}

pub fn version_text(name: &str, version: &str, client: &str, m_version: u32, arch: &str) -> (r:
    String)
    ensures
        r@ == version_line(name@, version@, client@, m_version, arch@),
{
    let (low, high) = host_version_parts(m_version);
    let low_text = decimal_string(low);
    let high_text = decimal_string(high);
    let mut r = String::from_str(name);
    r.append(" ");
    r.append(version);
    r.append(" on ");
    r.append(client);
    r.append(" v");
    r.append(low_text.as_str());
    r.append(".");
    r.append(high_text.as_str());
    r.append(" (");
    r.append(arch);
    r.append(")");
    r
}

} // verus!
