//! The ports of a recording session: the two inputs that the recorder
//! registers, and the two sources on the audio graph that are wired to them.

use vstd::prelude::*;
use vstd::string::StringExecFns;
use crate::error::RecordError;

verus! {

/// One of the two channels of a recording.
#[derive(Clone, Copy, Debug, PartialEq, Eq, Structural)]
pub enum Channel {
    Left,
    Right,
}

/// The two source ports of a recording, as named by the audio graph.
#[derive(Clone, Debug, PartialEq, Eq)]
pub struct Sources {
    /// Recorded as the left channel.
    pub left: String,
    /// Recorded as the right channel.
    pub right: String,
}

/// One connection request: from a source port to an input port.
#[derive(Clone, Debug, PartialEq, Eq)]
pub struct Wire {
    /// Full name of the port that the audio comes from.
    pub source: String,
    /// Full name of the port that takes it.
    pub destination: String,
}

/// The name under which the recorder opens its session: `recbox`.
pub open spec fn client_name_spec() -> Seq<char> {
    seq!['r', 'e', 'c', 'b', 'o', 'x']
}

/// The short name of an input port: `in_l` or `in_r`.
pub open spec fn input_name_spec(channel: Channel) -> Seq<char> {
    match channel {
        Channel::Left => seq!['i', 'n', '_', 'l'],
        Channel::Right => seq!['i', 'n', '_', 'r'],
    }
}

/// The full name of an input port on the graph: client, colon, port.
pub open spec fn input_path_spec(channel: Channel) -> Seq<char> {
    client_name_spec() + seq![':'] + input_name_spec(channel)
}

/// The name under which the recorder opens its session.
pub fn client_name() -> (name: &'static str)
    ensures
        name@ == client_name_spec(),
{
    proof {
        reveal_strlit("recbox");
    }
    let name = "recbox";
    assert(name@ =~= client_name_spec());
    name
}

/// The short name under which the input port of a channel is registered.
pub fn input_name(channel: Channel) -> (name: &'static str)
    ensures
        name@ == input_name_spec(channel),
{
    proof {
        reveal_strlit("in_l");
        reveal_strlit("in_r");
    }
    let name = match channel {
        Channel::Left => "in_l",
        Channel::Right => "in_r",
    };
    assert(name@ =~= input_name_spec(channel));
    name
}

/// The full name of the input port of a channel, as a connection request
/// names it.
pub fn input_path(channel: Channel) -> (path: String)
    ensures
        path@ == input_path_spec(channel),
{
    let mut path = String::from_str(client_name());
    proof {
        reveal_strlit(":");
    }
    path.append(":");
    path.append(input_name(channel));
    assert(path@ =~= input_path_spec(channel)) by {
        assert(":"@ =~= seq![':']);
    }
    path
}

/// Checks the status with which the audio graph opened the session. Any flag
/// that is set means that the session is not fully there.
pub fn check_status(status: u32) -> (r: Result<(), RecordError>)
    ensures
        r is Ok <==> status == 0,
        r is Err ==> r == Err::<(), RecordError>(RecordError::Connection),
{
    if status == 0 {
        Ok(())
    } else {
        Err(RecordError::Connection)
    }
}

/// Picks the two sources out of the output ports that the audio graph
/// listed, in the order of the listing: the first is recorded as the left
/// channel, the second as the right one. Any other number of ports is a
/// misconfiguration.
pub fn select_outputs(ports: Vec<String>) -> (r: Result<Sources, RecordError>)
    ensures
        r is Ok <==> ports@.len() == 2,
        match r {
            Ok(sources) => sources.left@ == ports@[0]@ && sources.right@ == ports@[1]@,
            Err(e) => e == RecordError::NoOutputPorts,
        },
{
    let mut ports = ports;
    if ports.len() != 2 {
        return Err(RecordError::NoOutputPorts);
    }
    let right = ports.pop();
    let left = ports.pop();
    match (left, right) {
        (Some(left), Some(right)) => Ok(Sources { left, right }),
        _ => Err(RecordError::NoOutputPorts),
    }
}

/// The connection request for one channel: from its source to its input port.
pub fn wire(sources: &Sources, channel: Channel) -> (w: Wire)
    ensures
        w.source@ == match channel {
            Channel::Left => sources.left@,
            Channel::Right => sources.right@,
        },
        w.destination@ == input_path_spec(channel),
{
    let source = match channel {
        Channel::Left => sources.left.clone(),
        Channel::Right => sources.right.clone(),
    };
    Wire { source, destination: input_path(channel) }
}

} // verus!
