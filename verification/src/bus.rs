//! The telemetry feed on the message bus: the name that the sampling side
//! owns, the signal that carries each snapshot, and which signals the
//! dashboard takes in.

use crate::error::{Cause, CauseView, Error, ErrorView};
use crate::parse::same_bytes;
use vstd::prelude::*;
use vstd::string::*;
use vstd::utf8::encode_utf8_decode_utf8;

verus! {

/// The flag that asks the bus to refuse a name that is taken, in place of
/// queueing for it.
pub const NAME_FLAG_DO_NOT_QUEUE: u32 = 4;

/// The reply that says that the name is now owned.
pub const NAME_REPLY_PRIMARY_OWNER: u32 = 1;

/// The name that the sampling side owns, which is also the interface of its
/// signal.
pub open spec fn daemon_name() -> Seq<char> {
    "dev.arnavion.sensord.Daemon"@
}

/// The path of the object that sends the signal.
pub open spec fn daemon_path() -> Seq<char> {
    "/dev/arnavion/sensord/Daemon"@
}

/// The member name of the signal that carries a snapshot.
pub open spec fn sensors_member() -> Seq<char> {
    "Sensors"@
}

/// The rule that subscribes to the snapshots and to nothing else.
pub open spec fn sensors_rule() -> Seq<char> {
    "type='signal',path='"@ + daemon_path() + "',interface='"@ + daemon_name() + "',member='"@
        + sensors_member() + "'"@
}

/// Whether a signal with this interface and member carries a snapshot.
pub open spec fn carries_snapshot(interface: Seq<char>, member: Seq<char>) -> bool {
    interface == daemon_name() && member == sensors_member()
}

/// The name that the sampling side owns.
pub fn name() -> (text: &'static str)
    ensures
        text@ == daemon_name(),
{
    "dev.arnavion.sensord.Daemon"
}

/// The path of the object that sends the signal.
pub fn path() -> (text: &'static str)
    ensures
        text@ == daemon_path(),
{
    "/dev/arnavion/sensord/Daemon"
}

/// The member name of the signal that carries a snapshot.
pub fn member() -> (text: &'static str)
    ensures
        text@ == sensors_member(),
{
    "Sensors"
}

/// The rule that subscribes to the snapshots and to nothing else.
pub fn match_rule() -> (rule: String)
    ensures
        rule@ == sensors_rule(),
{
    let mut rule = String::from_str("type='signal',path='");
    rule.append(path());
    rule.append("',interface='");
    rule.append(name());
    rule.append("',member='");
    rule.append(member());
    rule.append("'");
    rule
}

/// Whether a signal with this interface and member carries a snapshot. All
/// other traffic on the bus is passed over.
pub fn is_sensors_signal(interface: &str, signal: &str) -> (yes: bool)
    ensures
        yes == carries_snapshot(interface@, signal@),
{
    proof {
        encode_utf8_decode_utf8(interface@);
        encode_utf8_decode_utf8(signal@);
        encode_utf8_decode_utf8(daemon_name());
        encode_utf8_decode_utf8(sensors_member());
    }
    same_bytes(interface.as_bytes(), name().as_bytes()) && same_bytes(
        signal.as_bytes(),
        member().as_bytes(),
    )
}

/// Whether the bus has made this process the owner of its name: any reply
/// but that one is a failure.
pub fn check_name_reply(reply: u32) -> (result: Result<(), Error>)
    ensures
        match result {
            Ok(()) => reply == NAME_REPLY_PRIMARY_OWNER,
            Err(error) => reply != NAME_REPLY_PRIMARY_OWNER && error@ == ErrorView::Other(
                CauseView::NameRefused(reply),
            ),
        },
{
    if reply == NAME_REPLY_PRIMARY_OWNER {
        Ok(())
    } else {
        Err(Error::Other(Cause::NameRefused(reply)))
    }
}

} // verus!
