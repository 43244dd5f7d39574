use hwtop::bus::{
    check_name_reply, is_sensors_signal, match_rule, member, name, path,
    NAME_FLAG_DO_NOT_QUEUE, NAME_REPLY_PRIMARY_OWNER,
};
use hwtop::error::{Cause, Error};

#[test]
fn the_feed_has_its_name_path_and_member() {
    assert_eq!(name(), "dev.arnavion.sensord.Daemon");
    assert_eq!(path(), "/dev/arnavion/sensord/Daemon");
    assert_eq!(member(), "Sensors");
    assert_eq!(NAME_FLAG_DO_NOT_QUEUE, 4);
    assert_eq!(NAME_REPLY_PRIMARY_OWNER, 1);
}

#[test]
fn the_rule_subscribes_to_the_snapshots() {
    assert_eq!(
        match_rule(),
        "type='signal',path='/dev/arnavion/sensord/Daemon',\
         interface='dev.arnavion.sensord.Daemon',member='Sensors'"
    );
}

#[test]
fn only_the_snapshot_signal_is_taken_in() {
    assert!(is_sensors_signal("dev.arnavion.sensord.Daemon", "Sensors"));
    assert!(!is_sensors_signal("dev.arnavion.sensord.Daemon", "sensors"));
    assert!(!is_sensors_signal("dev.arnavion.sensord.Daemon", "Sensors2"));
    assert!(!is_sensors_signal("dev.arnavion.sensord.Daemon", ""));
    assert!(!is_sensors_signal("org.freedesktop.DBus", "Sensors"));
    assert!(!is_sensors_signal("org.freedesktop.DBus", "NameAcquired"));
    assert!(!is_sensors_signal("", ""));
    assert!(!is_sensors_signal("Sensors", "dev.arnavion.sensord.Daemon"));
}

#[test]
fn only_the_owner_reply_is_a_success() {
    assert_eq!(check_name_reply(1), Ok(()));
    for reply in [0, 2, 3, 4, u32::MAX] {
        assert_eq!(check_name_reply(reply), Err(Error::Other(Cause::NameRefused(reply))));
    }
    assert_eq!(
        Error::Other(Cause::NameRefused(3)).message(),
        b"RequestName returned 3\n".to_vec()
    );
}
