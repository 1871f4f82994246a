//! IoT devices announced over MQTT: their types and what an announcement
//! does to the set of devices in the world.
use vstd::prelude::*;
use crate::text::{concat, str_eq};

verus! {

/// The kinds of device the world shows.
#[derive(Clone, Copy, Debug, PartialEq, Eq, Hash, Structural)]
pub enum DeviceType {
    Lamp,
    Door,
    Sensor,
}

/// The device type a name selects.
pub open spec fn spec_device_type(name: Seq<char>) -> Option<DeviceType> {
    if name == "lamp"@ {
        Some(DeviceType::Lamp)
    } else if name == "door"@ {
        Some(DeviceType::Door)
    } else if name == "sensor"@ {
        Some(DeviceType::Sensor)
    } else {
        None
    }
}

/// The name of each device type.
pub open spec fn spec_device_type_name(t: DeviceType) -> Seq<char> {
    match t {
        DeviceType::Lamp => "lamp"@,
        DeviceType::Door => "door"@,
        DeviceType::Sensor => "sensor"@,
    }
}

impl DeviceType {
    /// The device type named "lamp", "door" or "sensor".
    pub fn from_str(s: &str) -> (t: Option<DeviceType>)
        ensures
            t == spec_device_type(s@),
    {
        if str_eq(s, "lamp") {
            Some(DeviceType::Lamp)
        } else if str_eq(s, "door") {
            Some(DeviceType::Door)
        } else if str_eq(s, "sensor") {
            Some(DeviceType::Sensor)
        } else {
            None
        }
    }

    /// The name of this device type.
    pub fn as_str(&self) -> (s: &'static str)
        ensures
            s@ == spec_device_type_name(*self),
    {
        match self {
            DeviceType::Lamp => "lamp",
            DeviceType::Door => "door",
            DeviceType::Sensor => "sensor",
        }
    }
}

/// Each device type's name reads back as that type.
pub proof fn law_device_type_names_read_back(t: DeviceType)
    ensures
        spec_device_type(spec_device_type_name(t)) == Some(t),
{
    reveal_strlit("lamp");
    reveal_strlit("door");
    reveal_strlit("sensor");
    assert("door"@ != "lamp"@) by { assert("door"@[0] != "lamp"@[0]); }
    assert("sensor"@ != "lamp"@) by { assert("sensor"@.len() != "lamp"@.len()); }
    assert("sensor"@ != "door"@) by { assert("sensor"@.len() != "door"@.len()); }
}

/// What an announcement asks of the world.
#[derive(Clone, Copy, Debug, PartialEq, Eq, Structural)]
pub enum AnnouncementAction {
    /// Add a device of this type.
    Spawn(DeviceType),
    /// The device is already there; the announcement is a duplicate.
    AlreadyRegistered,
    /// The device type is not one the world knows.
    UnknownType,
    /// Remove the device.
    Remove,
    /// The state is neither "online" nor "offline".
    Ignore,
}

/// What an announcement with this state and device type does, given whether
/// a device with its id is already in the world.
pub open spec fn spec_announcement_action(state: Seq<char>, device_type: Seq<char>, registered: bool) -> AnnouncementAction {
    if state == "online"@ {
        match spec_device_type(device_type) {
            Some(t) => if registered {
                AnnouncementAction::AlreadyRegistered
            } else {
                AnnouncementAction::Spawn(t)
            },
            None => AnnouncementAction::UnknownType,
        }
    } else if state == "offline"@ {
        AnnouncementAction::Remove
    } else {
        AnnouncementAction::Ignore
    }
}

/// What a device announcement does: an online device of a known type is
/// added unless already there; an offline one is removed.
pub fn announcement_action(state: &str, device_type: &str, registered: bool) -> (a: AnnouncementAction)
    ensures
        a == spec_announcement_action(state@, device_type@, registered),
{
    if str_eq(state, "online") {
        match DeviceType::from_str(device_type) {
            Some(t) => if registered {
                AnnouncementAction::AlreadyRegistered
            } else {
                AnnouncementAction::Spawn(t)
            },
            None => AnnouncementAction::UnknownType,
        }
    } else if str_eq(state, "offline") {
        AnnouncementAction::Remove
    } else {
        AnnouncementAction::Ignore
    }
}

/// A device is spawned at most once, whatever its type: an announcement of
/// a device already in the world never spawns another; an online
/// announcement of an unregistered lamp, door or sensor spawns exactly that
/// type; an offline one removes the device.
pub proof fn law_announced_devices_spawn_once(state: Seq<char>, device_type: Seq<char>, registered: bool)
    ensures
        registered ==> !(spec_announcement_action(state, device_type, registered) is Spawn),
        state == "online"@ && registered && (device_type == "lamp"@ || device_type == "door"@
            || device_type == "sensor"@) ==> spec_announcement_action(state, device_type, registered)
            == AnnouncementAction::AlreadyRegistered,
        state == "online"@ && !registered && device_type == "lamp"@ ==> spec_announcement_action(
            state,
            device_type,
            registered,
        ) == AnnouncementAction::Spawn(DeviceType::Lamp),
        state == "online"@ && !registered && device_type == "door"@ ==> spec_announcement_action(
            state,
            device_type,
            registered,
        ) == AnnouncementAction::Spawn(DeviceType::Door),
        state == "online"@ && !registered && device_type == "sensor"@ ==> spec_announcement_action(
            state,
            device_type,
            registered,
        ) == AnnouncementAction::Spawn(DeviceType::Sensor),
        state == "offline"@ ==> spec_announcement_action(state, device_type, registered)
            == AnnouncementAction::Remove,
        spec_announcement_action(state, device_type, registered) matches AnnouncementAction::Spawn(t)
            ==> state == "online"@ && !registered && device_type == spec_device_type_name(t),
{
    reveal_strlit("online");
    reveal_strlit("offline");
    reveal_strlit("lamp");
    reveal_strlit("door");
    reveal_strlit("sensor");
    assert("online"@ != "offline"@) by {
        assert("online"@.len() != "offline"@.len());
    }
    assert("door"@ != "lamp"@) by {
        assert("door"@[0] != "lamp"@[0]);
    }
    assert("sensor"@ != "lamp"@) by {
        assert("sensor"@.len() != "lamp"@.len());
    }
    assert("sensor"@ != "door"@) by {
        assert("sensor"@.len() != "door"@.len());
    }
}

/// Whether a device with this id is in the list.
pub fn is_registered(ids: &Vec<String>, device_id: &str) -> (b: bool)
    ensures
        b == exists|i: int| 0 <= i < ids@.len() && ids@[i]@ == device_id@,
{
    let mut i: usize = 0;
    while i < ids.len()
        invariant
            i <= ids@.len(),
            forall|k: int| 0 <= k < i ==> ids@[k]@ != device_id@,
        decreases ids@.len() - i,
    {
        if str_eq(ids[i].as_str(), device_id) {
            return true;
        }
        i = i + 1;
    }
    false
}

} // verus!

verus! {

/// The lamps' blink state: whether the light is on, and what was last sent
/// to the lamps.
#[derive(Clone, Copy, Debug, PartialEq, Eq, Structural)]
pub struct BlinkState {
    pub light_state: bool,
    pub last_sent: bool,
}

/// The topic a device's light listens on.
pub open spec fn spec_light_topic(device_id: Seq<char>) -> Seq<char> {
    "home/"@ + device_id + "/light"@
}

/// The topic a device's light listens on: "home/<id>/light".
pub fn light_topic(device_id: &str) -> (t: String)
    ensures
        t@ == spec_light_topic(device_id@),
{
    let mut t = concat("home/", device_id);
    t.append("/light");
    t
}

/// The lamps among the devices, as (id, type name) pairs: their light topics,
/// in order.
pub open spec fn lamp_topics(devices: Seq<(String, String)>) -> Seq<Seq<char>>
    decreases devices.len(),
{
    if devices.len() == 0 {
        Seq::empty()
    } else {
        let rest = lamp_topics(devices.drop_last());
        if devices.last().1@ == "lamp"@ {
            rest.push(spec_light_topic(devices.last().0@))
        } else {
            rest
        }
    }
}

/// The commands the blink publisher sends: when the light changed since the
/// last send, "ON" or "OFF" to the light topic of each lamp, in order, and
/// the state records the send; otherwise nothing.
pub fn blink_commands(state: &mut BlinkState, devices: &Vec<(String, String)>) -> (out: Vec<(String, &'static str)>)
    ensures
        final(state).light_state == old(state).light_state,
        final(state).last_sent == old(state).light_state,
        if old(state).light_state != old(state).last_sent {
            &&& out@.len() == lamp_topics(devices@).len()
            &&& forall|k: int|
                0 <= k < out@.len() ==> (#[trigger] out@[k]).0@ == lamp_topics(devices@)[k]
                    && out@[k].1@ == (if old(state).light_state {
                    "ON"@
                } else {
                    "OFF"@
                })
        } else {
            out@.len() == 0
        },
{
    let mut out: Vec<(String, &'static str)> = Vec::new();
    if state.light_state == state.last_sent {
        return out;
    }
    let payload: &'static str = if state.light_state {
        "ON"
    } else {
        "OFF"
    };
    let mut i: usize = 0;
    assert(devices@.take(0) =~= Seq::<(String, String)>::empty());
    while i < devices.len()
        invariant
            i <= devices@.len(),
            out@.len() == lamp_topics(devices@.take(i as int)).len(),
            forall|k: int|
                0 <= k < out@.len() ==> (#[trigger] out@[k]).0@ == lamp_topics(devices@.take(i as int))[k]
                    && out@[k].1@ == payload@,
        decreases devices@.len() - i,
    {
        proof {
            assert(devices@.take(i + 1).drop_last() == devices@.take(i as int));
            assert(devices@.take(i + 1).last() == devices@[i as int]);
        }
        if str_eq(devices[i].1.as_str(), "lamp") {
            out.push((light_topic(devices[i].0.as_str()), payload));
        }
        i = i + 1;
    }
    assert(devices@.take(devices@.len() as int) == devices@);
    state.last_sent = state.light_state;
    out
}

} // verus!
