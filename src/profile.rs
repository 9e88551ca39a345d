use vstd::prelude::*;

verus! {

/// A saved connection profile as the network-management service lists it;
/// `ssid` is `None` when the name is not valid text.
#[derive(Clone, Debug)]
pub struct ProfileInfo {
    pub kind: String,
    pub mode: String,
    pub ssid: Option<String>,
}

/// A wireless network interface as the network-management service lists it.
#[derive(Clone, Debug)]
pub struct DeviceInfo {
    pub interface: String,
    pub wifi: bool,
}

/// Why no wireless device could be chosen.
#[derive(Clone, Copy, Debug, PartialEq, Eq, Structural)]
pub enum DeviceError {
    /// No device has the requested interface name.
    DeviceByInterface,
    /// The requested interface is not a wireless one.
    NotAWiFiDevice,
    /// No interface was requested and no device is wireless.
    NoWiFiDevice,
}

pub open spec fn wireless_kind() -> Seq<char> {
    seq!['8', '0', '2', '-', '1', '1', '-', 'w', 'i', 'r', 'e', 'l', 'e', 's', 's']
}

pub open spec fn ap_mode() -> Seq<char> {
    seq!['a', 'p']
}

/// A wireless profile for joining a network, as opposed to a hotspot.
pub open spec fn is_client_profile(p: ProfileInfo) -> bool {
    p.kind@ == wireless_kind() && p.mode@ != ap_mode()
}

/// A wireless profile of a hotspot.
pub open spec fn is_hotspot_profile(p: ProfileInfo) -> bool {
    p.kind@ == wireless_kind() && p.mode@ == ap_mode()
}

/// A wireless profile for the network with the given name.
pub open spec fn is_profile_for(p: ProfileInfo, ssid: Seq<char>) -> bool {
    p.kind@ == wireless_kind() && (p.ssid matches Some(s) && s@ == ssid)
}

/// The positions of the hotspot profiles, in increasing order.
pub open spec fn hotspot_positions(ps: Seq<ProfileInfo>) -> Seq<usize>
    decreases ps.len(),
{
    if ps.len() == 0 {
        seq![]
    } else if is_hotspot_profile(ps.last()) {
        hotspot_positions(ps.drop_last()).push((ps.len() - 1) as usize)
    } else {
        hotspot_positions(ps.drop_last())
    }
}

/// The positions of the wireless profiles for a network, in increasing order.
pub open spec fn ssid_positions(ps: Seq<ProfileInfo>, ssid: Seq<char>) -> Seq<usize>
    decreases ps.len(),
{
    if ps.len() == 0 {
        seq![]
    } else if is_profile_for(ps.last(), ssid) {
        ssid_positions(ps.drop_last(), ssid).push((ps.len() - 1) as usize)
    } else {
        ssid_positions(ps.drop_last(), ssid)
    }
}

fn is_wireless(p: &ProfileInfo) -> (r: bool)
    ensures
        r == (p.kind@ == wireless_kind()),
{
    proof { reveal_strlit("802-11-wireless"); }
    let k = String::from_str("802-11-wireless");
    assert(k@ =~= wireless_kind());
    p.kind == k
}

fn is_ap_mode(p: &ProfileInfo) -> (r: bool)
    ensures
        r == (p.mode@ == ap_mode()),
{
    proof { reveal_strlit("ap"); }
    let k = String::from_str("ap");
    assert(k@ =~= ap_mode());
    p.mode == k
}

/// Whether a wireless profile other than a hotspot is defined.
pub fn has_connection_defined(profiles: &Vec<ProfileInfo>) -> (r: bool)
    ensures
        r == exists|i: int| 0 <= i < profiles@.len() && is_client_profile(#[trigger] profiles@[i]),
{
    let mut i: usize = 0;
    while i < profiles.len()
        invariant
            i <= profiles@.len(),
            forall|j: int| 0 <= j < i ==> !is_client_profile(#[trigger] profiles@[j]),
        decreases profiles@.len() - i,
    {
        if is_wireless(&profiles[i]) && !is_ap_mode(&profiles[i]) {
            return true;
        }
        i = i + 1;
    }
    false
}

/// The positions of the hotspot profiles, which are removed at startup.
pub fn access_point_profiles(profiles: &Vec<ProfileInfo>) -> (r: Vec<usize>)
    ensures
        r@ == hotspot_positions(profiles@),
{
    let mut r: Vec<usize> = Vec::new();
    let mut i: usize = 0;
    while i < profiles.len()
        invariant
            i <= profiles@.len(),
            r@ == hotspot_positions(profiles@.take(i as int)),
        decreases profiles@.len() - i,
    {
        proof {
            assert(profiles@.take(i as int + 1).drop_last() == profiles@.take(i as int));
            assert(profiles@.take(i as int + 1).last() == profiles@[i as int]);
        }
        if is_wireless(&profiles[i]) && is_ap_mode(&profiles[i]) {
            r.push(i);
        }
        i = i + 1;
    }
    proof {
        assert(profiles@.take(profiles@.len() as int) == profiles@);
    }
    r
}

/// The positions of the wireless profiles for the named network, which are
/// removed before joining it.
pub fn profiles_for_ssid(profiles: &Vec<ProfileInfo>, ssid: &String) -> (r: Vec<usize>)
    ensures
        r@ == ssid_positions(profiles@, ssid@),
{
    let mut r: Vec<usize> = Vec::new();
    let mut i: usize = 0;
    while i < profiles.len()
        invariant
            i <= profiles@.len(),
            r@ == ssid_positions(profiles@.take(i as int), ssid@),
        decreases profiles@.len() - i,
    {
        proof {
            assert(profiles@.take(i as int + 1).drop_last() == profiles@.take(i as int));
            assert(profiles@.take(i as int + 1).last() == profiles@[i as int]);
        }
        let keep = match &profiles[i].ssid {
            Some(s) => is_wireless(&profiles[i]) && *s == *ssid,
            None => false,
        };
        if keep {
            r.push(i);
        }
        i = i + 1;
    }
    proof {
        assert(profiles@.take(profiles@.len() as int) == profiles@);
    }
    r
}

pub open spec fn first_wifi(ds: Seq<DeviceInfo>, i: int) -> bool {
    0 <= i < ds.len() && ds[i].wifi && forall|j: int| 0 <= j < i ==> !(#[trigger] ds[j]).wifi
}

pub open spec fn first_named(ds: Seq<DeviceInfo>, name: Seq<char>, i: int) -> bool {
    0 <= i < ds.len() && ds[i].interface@ == name && forall|j: int| 0 <= j < i ==> (#[trigger] ds[j]).interface@ != name
}

/// `r` is the choice of a wireless device among `ds`: the one named by
/// `interface`, which must be wireless, or else the first wireless one.
pub open spec fn device_choice(ds: Seq<DeviceInfo>, interface: Option<String>, r: Result<usize, DeviceError>) -> bool {
    match interface {
        Some(name) => match r {
            Ok(i) => first_named(ds, name@, i as int) && ds[i as int].wifi,
            Err(e) => if e is NotAWiFiDevice {
                exists|i: int| #[trigger] first_named(ds, name@, i) && !ds[i].wifi
            } else {
                e is DeviceByInterface && forall|i: int| 0 <= i < ds.len() ==> (#[trigger] ds[i]).interface@ != name@
            },
        },
        None => match r {
            Ok(i) => first_wifi(ds, i as int),
            Err(e) => e is NoWiFiDevice && forall|i: int| 0 <= i < ds.len() ==> !(#[trigger] ds[i]).wifi,
        },
    }
}

/// Chooses the wireless device: the one with the requested interface name,
/// which must be wireless, or else the first wireless device.
pub fn find_device(devices: &Vec<DeviceInfo>, interface: &Option<String>) -> (r: Result<usize, DeviceError>)
    ensures
        device_choice(devices@, *interface, r),
{
    let mut i: usize = 0;
    match interface {
        Some(name) => {
            while i < devices.len()
                invariant
                    i <= devices@.len(),
                    *interface == Some(*name),
                    forall|j: int| 0 <= j < i ==> (#[trigger] devices@[j]).interface@ != name@,
                decreases devices@.len() - i,
            {
                if devices[i].interface == *name {
                    if devices[i].wifi {
                        return Ok(i);
                    } else {
                        proof {
                            let nm = interface->Some_0;
                            assert(nm@ == name@);
                            assert(first_named(devices@, nm@, i as int) && !devices@[i as int].wifi);
                        }
                        return Err(DeviceError::NotAWiFiDevice);
                    }
                }
                i = i + 1;
            }
            Err(DeviceError::DeviceByInterface)
        },
        None => {
            while i < devices.len()
                invariant
                    i <= devices@.len(),
                    *interface is None,
                    forall|j: int| 0 <= j < i ==> !(#[trigger] devices@[j]).wifi,
                decreases devices@.len() - i,
            {
                if devices[i].wifi {
                    return Ok(i);
                }
                i = i + 1;
            }
            Err(DeviceError::NoWiFiDevice)
        },
    }
}

} // verus!
