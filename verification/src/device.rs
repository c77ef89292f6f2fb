//! The virtual network device that carries the tunnel's IP packets.

use vstd::prelude::*;

verus! {

/// An open tunnel device (`tun::Device`), carried as an opaque value.
#[verifier::external_type_specification]
#[verifier::external_body]
pub struct ExDevice(tun::Device);

/// The error of the tunnel crate (`tun::Error`), carried as an opaque value.
#[verifier::external_type_specification]
#[verifier::external_body]
pub struct ExTunError(tun::Error);

/// The settings of a layer-3 tunnel device, with root privileges ensured so
/// that the addresses are applied, as plain values. Addresses are written as
/// their four octets.
#[derive(Clone, Debug)]
pub struct TunConfig {
    /// The interface name; the system picks one when it is absent.
    pub tun_name: Option<String>,
    pub address: Option<(u8, u8, u8, u8)>,
    pub netmask: Option<(u8, u8, u8, u8)>,
    pub destination: Option<(u8, u8, u8, u8)>,
    /// The number of queues; only one is supported.
    pub queues: Option<usize>,
    /// Whether to bring the interface up once created.
    pub up: bool,
}

/// The number of bytes of `c` in UTF-8.
pub open spec fn utf8_char_len(c: char) -> nat {
    if (c as u32) < 0x80 {
        1
    } else if (c as u32) < 0x800 {
        2
    } else if (c as u32) < 0x1_0000 {
        3
    } else {
        4
    }
}

/// The number of bytes of `s` in UTF-8.
pub open spec fn utf8_len(s: Seq<char>) -> nat
    decreases s.len(),
{
    if s.len() == 0 {
        0
    } else {
        utf8_len(s.drop_last()) + utf8_char_len(s.last())
    }
}

/// Whether Linux refuses `name` as an interface name without asking the
/// system: it holds a NUL character, or it does not fit, with its closing
/// NUL byte, in the sixteen bytes of an interface name.
pub open spec fn refused_name(name: Seq<char>) -> bool {
    name.contains('\0') || utf8_len(name) + 1 > 16
}

/// Whether the settings `config` are refused before the system is asked:
/// a refused name, or a number of queues other than one.
pub open spec fn refused_config(config: TunConfig) -> bool {
    ||| (config.tun_name matches Some(n) && refused_name(n@))
    ||| (config.queues matches Some(q) && q != 1)
}

/// Opens a tunnel device with `tun::create`, on a `tun::Configuration` that
/// holds the settings of `config`. The source of `tun` (Linux) refuses a
/// name with a NUL, a name too long for an interface, and a number of
/// queues other than one, before touching the system: those come back as
/// errors. Otherwise whether the system grants the device depends on the
/// machine and its privileges, and nothing is promised. Beside the outcome
/// it hands back a copy of the settings it was given.
#[verifier::external_body]
#[allow(deprecated)]
fn create_device(config: &TunConfig) -> (r: (Result<tun::Device, tun::Error>, TunConfig))
    ensures
        r.1 == *config,
        refused_config(*config) ==> r.0 is Err,
{
    let mut c = tun::Configuration::default();
    if let Some(name) = &config.tun_name { c.tun_name(name); }
    if let Some(a) = config.address { c.address(a); }
    if let Some(a) = config.netmask { c.netmask(a); }
    if let Some(a) = config.destination { c.destination(a); }
    if let Some(q) = config.queues { c.queues(q); }
    if config.up { c.up(); }
    (tun::create(&c), config.clone())
}

/// Why no tunnel device could be had.
#[derive(Debug)]
pub enum DeviceError {
    /// Creating a device with the settings given was refused, for the
    /// reason given.
    Create(tun::Error, TunConfig),
}

/// A tunnel device owned by the program, with the settings it was opened
/// with.
pub struct TunnelDevice {
    pub tun: tun::Device,
    pub requested: TunConfig,
}

impl TunnelDevice {
    /// Opens a tunnel device with the settings `config`. Settings refused
    /// before the system is asked (see [`refused_config`]) give an error;
    /// otherwise the system decides, and its refusal comes back as
    /// `DeviceError::Create` with its reason (see
    /// [`TunnelDevice::from_creation`]). Either way the result carries the
    /// settings `config` that the device was asked for.
    pub fn new(config: &TunConfig) -> (r: Result<TunnelDevice, DeviceError>)
        ensures
            refused_config(*config) ==> r is Err,
            r matches Ok(t) ==> t.requested == *config,
            r matches Err(DeviceError::Create(_, requested)) ==> requested == *config,
    {
        let (created, requested) = create_device(config);
        TunnelDevice::from_creation(created, requested)
    }

    /// The device for the outcome of an attempt to create one with the
    /// settings `requested`: the device itself when the attempt succeeded,
    /// `DeviceError::Create` with the system's reason when it failed.
    pub fn from_creation(created: Result<tun::Device, tun::Error>, requested: TunConfig) -> (r:
        Result<TunnelDevice, DeviceError>)
        ensures
            match created {
                Ok(d) => r matches Ok(t) && t.tun == d && t.requested == requested,
                Err(e) => r matches Err(DeviceError::Create(e2, g)) && e2 == e && g == requested,
            },
    {
        match created {
            Ok(device) => Ok(TunnelDevice { tun: device, requested }),
            Err(e) => Err(DeviceError::Create(e, requested)),
        }
    }
}

} // verus!
