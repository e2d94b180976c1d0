//! Mesh network settings and the reading of the radio's role and link
//! quality.

use vstd::prelude::*;
use vstd::utf8::encode_utf8;
use crate::hex::{hex_grouped, hex_text};

verus! {

/// Longest network name the operational dataset holds, in bytes.
pub const NETWORK_NAME_MAX: usize = 16;

/// Role number from which the device is attached to a network (child,
/// router, leader).
pub const ROLE_CHILD: u32 = 2;

/// RSSI reported when no parent link quality is available.
pub const RSSI_FLOOR: i8 = -128;

/// The first `NETWORK_NAME_MAX` bytes of `b`, or all of it when shorter.
pub open spec fn name_prefix(b: Seq<u8>) -> Seq<u8> {
    if b.len() <= NETWORK_NAME_MAX {
        b
    } else {
        b.take(NETWORK_NAME_MAX as int)
    }
}

/// Settings that every device of one network shares.
pub struct ThreadConfig {
    pub network_name: String,
    pub channel: u8,
    pub panid: u16,
    pub network_key: [u8; 16],
}

impl Default for ThreadConfig {
    /// Development settings; production devices need their own key.
    fn default() -> (r: Self)
        ensures
            r.network_name@ == "VentNet"@,
            r.channel == 25,
            r.panid == 0xabcd,
            r.network_key@ == seq![
                0x00u8, 0x11, 0x22, 0x33, 0x44, 0x55, 0x66, 0x77,
                0x88, 0x99, 0xaa, 0xbb, 0xcc, 0xdd, 0xee, 0xff,
            ],
    {
        let network_key: [u8; 16] = [
            0x00, 0x11, 0x22, 0x33, 0x44, 0x55, 0x66, 0x77,
            0x88, 0x99, 0xaa, 0xbb, 0xcc, 0xdd, 0xee, 0xff,
        ];
        let r = ThreadConfig {
            network_name: "VentNet".to_owned(),
            channel: 25,
            panid: 0xabcd,
            network_key,
        };
        assert(r.network_key@ =~= seq![
            0x00u8, 0x11, 0x22, 0x33, 0x44, 0x55, 0x66, 0x77,
            0x88, 0x99, 0xaa, 0xbb, 0xcc, 0xdd, 0xee, 0xff,
        ]);
        r
    }
}

impl ThreadConfig {
    /// The network name as the dataset stores it: its first bytes, at most
    /// `NETWORK_NAME_MAX`.
    pub fn dataset_name(&self) -> (r: Vec<u8>)
        ensures
            r@ == name_prefix(encode_utf8(self.network_name@)),
    {
        let bytes = self.network_name.as_str().as_bytes();
        let n: usize = if bytes.len() < NETWORK_NAME_MAX {
            bytes.len()
        } else {
            NETWORK_NAME_MAX
        };
        let mut r: Vec<u8> = Vec::new();
        let mut i: usize = 0;
        while i < n
            invariant
                n <= bytes@.len(),
                i <= n,
                r@ == bytes@.take(i as int),
            decreases n - i,
        {
            r.push(bytes[i]);
            i = i + 1;
            assert(r@ =~= bytes@.take(i as int));
        }
        r
    }
}

/// The mesh network attachment of this device.
pub struct ThreadManager {
    config: ThreadConfig,
    connected: bool,
}

impl ThreadManager {
    /// The settings, in the model.
    pub closed spec fn spec_config(&self) -> &ThreadConfig {
        &self.config
    }

    /// Whether the manager counts itself attached, in the model.
    pub closed spec fn spec_connected(&self) -> bool {
        self.connected
    }

    /// A manager for `config`, not yet attached.
    pub fn new(config: ThreadConfig) -> (r: Self)
        ensures
            *r.spec_config() == config,
            !r.spec_connected(),
    {
        ThreadManager { config, connected: false }
    }

    /// The settings the manager joins with.
    pub fn config(&self) -> (r: &ThreadConfig)
        ensures
            *r == *self.spec_config(),
    {
        &self.config
    }

    /// Text of an IPv6 address: eight groups of four lower-case hex digits,
    /// separated by ':'.
    pub fn format_ipv6(addr: &[u8; 16]) -> (r: String)
        ensures
            r@ == hex_grouped(addr@, 2),
    {
        hex_text(addr.as_slice(), 2)
    }

    /// Whether a radio in role `role` is attached to a network.
    pub fn role_is_connected(role: u32) -> (r: bool)
        ensures
            r == (role >= ROLE_CHILD),
    {
        role >= ROLE_CHILD
    }

    /// Name of a radio role number.
    pub fn role_name(role: u32) -> (r: &'static str)
        ensures
            role == 0 ==> r@ == "disabled"@,
            role == 1 ==> r@ == "detached"@,
            role == 2 ==> r@ == "child"@,
            role == 3 ==> r@ == "router"@,
            role == 4 ==> r@ == "leader"@,
            role > 4 ==> r@ == "unknown"@,
    {
        match role {
            0 => "disabled",
            1 => "detached",
            2 => "child",
            3 => "router",
            4 => "leader",
            _ => "unknown",
        }
    }

    /// The parent link's average RSSI when the radio could report it, the
    /// floor value otherwise.
    pub fn parent_rssi(reading: Option<i8>) -> (r: i8)
        ensures
            reading matches Some(v) ==> r == v,
            reading is None ==> r == RSSI_FLOOR,
    {
        match reading {
            Some(v) => v,
            None => RSSI_FLOOR,
        }
    }
}

} // verus!
