//! Board-level default configuration, used when the flash holds no valid
//! record: a link-local identity on a fixed test network.

use vstd::prelude::*;
use crate::flash::{CONFIG_MAGIC, UserConfig};

verus! {

/// The board's fallback network identity.
pub fn config() -> (r: UserConfig)
    ensures
        r.magic == CONFIG_MAGIC,
        r.mac_address@ =~= seq![0x00u8, 0x00, 0xDE, 0xAD, 0xBE, 0xEF],
        r.ip_address@ =~= seq![169u8, 254, 141, 210],
        r.ip_gateway@ =~= seq![169u8, 254, 141, 1],
        r.ip_prefix == 24,
{
    UserConfig::new(
        [0x00, 0x00, 0xDE, 0xAD, 0xBE, 0xEF],
        [169, 254, 141, 210],
        [169, 254, 141, 1],
        24,
    )
}

} // verus!
