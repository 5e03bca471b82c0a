//! Recognising the keyboard among the attached HID devices.

use crate::error::Error;
use vstd::prelude::*;

verus! {

/// USB vendor id of both supported keyboards.
pub const VENDOR_ID: u16 = 0x048d;

/// USB product id of the 2021 keyboard.
pub const PRODUCT_ID_2021: u16 = 0xc965;

/// USB product id of the 2020 keyboard.
pub const PRODUCT_ID_2020: u16 = 0xc955;

/// Usage page under which the keyboards expose their lighting interface.
pub const LIGHTING_USAGE_PAGE: u16 = 0xff89;

/// Usage of the lighting interface within its usage page.
pub const LIGHTING_USAGE: u16 = 0x00cc;

/// The operating system whose HID layer lists the devices.
#[derive(Debug, Clone, Copy, PartialEq, Eq, Structural)]
pub enum Platform {
    /// Reports no usage page and no usage: both read as zero.
    Linux,
    /// Reports the usage page and the usage of each interface.
    Windows,
}

/// The four numbers by which an attached HID device is recognised.
#[derive(Debug, Clone, Copy, PartialEq, Eq, Structural)]
pub struct DeviceIdentity {
    pub vendor_id: u16,
    pub product_id: u16,
    pub usage_page: u16,
    pub usage: u16,
}

/// How a keyboard with the given product id shows up on `platform`.
pub open spec fn identity_on(platform: Platform, product_id: u16) -> DeviceIdentity {
    match platform {
        Platform::Linux => DeviceIdentity {
            vendor_id: VENDOR_ID,
            product_id,
            usage_page: 0,
            usage: 0,
        },
        Platform::Windows => DeviceIdentity {
            vendor_id: VENDOR_ID,
            product_id,
            usage_page: LIGHTING_USAGE_PAGE,
            usage: LIGHTING_USAGE,
        },
    }
}

/// `device` is the 2021 or the 2020 keyboard as `platform` shows it.
pub open spec fn is_supported(platform: Platform, device: DeviceIdentity) -> bool {
    device == identity_on(platform, PRODUCT_ID_2021) || device == identity_on(
        platform,
        PRODUCT_ID_2020,
    )
}

/// `index` is the place of the first supported keyboard in `devices`.
pub open spec fn is_first_supported(
    platform: Platform,
    devices: Seq<DeviceIdentity>,
    index: int,
) -> bool {
    &&& 0 <= index < devices.len()
    &&& is_supported(platform, devices[index])
    &&& forall|j: int| 0 <= j < index ==> !is_supported(platform, #[trigger] devices[j])
}

/// No device in `devices` is a supported keyboard.
pub open spec fn none_supported(platform: Platform, devices: Seq<DeviceIdentity>) -> bool {
    forall|j: int| 0 <= j < devices.len() ==> !is_supported(platform, #[trigger] devices[j])
}

impl DeviceIdentity {
    /// The 2021 keyboard as `platform` shows it.
    pub fn model_2021(platform: Platform) -> (identity: DeviceIdentity)
        ensures
            identity == identity_on(platform, PRODUCT_ID_2021),
    {
        Self::on_platform(platform, PRODUCT_ID_2021)
    }

    /// The 2020 keyboard as `platform` shows it.
    pub fn model_2020(platform: Platform) -> (identity: DeviceIdentity)
        ensures
            identity == identity_on(platform, PRODUCT_ID_2020),
    {
        Self::on_platform(platform, PRODUCT_ID_2020)
    }

    fn on_platform(platform: Platform, product_id: u16) -> (identity: DeviceIdentity)
        ensures
            identity == identity_on(platform, product_id),
    {
        match platform {
            Platform::Linux => DeviceIdentity {
                vendor_id: VENDOR_ID,
                product_id,
                usage_page: 0,
                usage: 0,
            },
            Platform::Windows => DeviceIdentity {
                vendor_id: VENDOR_ID,
                product_id,
                usage_page: LIGHTING_USAGE_PAGE,
                usage: LIGHTING_USAGE,
            },
        }
    }

    /// Whether this device is one of the two supported keyboards.
    pub fn is_supported_on(&self, platform: Platform) -> (supported: bool)
        ensures
            supported == is_supported(platform, *self),
    {
        *self == Self::model_2021(platform) || *self == Self::model_2020(platform)
    }
}

/// The index of the first supported keyboard in `devices`, in the order in
/// which they were listed; `DeviceNotFound` where there is none.
pub fn find_device(platform: Platform, devices: &[DeviceIdentity]) -> (result: Result<
    usize,
    Error,
>)
    ensures
        match result {
            Ok(index) => is_first_supported(platform, devices@, index as int),
            Err(e) => e == Error::DeviceNotFound && none_supported(platform, devices@),
        },
{
    let mut i: usize = 0;
    while i < devices.len()
        invariant
            i <= devices.len(),
            forall|j: int| 0 <= j < i ==> !is_supported(platform, #[trigger] devices@[j]),
        decreases devices.len() - i,
    {
        if devices[i].is_supported_on(platform) {
            return Ok(i);
        }
        i += 1;
    }
    Err(Error::DeviceNotFound)
}

/// At most one index is the first supported keyboard of a list, and a list
/// that has one is not a list without supported keyboards.
pub proof fn lemma_first_supported_unique(
    platform: Platform,
    devices: Seq<DeviceIdentity>,
    a: int,
    b: int,
)
    requires
        is_first_supported(platform, devices, a),
        is_first_supported(platform, devices, b),
    ensures
        a == b,
        !none_supported(platform, devices),
{
    if a < b {
        assert(!is_supported(platform, devices[a]));
    } else if b < a {
        assert(!is_supported(platform, devices[b]));
    }
    assert(is_supported(platform, devices[a]));
}

/// Where one device of the list is the 2021 keyboard and no other device is a
/// supported keyboard, that device, and no other, is the one selected.
pub proof fn lemma_single_match_is_selected(
    platform: Platform,
    devices: Seq<DeviceIdentity>,
    k: int,
    index: int,
)
    requires
        0 <= k < devices.len(),
        devices[k] == identity_on(platform, PRODUCT_ID_2021),
        forall|j: int|
            0 <= j < devices.len() && j != k ==> !is_supported(platform, #[trigger] devices[j]),
    ensures
        is_first_supported(platform, devices, k),
        is_first_supported(platform, devices, index) ==> index == k,
        !none_supported(platform, devices),
{
    assert(is_supported(platform, devices[k]));
    if is_first_supported(platform, devices, index) {
        lemma_first_supported_unique(platform, devices, k, index);
    }
}

} // verus!
