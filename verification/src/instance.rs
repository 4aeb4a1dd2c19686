//! The connection to the driver and the presentation surface, both made
//! once and kept for the life of the process.

use crate::physical_device::PhysicalDevice;
use crate::raw_handle::{HasRawAshHandle, HasRawVkHandle};
use ash::vk;
use vstd::prelude::*;

verus! {

/// The version of the API that the engine is written against.
pub const API_VARIANT: u32 = 0;

pub const API_MAJOR: u32 = 1;

pub const API_MINOR: u32 = 3;

pub const API_PATCH: u32 = 268;

/// A version number as the API packs it: the variant in the top three
/// bits, then seven bits of major, ten of minor and twelve of patch number.
pub open spec fn packed_version(variant: u32, major: u32, minor: u32, patch: u32) -> u32 {
    (variant << 29) | (major << 22) | (minor << 12) | patch
}

/// Calls `ash::vk::make_api_version`, which shifts the variant, major and
/// minor numbers to their places and combines them with the patch number.
#[verifier::external_body]
pub(crate) fn make_api_version(variant: u32, major: u32, minor: u32, patch: u32) -> (r: u32)
    ensures
        r == packed_version(variant, major, minor, patch),
{
    vk::make_api_version(variant, major, minor, patch)
}

/// The C string `text`, whose last byte is zero.
pub open spec fn c_string(text: Seq<u8>) -> Seq<u8> {
    text.push(0u8)
}

/// What the instance tells the driver about the application.
#[derive(Debug)]
pub struct ApplicationInfo {
    pub application_name: Vec<u8>,
    pub application_version: u32,
    pub engine_name: Vec<u8>,
    pub engine_version: u32,
    pub api_version: u32,
}

/// What an instance is created from.
#[derive(Debug)]
pub struct InstanceCreateInfo {
    pub flags: u32,
    pub application_info: ApplicationInfo,
    pub enabled_layer_names: Vec<Vec<u8>>,
    pub enabled_extension_names: Vec<Vec<u8>>,
}

/// The presentation surface of the window.
#[derive(Clone, Copy, Debug, PartialEq, Eq, Structural)]
pub struct Surface {
    pub handle: u64,
}

impl Surface {
    pub fn new(handle: u64) -> (r: Surface)
        ensures
            r.handle == handle,
    {
        Surface { handle }
    }
}

impl HasRawVkHandle<u64> for Surface {
    open spec fn raw_handle(&self) -> u64 {
        self.handle
    }

    fn get_vk_handle(&self) -> u64 {
        self.handle
    }
}

/// The instance: its handle, its surface, and the adapters that the driver
/// listed, once it was asked.
#[derive(Debug)]
pub struct Instance {
    pub handle: u64,
    pub surface: Surface,
    pub physical_devices: Option<Vec<u64>>,
}

/// The name of the application.
pub open spec fn application_name() -> Seq<u8> {
    seq![118u8, 117u8, 108u8, 107u8, 97u8]
}

/// The name of the engine.
pub open spec fn engine_name() -> Seq<u8> {
    seq![110u8, 111u8, 32u8, 101u8, 110u8, 103u8, 105u8, 110u8, 101u8]
}

/// The name of the validation layer.
pub open spec fn validation_layer_name() -> Seq<u8> {
    seq![
        86u8, 75u8, 95u8, 76u8, 65u8, 89u8, 69u8, 82u8, 95u8, 75u8, 72u8, 82u8, 79u8, 78u8, 79u8,
        83u8, 95u8, 118u8, 97u8, 108u8, 105u8, 100u8, 97u8, 116u8, 105u8, 111u8, 110u8,
    ]
}

/// The handles that are kept, or none while no list is kept.
pub open spec fn kept_handles(kept: Option<Vec<u64>>) -> Seq<u64> {
    match kept {
        Some(v) => v@,
        None => Seq::empty(),
    }
}

impl Instance {
    /// What to create the instance from: the application "vulka" on "no
    /// engine", the extensions that the window system needs and, where
    /// `validate` is set, the validation layer.
    pub fn create_info(surface_extensions: Vec<Vec<u8>>, validate: bool) -> (r: InstanceCreateInfo)
        ensures
            r.flags == 0,
            r.application_info.application_name@ == c_string(application_name()),
            r.application_info.application_version == 0,
            r.application_info.engine_name@ == c_string(engine_name()),
            r.application_info.engine_version == 0,
            r.application_info.api_version == packed_version(
                API_VARIANT,
                API_MAJOR,
                API_MINOR,
                API_PATCH,
            ),
            r.enabled_extension_names@ == surface_extensions@,
            r.enabled_layer_names@.len() == (if validate {
                1nat
            } else {
                0nat
            }),
            validate ==> r.enabled_layer_names@[0]@ == c_string(validation_layer_name()),
    {
        let app: Vec<u8> = vec![118u8, 117u8, 108u8, 107u8, 97u8, 0u8];
        let engine: Vec<u8> = vec![
            110u8,
            111u8,
            32u8,
            101u8,
            110u8,
            103u8,
            105u8,
            110u8,
            101u8,
            0u8,
        ];
        assert(app@ =~= c_string(application_name()));
        assert(engine@ =~= c_string(engine_name()));
        let mut enabled_layer_names: Vec<Vec<u8>> = Vec::new();
        if validate {
            let layer: Vec<u8> = vec![
                86u8,
                75u8,
                95u8,
                76u8,
                65u8,
                89u8,
                69u8,
                82u8,
                95u8,
                75u8,
                72u8,
                82u8,
                79u8,
                78u8,
                79u8,
                83u8,
                95u8,
                118u8,
                97u8,
                108u8,
                105u8,
                100u8,
                97u8,
                116u8,
                105u8,
                111u8,
                110u8,
                0u8,
            ];
            assert(layer@ =~= c_string(validation_layer_name()));
            enabled_layer_names.push(layer);
        }
        InstanceCreateInfo {
            flags: 0,
            application_info: ApplicationInfo {
                application_name: app,
                application_version: 0,
                engine_name: engine,
                engine_version: 0,
                api_version: make_api_version(API_VARIANT, API_MAJOR, API_MINOR, API_PATCH),
            },
            enabled_layer_names,
            enabled_extension_names: surface_extensions,
        }
    }

    /// The instance `handle` with its surface; its adapters are not listed
    /// yet.
    pub fn new(handle: u64, surface: Surface) -> (r: Instance)
        ensures
            r.handle == handle,
            r.surface == surface,
            r.physical_devices is None,
    {
        Instance { handle, surface, physical_devices: None }
    }

    pub fn get_surface(&self) -> (r: Surface)
        ensures
            r == self.surface,
    {
        self.surface
    }

    /// Keeps the adapters that the driver listed, unless a list is kept
    /// already.
    pub fn cache_physical_devices(&mut self, handles: Vec<u64>)
        ensures
            final(self).handle == old(self).handle,
            final(self).surface == old(self).surface,
            final(self).physical_devices == (match old(self).physical_devices {
                Some(kept) => Some(kept),
                None => Some(handles),
            }),
    {
        if self.physical_devices.is_none() {
            self.physical_devices = Some(handles);
        }
    }

    /// One adapter for each handle that is kept, of which nothing else is
    /// known yet; none while no list is kept.
    pub fn get_physical_devices(&self) -> (r: Vec<PhysicalDevice>)
        ensures
            r@.len() == kept_handles(self.physical_devices).len(),
            forall|i: int|
                0 <= i < r@.len() ==> (#[trigger] r@[i]).is_blank(
                    kept_handles(self.physical_devices)[i],
                ),
    {
        let mut devices: Vec<PhysicalDevice> = Vec::new();
        match &self.physical_devices {
            Some(kept) => {
                let mut i: usize = 0;
                while i < kept.len()
                    invariant
                        i <= kept@.len(),
                        devices@.len() == i,
                        forall|j: int| 0 <= j < i ==> (#[trigger] devices@[j]).is_blank(kept@[j]),
                    decreases kept.len() - i,
                {
                    devices.push(PhysicalDevice::new(kept[i]));
                    i = i + 1;
                }
            },
            None => {},
        }
        devices
    }
}

impl HasRawAshHandle<u64> for Instance {
    open spec fn raw_ash_handle(&self) -> u64 {
        self.handle
    }

    fn get_ash_handle(&self) -> &u64 {
        &self.handle
    }
}

} // verus!
