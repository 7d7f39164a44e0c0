//! The renderer configuration that tells the engine to render through the
//! host's Vulkan instance and device.

use vstd::prelude::*;
use vstd::string::StringSliceAdditionalSpecFns;
use crate::application::{AppError, AppErrorView};
use crate::flutter_embedder::{c_string, is_first_nul, nul_free};

verus! {

/// The name under which the engine asks for the function that resolves the
/// functions of a Vulkan instance.
pub const GET_INSTANCE_PROC_ADDR: &'static str = "vkGetInstanceProcAddr";

/// The Vulkan instance below the host's GPU instance.
#[derive(Clone, Debug, PartialEq, Eq)]
pub struct RawVkInstance {
    /// The instance's handle.
    pub instance: u64,
    /// The version of Vulkan that the instance speaks.
    pub version: u32,
    /// The names of the extensions that the instance was made with.
    pub extensions: Vec<Vec<u8>>,
}

/// The Vulkan device and queue below the host's GPU device.
#[derive(Clone, Debug, PartialEq, Eq)]
pub struct RawVkDeviceAndQueue {
    /// The device's handle.
    pub device: u64,
    /// The handle of the physical device that the device was made on.
    pub physical_device: u64,
    /// The handle of the device's queue.
    pub queue: u64,
    /// The family that the queue belongs to.
    pub queue_family_index: u32,
    /// The names of the extensions that the device was made with.
    pub extensions: Vec<Vec<u8>>,
}

/// What the engine is told of the host's Vulkan stack.
#[derive(Clone, Copy, Debug, PartialEq, Eq)]
pub struct FlutterVulkanRendererConfig {
    /// The size of the record as the engine's interface lays it out.
    pub struct_size: usize,
    /// The version of Vulkan that the instance speaks.
    pub version: u32,
    /// The instance's handle.
    pub instance: u64,
    /// The physical device's handle.
    pub physical_device: u64,
    /// The device's handle.
    pub device: u64,
    /// The family that the queue belongs to.
    pub queue_family_index: u32,
    /// The queue's handle.
    pub queue: u64,
    /// How many instance extensions are named.
    pub enabled_instance_extension_count: usize,
    /// How many device extensions are named.
    pub enabled_device_extension_count: usize,
    /// The host resolves instance functions for the engine.
    pub get_instance_proc_address_callback: bool,
    /// The host hands the engine the next image to render into.
    pub get_next_image_callback: bool,
    /// The host presents the images that the engine rendered.
    pub present_image_callback: bool,
}

/// The renderer that the engine is to use, with what that renderer needs.
#[derive(Clone, Copy, Debug, PartialEq, Eq)]
pub enum FlutterRendererConfig {
    /// The engine renders through the host's Vulkan device.
    Vulkan(FlutterVulkanRendererConfig),
}

/// A renderer configuration together with the extension names that it
/// counts, each as a C string, so that the names live as long as the
/// configuration does.
#[derive(Clone, Debug, PartialEq, Eq)]
pub struct FlutterRendererConfigWrapper {
    /// The configuration.
    pub config: FlutterRendererConfig,
    /// The names of the instance extensions, each as a C string.
    pub owned_instance_extensions: Vec<Vec<u8>>,
    /// The names of the device extensions, each as a C string.
    pub owned_device_extensions: Vec<Vec<u8>>,
}

/// None of the names holds a zero byte.
pub open spec fn names_nul_free(names: Seq<Vec<u8>>) -> bool {
    forall|k: int| 0 <= k < names.len() ==> nul_free(#[trigger] names[k]@)
}

/// `position` is where the first zero byte stands in the first of the names
/// that holds one.
pub open spec fn is_first_nul_of_names(names: Seq<Vec<u8>>, position: int) -> bool {
    exists|k: int|
        0 <= k < names.len() && names_nul_free(names.take(k)) && is_first_nul(
            #[trigger] names[k]@,
            position,
        )
}

/// `buffers` are the names, each followed by one zero byte.
pub open spec fn are_c_strings_of(buffers: Seq<Vec<u8>>, names: Seq<Vec<u8>>) -> bool {
    &&& buffers.len() == names.len()
    &&& forall|k: int| 0 <= k < names.len() ==> (#[trigger] buffers[k]@) == names[k]@.push(0u8)
}

/// The configuration that is built from a Vulkan instance and device.
pub open spec fn vulkan_config(
    instance: RawVkInstance,
    device: RawVkDeviceAndQueue,
    struct_size: usize,
) -> FlutterRendererConfig {
    FlutterRendererConfig::Vulkan(
        FlutterVulkanRendererConfig {
            struct_size,
            version: instance.version,
            instance: instance.instance,
            physical_device: device.physical_device,
            device: device.device,
            queue_family_index: device.queue_family_index,
            queue: device.queue,
            enabled_instance_extension_count: instance.extensions.len(),
            enabled_device_extension_count: device.extensions.len(),
            get_instance_proc_address_callback: true,
            get_next_image_callback: true,
            present_image_callback: true,
        },
    )
}

/// A renderer configuration can be built: the GPU stack is backed by Vulkan,
/// and none of the extension names holds a zero byte.
pub open spec fn renderer_ready(
    instance: Option<RawVkInstance>,
    device: Option<RawVkDeviceAndQueue>,
) -> bool {
    &&& instance matches Some(raw_instance)
    &&& device matches Some(raw_device)
    &&& names_nul_free(raw_instance.extensions@)
    &&& names_nul_free(raw_device.extensions@)
}

/// `result` is what building the renderer configuration from `instance` and
/// `device` comes to.
///
/// It is a configuration exactly when both are there and none of their
/// extension names holds a zero byte. It then carries their handles, is
/// stamped with `struct_size`, and counts the names that the wrapper owns
/// as C strings. Without an instance or a device the error says that the
/// backend is not supported; else it gives the first zero byte of the first
/// name that holds one, the instance's names before the device's.
pub open spec fn renderer_config_of(
    instance: Option<RawVkInstance>,
    device: Option<RawVkDeviceAndQueue>,
    struct_size: usize,
    result: Result<FlutterRendererConfigWrapper, AppError>,
) -> bool {
    match (instance, device) {
        (Some(raw_instance), Some(raw_device)) => {
            if !names_nul_free(raw_instance.extensions@) {
                &&& result matches Err(AppError::CStringCreation(position))
                &&& is_first_nul_of_names(raw_instance.extensions@, position as int)
            } else if !names_nul_free(raw_device.extensions@) {
                &&& result matches Err(AppError::CStringCreation(position))
                &&& is_first_nul_of_names(raw_device.extensions@, position as int)
            } else {
                &&& result matches Ok(wrapper)
                &&& wrapper.config == vulkan_config(raw_instance, raw_device, struct_size)
                &&& are_c_strings_of(wrapper.owned_instance_extensions@, raw_instance.extensions@)
                &&& are_c_strings_of(wrapper.owned_device_extensions@, raw_device.extensions@)
                &&& wrapper.wf()
            }
        },
        _ => result matches Err(AppError::UnsupportedBackend),
    }
}

impl FlutterRendererConfigWrapper {
    /// The configuration counts the names that the wrapper owns.
    pub open spec fn wf(&self) -> bool {
        match self.config {
            FlutterRendererConfig::Vulkan(vulkan) => {
                &&& vulkan.enabled_instance_extension_count == self.owned_instance_extensions@.len()
                &&& vulkan.enabled_device_extension_count == self.owned_device_extensions@.len()
            },
        }
    }
}

/// Turns each of the names into a C string, or reports the first zero byte
/// of the first name that holds one.
pub fn c_strings(names: &Vec<Vec<u8>>) -> (result: Result<Vec<Vec<u8>>, usize>)
    ensures
        match result {
            Ok(buffers) => names_nul_free(names@) && are_c_strings_of(buffers@, names@),
            Err(position) => is_first_nul_of_names(names@, position as int),
        },
{
    let mut buffers: Vec<Vec<u8>> = Vec::new();
    let mut k: usize = 0;
    while k < names.len()
        invariant
            k <= names.len(),
            names_nul_free(names@.take(k as int)),
            are_c_strings_of(buffers@, names@.take(k as int)),
        decreases names.len() - k,
    {
        match c_string(names[k].as_slice()) {
            Ok(buffer) => {
                buffers.push(buffer);
            },
            Err(position) => {
                return Err(position);
            },
        }
        k += 1;
    }
    proof {
        assert(names@.take(k as int) == names@);
    }
    Ok(buffers)
}

/// Builds the renderer configuration from the Vulkan instance and device
/// below the host's GPU stack.
///
/// Without an instance or without a device the GPU stack is not backed by
/// Vulkan, and the configuration is refused. An extension name that holds a
/// zero byte cannot be handed to the engine: the instance's names are looked
/// at first, then the device's. Otherwise the configuration carries the
/// handles as they are, is stamped with `struct_size`, registers the three
/// callbacks, and counts the names that the wrapper owns as C strings.
pub fn create_flutter_renderer_config(
    instance: Option<RawVkInstance>,
    device: Option<RawVkDeviceAndQueue>,
    struct_size: usize,
) -> (result: Result<FlutterRendererConfigWrapper, AppError>)
    ensures
        renderer_config_of(instance, device, struct_size, result),
{
    let (raw_instance, raw_device) = match (instance, device) {
        (Some(raw_instance), Some(raw_device)) => (raw_instance, raw_device),
        _ => {
            return Err(AppError::UnsupportedBackend);
        },
    };
    let owned_instance_extensions = match c_strings(&raw_instance.extensions) {
        Ok(buffers) => buffers,
        Err(position) => {
            return Err(AppError::CStringCreation(position));
        },
    };
    let owned_device_extensions = match c_strings(&raw_device.extensions) {
        Ok(buffers) => buffers,
        Err(position) => {
            return Err(AppError::CStringCreation(position));
        },
    };
    let config = FlutterRendererConfig::Vulkan(
        FlutterVulkanRendererConfig {
            struct_size,
            version: raw_instance.version,
            instance: raw_instance.instance,
            physical_device: raw_device.physical_device,
            device: raw_device.device,
            queue_family_index: raw_device.queue_family_index,
            queue: raw_device.queue,
            enabled_instance_extension_count: raw_instance.extensions.len(),
            enabled_device_extension_count: raw_device.extensions.len(),
            get_instance_proc_address_callback: true,
            get_next_image_callback: true,
            present_image_callback: true,
        },
    );
    Ok(FlutterRendererConfigWrapper { config, owned_instance_extensions, owned_device_extensions })
}

/// Whether `name`, the bytes of a function's name without the closing zero
/// byte, asks for the function that resolves the functions of a Vulkan
/// instance. The host answers for no other name.
pub fn is_instance_proc_query(name: &[u8]) -> (asked: bool)
    ensures
        asked == (name@ == GET_INSTANCE_PROC_ADDR.spec_bytes()),
{
    let expected = GET_INSTANCE_PROC_ADDR.as_bytes();
    if name.len() != expected.len() {
        return false;
    }
    let mut i: usize = 0;
    while i < name.len()
        invariant
            i <= name.len(),
            name.len() == expected.len(),
            expected@ == GET_INSTANCE_PROC_ADDR.spec_bytes(),
            forall|j: int| 0 <= j < i ==> name[j] == expected[j],
        decreases name.len() - i,
    {
        if name[i] != expected[i] {
            proof {
                assert(name@[i as int] != expected@[i as int]);
            }
            return false;
        }
        i += 1;
    }
    proof {
        assert(name@ =~= expected@);
    }
    true
}

} // verus!
