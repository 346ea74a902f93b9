//! The pure graphics-boundary values.

use nengine::vulkan::make_api_version;
use nengine::vulkan::PhysicalDeviceProperties;

#[test]
fn api_versions_pack_their_components() {
    assert_eq!(make_api_version(0, 1, 3, 0), (1u32 << 22) | (3u32 << 12));
    assert_eq!(make_api_version(0, 1, 3, 0), 4_206_592);
    assert_eq!(make_api_version(1, 0, 0, 0), 1u32 << 29);
    assert_eq!(make_api_version(0, 0, 0, 0), 0);
    assert_eq!(make_api_version(0, 1, 0, 0), 0x0040_0000);
}

#[test]
fn device_properties_carry_the_advertised_name() {
    let properties = PhysicalDeviceProperties { device_name: String::from("llvmpipe") };
    assert_eq!(properties.device_name, "llvmpipe");
}
