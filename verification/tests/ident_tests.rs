use gpa_monitor::assets::{get_gpu_logo, GpuLogo};
use gpa_monitor::pci::extract_pci_device_id;

#[test]
fn test_gpu_logo_by_vendor() {
    assert_eq!(get_gpu_logo("NVIDIA GeForce RTX 3080"), GpuLogo::Nvidia);
    assert_eq!(get_gpu_logo("AMD Radeon RX 6800"), GpuLogo::Amd);
    assert_eq!(get_gpu_logo("Intel Arc A770"), GpuLogo::Intel);
    assert_eq!(get_gpu_logo("Microsoft Basic Display Adapter"), GpuLogo::Virtual);
}

#[test]
fn test_gpu_logo_is_case_insensitive() {
    assert_eq!(get_gpu_logo("nvidia geforce"), GpuLogo::Nvidia);
    assert_eq!(get_gpu_logo("RADEON (AMD)"), GpuLogo::Amd);
}

#[test]
fn test_extract_device_id() {
    assert_eq!(
        extract_pci_device_id("PCI\\VEN_10DE&DEV_2482&SUBSYS_00000000&REV_A1"),
        Some("2482".to_owned())
    );
    // The id is reported uppercased.
    assert_eq!(
        extract_pci_device_id("PCI\\VEN_1002&DEV_73bf&SUBSYS_0E3D1462"),
        Some("73BF".to_owned())
    );
}

#[test]
fn test_extract_device_id_with_escaped_separator() {
    // Some sources escape the separator as a literal & sequence.
    assert_eq!(
        extract_pci_device_id("PCI\\VEN_10DE\\u0026DEV_1234\\u0026SUBSYS_X"),
        Some("1234".to_owned())
    );
}

#[test]
fn test_extract_device_id_rejects_malformed_input() {
    // No DEV_ marker.
    assert_eq!(extract_pci_device_id("PCI\\VEN_10DE&SUBSYS_0"), None);
    // No end marker after the id.
    assert_eq!(extract_pci_device_id("PCI\\VEN_10DE&DEV_2482"), None);
    // An id that is not exactly four characters.
    assert_eq!(extract_pci_device_id("PCI\\VEN_10DE&DEV_248&REV_A1"), None);
    assert_eq!(extract_pci_device_id("PCI\\VEN_10DE&DEV_24821&REV_A1"), None);
}
