use vbox_verified::dmg::DmgImage;
use vbox_verified::iscsi::IscsiTarget;
use vbox_verified::qed::QedImage;
use vbox_verified::vd::VdLegacyImage;
use vbox_verified::vdi::{VdiImage, VDI_HEADER_SIZE, VDI_HEADER_VERSION_V2, VDI_MAGIC_V2};
use vbox_verified::vfs::VfsManager;
use vbox_verified::vhd::VhdImage;
use vbox_verified::vhdx::{VhdxFileType, VhdxImage};
use vbox_verified::vmdk::VmdkImage;

#[test]
fn test_create_dmg() {
    let img = DmgImage::create("/tmp/test.dmg", 1 << 30);
    assert!(img.is_ok());
}

#[test]
fn test_parse_iscsi_string() {
    let result = IscsiTarget::open("iscsi://192.168.1.100:3260/target1");
    assert!(result.is_ok());
    let target = result.unwrap();
    assert_eq!(target.params.target_ip, "192.168.1.100");
}

#[test]
fn test_create_qed() {
    let img = QedImage::create("/tmp/test.qed", 1 << 30);
    assert!(img.is_ok());
}

#[test]
fn test_create_legacy() {
    let img = VdLegacyImage::create("/tmp/test.vd", 1 << 30);
    assert!(img.is_ok());
}

#[test]
fn test_parse_header_valid() {
    let mut data = vec![0u8; VDI_HEADER_SIZE];
    data[64..68].copy_from_slice(&VDI_MAGIC_V2.to_le_bytes());
    data[68..72].copy_from_slice(&VDI_HEADER_VERSION_V2.to_le_bytes());
    data[72..76].copy_from_slice(&0u32.to_le_bytes());
    let header = VdiImage::parse_header(&data);
    assert!(header.is_ok());
}

#[test]
fn test_create_vdi() {
    let img = VdiImage::create("/tmp/test.vdi", 1 << 30, 1 << 20);
    assert!(img.is_ok());
    let img = img.unwrap();
    assert_eq!(img.num_blocks, 1024);
}

#[test]
fn test_vfs_manager() {
    let _manager = VfsManager::new();
}

#[test]
fn test_parse_footer_valid() {
    let mut data = vec![0u8; 512];
    data[0..8].copy_from_slice(b"conectix");
    let footer = VhdImage::parse_footer(&data);
    assert!(footer.is_ok());
}

#[test]
fn test_invalid_cookie() {
    let data = vec![0u8; 512];
    let result = VhdImage::parse_footer(&data);
    assert!(result.is_err());
}

#[test]
fn test_create_vhdx() {
    let img = VhdxImage::create("/tmp/test.vhdx", 1 << 30, VhdxFileType::DynamicDisk);
    assert!(img.is_ok());
}

#[test]
fn test_parse_descriptor() {
    let content = r#"# Disk DescriptorFile
version=1
CID=12345678
parentCID=ffffffff
createType="streamOptimized"
# Extent description
RW 204800 SPARSE "test.vmdk"
ddb.virtualHWVersion = "8"
ddb.adapterType = "lsisas1068"
ddb.geometry.cylinders = "20"
ddb.geometry.heads = "64"
ddb.geometry.sectors = "32"
ddb.diskId = "12345"
"#;
    let result = VmdkImage::parse_descriptor(content);
    assert!(result.is_ok());
}
