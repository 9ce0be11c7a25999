use nebula_installer::disks::{field, parse_disk_line, parse_lsblk, parse_lsblk_kv, DiskInfo};

fn disk(name: &str, size: &str, model: &str) -> DiskInfo {
    DiskInfo { name: name.to_string(), size: size.to_string(), model: model.to_string() }
}

fn text(v: Vec<char>) -> String {
    v.into_iter().collect()
}

#[test]
fn device_paths() {
    assert_eq!(disk("sda", "1T", "").device_path(), "/dev/sda");
    assert_eq!(disk("nvme0n1", "1T", "").device_path(), "/dev/nvme0n1");
}

#[test]
fn partition_paths() {
    assert_eq!(disk("sda", "", "").partition_path(1), "/dev/sda1");
    assert_eq!(disk("sda", "", "").partition_path(2), "/dev/sda2");
    assert_eq!(disk("nvme0n1", "", "").partition_path(1), "/dev/nvme0n1p1");
    assert_eq!(disk("mmcblk0", "", "").partition_path(2), "/dev/mmcblk0p2");
    assert_eq!(disk("vda", "", "").partition_path(0), "/dev/vda0");
    assert_eq!(disk("vda", "", "").partition_path(255), "/dev/vda255");
    assert_eq!(disk("", "", "").partition_path(10), "/dev/10");
}

#[test]
fn disk_labels() {
    assert_eq!(disk("sda", "931.5G", "").label(), "sda (931.5G)");
    assert_eq!(disk("sda", "931.5G", "Samsung SSD 860").label(), "sda (931.5G) Samsung SSD 860");
}

#[test]
fn key_value_pairs() {
    let pairs = parse_lsblk_kv("  NAME=\"sda\" SIZE=\"931.5G\" TYPE=\"disk\" MODEL=\"Samsung SSD 860\"  ");
    let got: Vec<(String, String)> =
        pairs.iter().map(|(k, v)| (text(k.clone()), text(v.clone()))).collect();
    assert_eq!(
        got,
        vec![
            ("NAME".to_string(), "sda".to_string()),
            ("SIZE".to_string(), "931.5G".to_string()),
            ("TYPE".to_string(), "disk".to_string()),
            ("MODEL".to_string(), "Samsung SSD 860".to_string()),
        ]
    );
    assert_eq!(field(&pairs, "TYPE").map(text), Some("disk".to_string()));
    assert_eq!(field(&pairs, "LABEL"), None);
    assert!(parse_lsblk_kv("").is_empty());
    assert!(parse_lsblk_kv("no pairs here").is_empty());
    let cut = parse_lsblk_kv("A=\"1\" B=\"unfinished");
    assert_eq!(cut.len(), 1);
    let twice = parse_lsblk_kv("A=\"1\" A=\"2\"");
    assert_eq!(field(&twice, "A").map(text), Some("2".to_string()));
    let empty = parse_lsblk_kv("A=\"\" B=\"x\"");
    assert_eq!(field(&empty, "A").map(text), Some(String::new()));
    assert_eq!(field(&empty, "B").map(text), Some("x".to_string()));
}

#[test]
fn disk_lines() {
    assert_eq!(
        parse_disk_line("NAME=\"sda\" SIZE=\"10G\" TYPE=\"disk\" MODEL=\"QEMU\""),
        Some(disk("sda", "10G", "QEMU"))
    );
    assert_eq!(parse_disk_line("NAME=\"sr0\" SIZE=\"1G\" TYPE=\"rom\" MODEL=\"DVD\""), None);
    assert_eq!(parse_disk_line("NAME=\"\" SIZE=\"1G\" TYPE=\"disk\" MODEL=\"\""), None);
    assert_eq!(parse_disk_line("SIZE=\"1G\" TYPE=\"disk\""), None);
    assert_eq!(parse_disk_line("   "), None);
    assert_eq!(parse_disk_line("NAME=\"vda\" TYPE=\"disk\""), Some(disk("vda", "", "")));
}

#[test]
fn listing() {
    let output = "NAME=\"sda\" SIZE=\"10G\" TYPE=\"disk\" MODEL=\"QEMU HARDDISK\"\n\
                  NAME=\"loop0\" SIZE=\"700M\" TYPE=\"loop\" MODEL=\"\"\n\
                  \n\
                  NAME=\"nvme0n1\" SIZE=\"1T\" TYPE=\"disk\" MODEL=\"\"\n";
    assert_eq!(
        parse_lsblk(output),
        vec![disk("sda", "10G", "QEMU HARDDISK"), disk("nvme0n1", "1T", "")]
    );
    assert!(parse_lsblk("").is_empty());
}
