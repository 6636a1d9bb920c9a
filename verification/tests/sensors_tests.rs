use waybar_data_provider::sensors::heat_color;
use waybar_data_provider::sensors::is_known_sensor;
use waybar_data_provider::sensors::known_sensors;
use waybar_data_provider::sensors::sensor_matches;
use waybar_data_provider::sensors::thresholds;
use waybar_data_provider::sensors::Heat;
use waybar_data_provider::sensors::ReadThrough;
use waybar_data_provider::sensors::SensorKind;
use waybar_data_provider::sensors::NVIDIA_INTERVAL;
use waybar_data_provider::text::same_text;
use waybar_data_provider::text::starts_with;

#[test]
fn texts_are_compared_by_their_characters() {
    assert!(same_text("", ""));
    assert!(same_text("nvme", "nvme"));
    assert!(!same_text("nvme", "nvme0"));
    assert!(!same_text("nvme0", "nvme"));
    assert!(!same_text("nvmf", "nvme"));
    assert!(same_text("\u{e9}t\u{e9}", "\u{e9}t\u{e9}"));
    assert!(starts_with("nvme0", "nvme"));
    assert!(starts_with("nvme", "nvme"));
    assert!(starts_with("nvme", ""));
    assert!(!starts_with("nvm", "nvme"));
    assert!(!starts_with("xnvme", "nvme"));
    assert!(!starts_with("", "a"));
}

#[test]
fn sensor_matches_whole_name_or_prefix() {
    assert!(sensor_matches("k10temp", "k10temp", false));
    assert!(!sensor_matches("k10temp2", "k10temp", false));
    assert!(sensor_matches("k10temp2", "k10temp", true));
    assert!(sensor_matches("nvme", "nvme", true));
    assert!(sensor_matches("nvme-pci-0100", "nvme", true));
    assert!(!sensor_matches("nvme-pci-0100", "nvme", false));
    assert!(!sensor_matches("nvm", "nvme", true));
    assert!(!sensor_matches("anvme", "nvme", true));
}

#[test]
fn known_sensors_are_recognised() {
    for name in ["k10temp", "coretemp", "amdgpu", "nvme", "nvme1", "nct6799", "spd5118"] {
        assert!(is_known_sensor(name));
    }
    for name in ["", "k10", "k10temp1", "acpitz", "nct6798", "spd5118b", "nvm", "Nvme", "iwlwifi_1"] {
        assert!(!is_known_sensor(name));
    }
}

#[test]
fn known_sensors_come_in_section_order() {
    let table = known_sensors();
    let patterns: Vec<&str> = table.iter().map(|s| s.pattern).collect();
    assert_eq!(patterns, vec!["k10temp", "coretemp", "amdgpu", "nvme", "nct6799", "spd5118"]);
    let prefixes: Vec<bool> = table.iter().map(|s| s.prefix).collect();
    assert_eq!(prefixes, vec![false, false, false, true, false, false]);
    assert_eq!(table[0].title, "\u{F0EE0} CPU");
    assert_eq!(table[2].title, "\u{F08AE} GPU AMD");
    assert_eq!(table[3].title, "\u{F02CA} NVMe");
    assert_eq!(table[4].title, "\u{F061A} Motherboard");
    assert_eq!(table[5].title, "\u{F035B} RAM");
    assert_eq!(table[3].kind, SensorKind::Nvme);
    assert_eq!(table[4].kind, SensorKind::Motherboard);
    assert_eq!(table[5].kind, SensorKind::Ram);
    assert_eq!(table[0].kind, SensorKind::CpuGpu);
}

#[test]
fn thresholds_of_each_kind() {
    let cpu = thresholds(SensorKind::CpuGpu);
    assert_eq!((cpu.warm, cpu.hot, cpu.critical), (50, 70, 85));
    let nvme = thresholds(SensorKind::Nvme);
    assert_eq!((nvme.warm, nvme.hot, nvme.critical), (40, 55, 70));
    let ram = thresholds(SensorKind::Ram);
    assert_eq!((ram.warm, ram.hot, ram.critical), (40, 50, 60));
    let board = thresholds(SensorKind::Motherboard);
    assert_eq!((board.warm, board.hot, board.critical), (50, 70, 85));
}

#[test]
fn colours_of_each_heat() {
    assert_eq!(heat_color(Heat::Cool), "#a6d189");
    assert_eq!(heat_color(Heat::Warm), "#e5c890");
    assert_eq!(heat_color(Heat::Hot), "#ef9f76");
    assert_eq!(heat_color(Heat::Critical), "#e78284");
}

#[test]
fn read_through_cache_is_stale_until_refreshed() {
    assert_eq!(NVIDIA_INTERVAL, 10);
    let mut cache: ReadThrough<Vec<f64>> = ReadThrough::new(Vec::new());
    assert!(cache.is_stale(0, 10));
    assert!(cache.is_stale(1000, 10));
    assert_eq!(cache.get(5, 10), None);
    cache.refresh(vec![45.0, 51.5], 100);
    assert!(!cache.is_stale(100, 10));
    assert!(!cache.is_stale(109, 10));
    assert!(cache.is_stale(110, 10));
    assert!(cache.is_stale(111, 10));
    assert_eq!(cache.get(105, 10), Some(&vec![45.0, 51.5]));
    assert_eq!(cache.get(110, 10), None);
    assert!(!cache.is_stale(50, 10));
    assert!(cache.is_stale(50, 0));
    assert!(cache.is_stale(100, 0));
    cache.refresh(vec![60.0], 200);
    assert_eq!(cache.get(205, 10), Some(&vec![60.0]));
    assert_eq!(cache.refreshed, Some(200));
}
