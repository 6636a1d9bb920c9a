use std::collections::HashMap;
use waybar_data_provider::cache::get_cache_dir;
use waybar_data_provider::cache::get_cache_fp;
use waybar_data_provider::cache::get_staging_fp;
use waybar_data_provider::cache::write_plan;
use waybar_data_provider::cache::FileOp;
use waybar_data_provider::scheduler::Job;

/// Carries out one step on files held in memory. Returns whether the step
/// succeeded.
fn perform(disk: &mut HashMap<String, Vec<u8>>, op: &FileOp) -> bool {
    match op {
        FileOp::Create { path } => {
            disk.insert(path.clone(), Vec::new());
            true
        }
        FileOp::Write { path, bytes } => match disk.get_mut(path) {
            Some(file) => {
                file.extend_from_slice(bytes);
                true
            }
            None => false,
        },
        FileOp::Sync { path } => disk.contains_key(path),
        FileOp::Rename { from, to } => match disk.remove(from) {
            Some(file) => {
                disk.insert(to.clone(), file);
                true
            }
            None => false,
        },
    }
}

#[test]
fn cache_paths_lie_below_the_home_directory() {
    assert_eq!(get_cache_dir("/home/u"), "/home/u/.cache/waybar-data-provider");
    assert_eq!(
        get_cache_fp("/home/u", "weather"),
        "/home/u/.cache/waybar-data-provider/weather.json"
    );
    assert_eq!(
        get_staging_fp("/home/u", "weather"),
        "/home/u/.cache/waybar-data-provider/weather.json.tmp"
    );
    assert_eq!(get_cache_fp("", ""), "/.cache/waybar-data-provider/.json");
}

#[test]
fn staging_file_is_no_artifact() {
    for name in ["weather", "crypto", "weather.json", "a.tmp", ""] {
        for other in ["weather", "crypto", "weather.json.tmp", "a", ""] {
            assert_ne!(get_staging_fp("/h", name), get_cache_fp("/h", other));
        }
    }
    assert_ne!(get_cache_fp("/h", "weather"), get_cache_fp("/h", "crypto"));
}

#[test]
fn write_plan_stages_then_renames() {
    let plan = write_plan("/h", "weather", vec![1, 2, 3]);
    let staging = "/h/.cache/waybar-data-provider/weather.json.tmp";
    let target = "/h/.cache/waybar-data-provider/weather.json";
    assert_eq!(plan.len(), 4);
    assert!(matches!(&plan[0], FileOp::Create { path } if path == staging));
    assert!(matches!(&plan[1], FileOp::Write { path, bytes } if path == staging && bytes == &vec![1, 2, 3]));
    assert!(matches!(&plan[2], FileOp::Sync { path } if path == staging));
    assert!(matches!(&plan[3], FileOp::Rename { from, to } if from == staging && to == target));
}

#[test]
fn written_artifact_reads_back() {
    let mut disk: HashMap<String, Vec<u8>> = HashMap::new();
    let target = get_cache_fp("/h", "weather");
    disk.insert(target.clone(), b"old".to_vec());
    disk.insert(get_cache_fp("/h", "crypto"), b"coins".to_vec());
    for op in write_plan("/h", "weather", b"new artifact".to_vec()) {
        assert!(perform(&mut disk, &op));
    }
    assert_eq!(disk.get(&target), Some(&b"new artifact".to_vec()));
    assert_eq!(disk.get(&get_cache_fp("/h", "crypto")), Some(&b"coins".to_vec()));
    assert_eq!(disk.get(&get_staging_fp("/h", "weather")), None);
}

#[test]
fn first_write_creates_the_artifact() {
    let mut disk: HashMap<String, Vec<u8>> = HashMap::new();
    for op in write_plan("/h", "weather", Vec::new()) {
        assert!(perform(&mut disk, &op));
    }
    assert_eq!(disk.get(&get_cache_fp("/h", "weather")), Some(&Vec::new()));
    assert_eq!(disk.len(), 1);
}

#[test]
fn interrupted_write_leaves_the_old_artifact() {
    let target = get_cache_fp("/h", "weather");
    for done in 0..4 {
        let mut disk: HashMap<String, Vec<u8>> = HashMap::new();
        disk.insert(target.clone(), b"old".to_vec());
        let plan = write_plan("/h", "weather", b"new".to_vec());
        for op in plan.iter().take(done) {
            assert!(perform(&mut disk, op));
        }
        assert_eq!(disk.get(&target), Some(&b"old".to_vec()));
    }
    for done in 0..4 {
        let mut disk: HashMap<String, Vec<u8>> = HashMap::new();
        let plan = write_plan("/h", "weather", b"new".to_vec());
        for op in plan.iter().take(done) {
            assert!(perform(&mut disk, op));
        }
        assert_eq!(disk.get(&target), None);
    }
}

#[test]
fn torn_write_leaves_the_old_artifact() {
    let target = get_cache_fp("/h", "weather");
    let staging = get_staging_fp("/h", "weather");
    let mut disk: HashMap<String, Vec<u8>> = HashMap::new();
    disk.insert(target.clone(), b"old".to_vec());
    let plan = write_plan("/h", "weather", b"new".to_vec());
    assert!(perform(&mut disk, &plan[0]));
    let torn = FileOp::Write { path: staging.clone(), bytes: b"ne".to_vec() };
    assert!(perform(&mut disk, &torn));
    assert_eq!(disk.get(&target), Some(&b"old".to_vec()));
    assert_eq!(disk.get(&staging), Some(&b"ne".to_vec()));
}

#[test]
fn job_plans_the_write_of_its_own_artifact() {
    let job = Job::new("crypto", 60, None);
    let plan = job.persist_plan("/home/u", "h\u{e9}");
    assert_eq!(plan.len(), 4);
    let staging = "/home/u/.cache/waybar-data-provider/crypto.json.tmp";
    assert!(
        matches!(&plan[1], FileOp::Write { path, bytes } if path == staging && bytes == &vec![0x68, 0xc3, 0xa9])
    );
    assert!(matches!(&plan[3], FileOp::Rename { to, .. } if to == "/home/u/.cache/waybar-data-provider/crypto.json"));
}
