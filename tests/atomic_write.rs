use backend_supervisor::atomic_write::{atomic_write_plan, WriteStep};
use std::collections::HashMap;

fn apply(fs: &mut HashMap<String, String>, step: &WriteStep) {
    match step {
        WriteStep::WriteFile { path, data } => {
            fs.insert(path.clone(), data.clone());
        }
        WriteStep::Rename { from, to } => {
            if let Some(d) = fs.remove(from) {
                fs.insert(to.clone(), d);
            }
        }
        _ => {}
    }
}

#[test]
fn plan_writes_temp_then_renames() {
    let plan = atomic_write_plan("/data/chats/c1.json", "{\"a\":1}");
    assert_eq!(plan.len(), 4);
    assert!(matches!(&plan[0], WriteStep::CreateParentDirs(p) if p == "/data/chats/c1.json"));
    assert!(matches!(&plan[1], WriteStep::WriteFile { path, data } if path == "/data/chats/c1.tmp" && data == "{\"a\":1}"));
    assert!(matches!(&plan[2], WriteStep::Sync(p) if p == "/data/chats/c1.tmp"));
    assert!(matches!(&plan[3], WriteStep::Rename { from, to } if from == "/data/chats/c1.tmp" && to == "/data/chats/c1.json"));
}

#[test]
fn interrupted_write_keeps_original() {
    let dest = String::from("/d/notes.json");
    let plan = atomic_write_plan(&dest, "new contents");
    for k in 0..4 {
        let mut fs = HashMap::new();
        fs.insert(dest.clone(), String::from("old contents"));
        for step in &plan[..k] {
            apply(&mut fs, step);
        }
        assert_eq!(fs.get(&dest), Some(&String::from("old contents")));
    }
    let mut fs = HashMap::new();
    fs.insert(dest.clone(), String::from("old contents"));
    for step in &plan {
        apply(&mut fs, step);
    }
    assert_eq!(fs.get(&dest), Some(&String::from("new contents")));
    assert_eq!(fs.len(), 1);
}

#[test]
fn write_to_new_file() {
    let plan = atomic_write_plan("out.txt", "");
    let mut fs: HashMap<String, String> = HashMap::new();
    for step in &plan {
        apply(&mut fs, step);
    }
    assert_eq!(fs.get("out.txt"), Some(&String::new()));
    assert!(!fs.contains_key("out.tmp"));
}
