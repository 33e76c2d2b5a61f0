//! Writing a file so that a crash never leaves it half written: the steps
//! of the write, and a model of what each does to the file system.
use vstd::prelude::*;

verus! {

/// The path that `Path::with_extension(path, "tmp")` gives, as text.
pub uninterp spec fn tmp_path_of(path: Seq<char>) -> Seq<char>;

/// Relies on std's `Path::with_extension`: the temporary path is a function
/// of the destination path.
#[verifier::external_body]
fn tmp_path(path: &str) -> (r: String)
    ensures
        r@ == tmp_path_of(path@),
{
    std::path::Path::new(path).with_extension("tmp").to_string_lossy().into_owned()
}

/// One file-system operation of a write.
pub enum WriteStep {
    /// Create every missing directory above this path.
    CreateParentDirs(String),
    /// Write these contents to this path, replacing what is there.
    WriteFile { path: String, data: String },
    /// Flush this file to the disk.
    Sync(String),
    /// Move a file over another in one step.
    Rename { from: String, to: String },
}

/// A file system, as the contents of each file by path.
pub type FileContents = Map<Seq<char>, Seq<char>>;

/// What one step does to the files.
pub open spec fn apply_step(fs: FileContents, s: WriteStep) -> FileContents {
    match s {
        WriteStep::WriteFile { path, data } => fs.insert(path@, data@),
        WriteStep::Rename { from, to } => if fs.contains_key(from@) {
            fs.remove(from@).insert(to@, fs[from@])
        } else {
            fs
        },
        _ => fs,
    }
}

/// What a run of steps does to the files.
pub open spec fn apply_steps(fs: FileContents, steps: Seq<WriteStep>) -> FileContents
    decreases steps.len(),
{
    if steps.len() == 0 {
        fs
    } else {
        apply_step(apply_steps(fs, steps.drop_last()), steps.last())
    }
}

/// The steps that write `data` to `path`: make its directory, write a
/// temporary file beside it, flush that, and rename it over `path`.
pub open spec fn write_plan(path: Seq<char>, data: Seq<char>) -> Seq<(nat, Seq<char>, Seq<char>)> {
    seq![
        (0nat, path, Seq::empty()),
        (1nat, tmp_path_of(path), data),
        (2nat, tmp_path_of(path), Seq::empty()),
        (3nat, tmp_path_of(path), path),
    ]
}

/// A step as its kind and its two texts, in the order of `write_plan`.
pub open spec fn step_view(s: WriteStep) -> (nat, Seq<char>, Seq<char>) {
    match s {
        WriteStep::CreateParentDirs(p) => (0nat, p@, Seq::empty()),
        WriteStep::WriteFile { path, data } => (1nat, path@, data@),
        WriteStep::Sync(p) => (2nat, p@, Seq::empty()),
        WriteStep::Rename { from, to } => (3nat, from@, to@),
    }
}

/// The steps of an atomic write of `data` to `path`.
pub fn atomic_write_plan(path: &str, data: &str) -> (r: Vec<WriteStep>)
    ensures
        r@.map_values(|s: WriteStep| step_view(s)) == write_plan(path@, data@),
{
    let tmp = tmp_path(path);
    let mut steps: Vec<WriteStep> = Vec::new();
    steps.push(WriteStep::CreateParentDirs(String::from_str(path)));
    steps.push(WriteStep::WriteFile { path: tmp.clone(), data: String::from_str(data) });
    steps.push(WriteStep::Sync(tmp.clone()));
    steps.push(WriteStep::Rename { from: tmp, to: String::from_str(path) });
    proof {
        assert(steps@.map_values(|s: WriteStep| step_view(s)) =~= write_plan(path@, data@));
    }
    steps
}

/// An atomic write is safe to interrupt: when the temporary path differs
/// from the destination, stopping after any step before the rename leaves
/// the destination as it was, and the whole run leaves exactly `data` there.
pub proof fn atomic_write_is_crash_safe(
    fs: FileContents,
    steps: Seq<WriteStep>,
    path: Seq<char>,
    data: Seq<char>,
)
    requires
        steps.map_values(|s: WriteStep| step_view(s)) == write_plan(path, data),
        tmp_path_of(path) != path,
    ensures
        forall|k: int|
            0 <= k < 4 ==> {
                let after = #[trigger] apply_steps(fs, steps.subrange(0, k));
                &&& after.contains_key(path) == fs.contains_key(path)
                &&& fs.contains_key(path) ==> after[path] == fs[path]
            },
        apply_steps(fs, steps).contains_key(path),
        apply_steps(fs, steps)[path] == data,
{
    let v = steps.map_values(|s: WriteStep| step_view(s));
    assert(steps.len() == 4) by {
        assert(v.len() == 4);
    }
    let tmp = tmp_path_of(path);
    assert(step_view(steps[0]) == v[0]);
    assert(step_view(steps[1]) == v[1]);
    assert(step_view(steps[2]) == v[2]);
    assert(step_view(steps[3]) == v[3]);
    assert(steps.subrange(0, 0).len() == 0);
    assert(steps.subrange(0, 1).drop_last() =~= steps.subrange(0, 0));
    assert(steps.subrange(0, 2).drop_last() =~= steps.subrange(0, 1));
    assert(steps.subrange(0, 3).drop_last() =~= steps.subrange(0, 2));
    assert(steps.drop_last() =~= steps.subrange(0, 3));
    let a0 = apply_steps(fs, steps.subrange(0, 0));
    let a1 = apply_steps(fs, steps.subrange(0, 1));
    let a2 = apply_steps(fs, steps.subrange(0, 2));
    let a3 = apply_steps(fs, steps.subrange(0, 3));
    assert(a0 == fs);
    assert(a1 == fs);
    assert(a2 == fs.insert(tmp, data));
    assert(a3 == a2);
    assert(apply_steps(fs, steps) == a3.remove(tmp).insert(path, data));
}

} // verus!
