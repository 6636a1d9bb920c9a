//! The cache store: where the artifact of a source is kept, and the steps by
//! which a new artifact replaces the old one without a reader ever seeing a
//! half-written file.

use vstd::prelude::*;

verus! {

/// The cache directory below the user's home directory.
pub open spec fn cache_dir(home: Seq<char>) -> Seq<char> {
    home + "/.cache/waybar-data-provider"@
}

/// The file that holds the artifact of the source `name`.
pub open spec fn artifact_path(home: Seq<char>, name: Seq<char>) -> Seq<char> {
    cache_dir(home) + "/"@ + name + ".json"@
}

/// The sibling file in which a new artifact of `name` is written before it
/// takes the place of the old one.
pub open spec fn staging_path(home: Seq<char>, name: Seq<char>) -> Seq<char> {
    artifact_path(home, name) + ".tmp"@
}

/// The cache directory of the user whose home directory is `home_dir`.
pub fn get_cache_dir(home_dir: &str) -> (dir: String)
    ensures
        dir@ == cache_dir(home_dir@),
{
    let mut dir = home_dir.to_owned();
    dir.append("/.cache/waybar-data-provider");
    dir
}

/// The path of the artifact of `name`: `{cache_dir}/{name}.json`.
pub fn get_cache_fp(home_dir: &str, name: &str) -> (path: String)
    ensures
        path@ == artifact_path(home_dir@, name@),
{
    let mut path = get_cache_dir(home_dir);
    path.append("/");
    path.append(name);
    path.append(".json");
    path
}

/// The path of the staging file of `name`: `{cache_dir}/{name}.json.tmp`.
pub fn get_staging_fp(home_dir: &str, name: &str) -> (path: String)
    ensures
        path@ == staging_path(home_dir@, name@),
{
    let mut path = get_cache_fp(home_dir, name);
    path.append(".tmp");
    path
}

/// One step of the write of an artifact, for the caller to carry out on the
/// file system.
#[derive(Debug)]
pub enum FileOp {
    /// Create the file at `path`, or empty it where it exists.
    Create { path: String },
    /// Add `bytes` at the end of the file at `path`.
    Write { path: String, bytes: Vec<u8> },
    /// Flush the file at `path` and wait until it is on stable storage.
    Sync { path: String },
    /// Rename the file at `from` to `to`, in one atomic step, replacing
    /// what was at `to`.
    Rename { from: String, to: String },
}

/// A [`FileOp`] as plain values.
pub enum FileOpView {
    Create { path: Seq<char> },
    Write { path: Seq<char>, bytes: Seq<u8> },
    Sync { path: Seq<char> },
    Rename { from: Seq<char>, to: Seq<char> },
}

impl View for FileOp {
    type V = FileOpView;

    open spec fn view(&self) -> FileOpView {
        match *self {
            FileOp::Create { path } => FileOpView::Create { path: path@ },
            FileOp::Write { path, bytes } => FileOpView::Write { path: path@, bytes: bytes@ },
            FileOp::Sync { path } => FileOpView::Sync { path: path@ },
            FileOp::Rename { from, to } => FileOpView::Rename { from: from@, to: to@ },
        }
    }
}

/// The steps of a plan, each as plain values.
pub open spec fn steps(plan: Seq<FileOp>) -> Seq<FileOpView> {
    plan.map_values(|op: FileOp| op@)
}

/// The steps that write `bytes` as the artifact of `name`: the bytes go to
/// the staging file, which is made durable and then renamed over the
/// artifact.
pub open spec fn write_steps(home: Seq<char>, name: Seq<char>, bytes: Seq<u8>) -> Seq<
    FileOpView,
> {
    seq![
        FileOpView::Create { path: staging_path(home, name) },
        FileOpView::Write { path: staging_path(home, name), bytes },
        FileOpView::Sync { path: staging_path(home, name) },
        FileOpView::Rename { from: staging_path(home, name), to: artifact_path(home, name) },
    ]
}

/// The plan by which `bytes` become the artifact of `name`. The caller
/// carries the steps out in order and stops at the first one that fails;
/// the write has succeeded when the last step has.
pub fn write_plan(home_dir: &str, name: &str, bytes: Vec<u8>) -> (plan: Vec<FileOp>)
    ensures
        steps(plan@) == write_steps(home_dir@, name@, bytes@),
{
    let plan = vec![
        FileOp::Create { path: get_staging_fp(home_dir, name) },
        FileOp::Write { path: get_staging_fp(home_dir, name), bytes },
        FileOp::Sync { path: get_staging_fp(home_dir, name) },
        FileOp::Rename {
            from: get_staging_fp(home_dir, name),
            to: get_cache_fp(home_dir, name),
        },
    ];
    assert(steps(plan@) =~= write_steps(home_dir@, name@, bytes@));
    plan
}

/// The files of a disk: what each path holds. A path outside the domain
/// names no file.
pub type Disk = Map<Seq<char>, Seq<u8>>;

/// What a reader finds at `path`.
pub open spec fn read(disk: Disk, path: Seq<char>) -> Option<Seq<u8>> {
    if disk.dom().contains(path) {
        Some(disk[path])
    } else {
        None
    }
}

/// The disk after one step has been carried out in full.
pub open spec fn perform(disk: Disk, op: FileOpView) -> Disk {
    match op {
        FileOpView::Create { path } => disk.insert(path, Seq::empty()),
        FileOpView::Write { path, bytes } => if disk.dom().contains(path) {
            disk.insert(path, disk[path] + bytes)
        } else {
            disk
        },
        FileOpView::Sync { path } => disk,
        FileOpView::Rename { from, to } => if disk.dom().contains(from) {
            disk.remove(from).insert(to, disk[from])
        } else {
            disk
        },
    }
}

/// The disk after the steps `ops` have been carried out in order.
pub open spec fn perform_all(disk: Disk, ops: Seq<FileOpView>) -> Disk
    decreases ops.len(),
{
    if ops.len() == 0 {
        disk
    } else {
        perform(perform_all(disk, ops.drop_last()), ops.last())
    }
}

/// The disk where the steps stopped for good while step number `done` was
/// under way: the steps before it have been carried out, and of a `Write`
/// only the first `torn` bytes have reached the file. A step other than a
/// `Write` has then happened or it has not, which is the same stop one
/// step later or this one.
pub open spec fn interrupted(disk: Disk, ops: Seq<FileOpView>, done: int, torn: int) -> Disk
    recommends
        0 <= done < ops.len(),
{
    let before = perform_all(disk, ops.take(done));
    match ops[done] {
        FileOpView::Write { path, bytes } => perform(
            before,
            FileOpView::Write { path, bytes: bytes.take(torn) },
        ),
        _ => before,
    }
}

/// Two disks that hold the same files but possibly for `path`.
pub open spec fn same_but_at(before: Disk, after: Disk, path: Seq<char>) -> bool {
    forall|other: Seq<char>| other != path ==> read(after, other) == read(before, other)
}

/// The staging file of a source is the artifact of no source.
pub proof fn staging_is_no_artifact(home: Seq<char>, name: Seq<char>, other: Seq<char>)
    ensures
        staging_path(home, name) != artifact_path(home, other),
{
    reveal_strlit(".json");
    reveal_strlit(".tmp");
    let staging = staging_path(home, name);
    let artifact = artifact_path(home, other);
    assert(staging.last() == 'p');
    assert(artifact.last() == 'n');
}

/// Two sources share an artifact path only if they have the same name.
pub proof fn artifact_path_tells_names_apart(home: Seq<char>, name: Seq<char>, other: Seq<char>)
    requires
        artifact_path(home, name) == artifact_path(home, other),
    ensures
        name == other,
{
    let front = cache_dir(home) + "/"@;
    let back = ".json"@;
    let a = artifact_path(home, name);
    let b = artifact_path(home, other);
    assert(a.len() == front.len() + name.len() + back.len());
    assert(b.len() == front.len() + other.len() + back.len());
    assert forall|i: int| 0 <= i < name.len() implies name[i] == other[i] by {
        assert(a[front.len() + i] == name[i]);
        assert(b[front.len() + i] == other[i]);
    }
    assert(name =~= other);
}

/// A write that stops before its last step leaves every file but the
/// staging file as it was: the artifact that a reader finds is the one from
/// before the write, whole, or none where there was none.
pub proof fn interrupted_write_keeps_artifact(
    disk: Disk,
    home: Seq<char>,
    name: Seq<char>,
    bytes: Seq<u8>,
    done: int,
    torn: int,
)
    requires
        0 <= done < write_steps(home, name, bytes).len(),
        0 <= torn <= bytes.len(),
    ensures
        same_but_at(
            disk,
            interrupted(disk, write_steps(home, name, bytes), done, torn),
            staging_path(home, name),
        ),
        read(
            interrupted(disk, write_steps(home, name, bytes), done, torn),
            artifact_path(home, name),
        ) == read(disk, artifact_path(home, name)),
{
    let ops = write_steps(home, name, bytes);
    let staging = staging_path(home, name);
    staging_is_no_artifact(home, name, name);
    reveal_with_fuel(perform_all, 4);
    let d0 = perform_all(disk, ops.take(0));
    let d1 = perform_all(disk, ops.take(1));
    let d2 = perform_all(disk, ops.take(2));
    let d3 = perform_all(disk, ops.take(3));
    assert(ops.take(1).drop_last() =~= ops.take(0));
    assert(ops.take(2).drop_last() =~= ops.take(1));
    assert(ops.take(3).drop_last() =~= ops.take(2));
    assert(d0 == disk);
    assert(d1 == perform(d0, ops[0]));
    assert(d2 == perform(d1, ops[1]));
    assert(d3 == perform(d2, ops[2]));
    assert(same_but_at(disk, d0, staging));
    assert(same_but_at(disk, d1, staging));
    assert(same_but_at(disk, d2, staging));
    assert(same_but_at(disk, d3, staging));
}

/// A write whose steps have all been carried out has replaced the artifact:
/// a reader finds exactly the bytes that were written. The staging file is
/// gone, and every other file is as it was.
pub proof fn completed_write_reads_back(
    disk: Disk,
    home: Seq<char>,
    name: Seq<char>,
    bytes: Seq<u8>,
)
    ensures
        read(
            perform_all(disk, write_steps(home, name, bytes)),
            artifact_path(home, name),
        ) == Some(bytes),
        read(perform_all(disk, write_steps(home, name, bytes)), staging_path(home, name))
            is None,
        forall|other: Seq<char>|
            other != artifact_path(home, name) && other != staging_path(home, name) ==> read(
                perform_all(disk, write_steps(home, name, bytes)),
                other,
            ) == read(disk, other),
{
    let ops = write_steps(home, name, bytes);
    staging_is_no_artifact(home, name, name);
    reveal_with_fuel(perform_all, 5);
    let d0 = perform_all(disk, ops.take(0));
    let d1 = perform_all(disk, ops.take(1));
    let d2 = perform_all(disk, ops.take(2));
    let d3 = perform_all(disk, ops.take(3));
    let d4 = perform_all(disk, ops);
    assert(ops.take(1).drop_last() =~= ops.take(0));
    assert(ops.take(2).drop_last() =~= ops.take(1));
    assert(ops.take(3).drop_last() =~= ops.take(2));
    assert(ops.drop_last() =~= ops.take(3));
    assert(d0 == disk);
    assert(d1 == perform(d0, ops[0]));
    assert(d2 == perform(d1, ops[1]));
    assert(d3 == perform(d2, ops[2]));
    assert(d4 == perform(d3, ops[3]));
    assert(d2[staging_path(home, name)] =~= bytes);
}

} // verus!
