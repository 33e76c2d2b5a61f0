//! Where the backend may live: the ordered candidate directories for a
//! deployment, and the choice among them.
use vstd::prelude::*;

verus! {

/// The path that `PathBuf::join` gives for `base` and `rel`, as text.
pub uninterp spec fn joined(base: Seq<char>, rel: Seq<char>) -> Seq<char>;

/// Relies on std's `Path::join`: the result is a function of the two paths.
#[verifier::external_body]
fn join_path(base: &str, rel: &str) -> (r: String)
    ensures
        r@ == joined(base@, rel@),
{
    std::path::Path::new(base).join(rel).to_string_lossy().into_owned()
}

/// What the host knows about where it runs. Each entry is absent when the
/// host could not determine it.
pub struct DeploymentContext {
    /// The packaging tool's resource directory.
    pub resource_dir: Option<String>,
    /// The directory of the running executable.
    pub exe_dir: Option<String>,
    /// The launcher's own source directory (a development tree).
    pub source_dir: Option<String>,
    /// The current working directory.
    pub cwd: Option<String>,
}

/// `rels`, each joined onto `base`, or nothing when `base` is unknown.
pub open spec fn joined_all(base: Option<String>, rels: Seq<Seq<char>>) -> Seq<Seq<char>> {
    match base {
        Some(b) => rels.map_values(|r: Seq<char>| joined(b@, r)),
        None => Seq::empty(),
    }
}

/// Candidates inside a packaged bundle: the resource directory, with the
/// packager's `_up_` remap of parent-relative paths, then the bundle layouts
/// next to the executable.
pub open spec fn bundled_candidates(ctx: DeploymentContext) -> Seq<Seq<char>> {
    joined_all(ctx.resource_dir, seq!["backend"@, "_up_/_up_/backend"@]) + joined_all(
        ctx.exe_dir,
        seq!["../Resources/backend"@, "../Resources/_up_/_up_/backend"@, "../resources/backend"@],
    )
}

/// Candidates in a development tree: two levels above the launcher's
/// source, then one level, then two levels above the working directory.
pub open spec fn dev_candidates(ctx: DeploymentContext) -> Seq<Seq<char>> {
    joined_all(ctx.source_dir, seq!["../../backend"@, "../backend"@]) + seq!["../../backend"@]
}

/// Last-resort candidates beside the working directory.
pub open spec fn cwd_candidates(ctx: DeploymentContext) -> Seq<Seq<char>> {
    joined_all(ctx.cwd, seq!["backend"@, "../backend"@])
}

/// All candidates in priority order.
pub open spec fn candidates_of(ctx: DeploymentContext) -> Seq<Seq<char>> {
    bundled_candidates(ctx) + dev_candidates(ctx) + cwd_candidates(ctx)
}

/// Appends `base` joined with `rel` when `base` is known.
fn push_joined(out: &mut Vec<String>, base: &Option<String>, rel: &str)
    ensures
        final(out)@.len() == old(out)@.len() + if base.is_some() { 1int } else { 0 },
        forall|i: int| 0 <= i < old(out)@.len() ==> final(out)@[i] == old(out)@[i],
        base.is_some() ==> final(out)@[old(out)@.len() as int]@ == joined(base->0@, rel@),
{
    if let Some(b) = base {
        out.push(join_path(b.as_str(), rel));
    }
}

/// The candidate directories for the backend, bundled locations first, then
/// development fallbacks, then those beside the working directory.
pub fn backend_candidates(ctx: &DeploymentContext) -> (r: Vec<String>)
    ensures
        r@.map_values(|s: String| s@) == candidates_of(*ctx),
{
    let mut out: Vec<String> = Vec::new();
    push_joined(&mut out, &ctx.resource_dir, "backend");
    push_joined(&mut out, &ctx.resource_dir, "_up_/_up_/backend");
    push_joined(&mut out, &ctx.exe_dir, "../Resources/backend");
    push_joined(&mut out, &ctx.exe_dir, "../Resources/_up_/_up_/backend");
    push_joined(&mut out, &ctx.exe_dir, "../resources/backend");
    push_joined(&mut out, &ctx.source_dir, "../../backend");
    push_joined(&mut out, &ctx.source_dir, "../backend");
    out.push(String::from_str("../../backend"));
    push_joined(&mut out, &ctx.cwd, "backend");
    push_joined(&mut out, &ctx.cwd, "../backend");
    proof {
        assert(out@.map_values(|s: String| s@) =~= candidates_of(*ctx));
    }
    out
}

/// The path of the backend's entry point inside `dir`.
pub open spec fn entry_point_of(dir: Seq<char>) -> Seq<char> {
    joined(dir, "main.py"@)
}

/// The backend's entry point inside `dir`.
pub fn entry_point_path(dir: &str) -> (r: String)
    ensures
        r@ == entry_point_of(dir@),
{
    join_path(dir, "main.py")
}

/// A candidate qualifies when its directory exists and holds the entry point.
pub open spec fn qualifies(dir_exists: Seq<bool>, entry_exists: Seq<bool>, i: int) -> bool {
    dir_exists[i] && entry_exists[i]
}

/// `k` is the first qualifying candidate.
pub open spec fn is_first_qualifying(dir_exists: Seq<bool>, entry_exists: Seq<bool>, k: int) -> bool {
    &&& 0 <= k < dir_exists.len()
    &&& qualifies(dir_exists, entry_exists, k)
    &&& forall|i: int| 0 <= i < k ==> !qualifies(dir_exists, entry_exists, i)
}

/// Bundled candidates come before every development fallback, and those
/// before every working-directory fallback.
pub proof fn candidate_priority(ctx: DeploymentContext)
    ensures
        candidates_of(ctx).subrange(0, bundled_candidates(ctx).len() as int) == bundled_candidates(ctx),
        candidates_of(ctx).subrange(
            bundled_candidates(ctx).len() as int,
            (bundled_candidates(ctx).len() + dev_candidates(ctx).len()) as int,
        ) == dev_candidates(ctx),
        candidates_of(ctx).subrange(
            (bundled_candidates(ctx).len() + dev_candidates(ctx).len()) as int,
            candidates_of(ctx).len() as int,
        ) == cwd_candidates(ctx),
{
    let b = bundled_candidates(ctx);
    let d = dev_candidates(ctx);
    let c = cwd_candidates(ctx);
    assert(candidates_of(ctx).subrange(0, b.len() as int) =~= b);
    assert(candidates_of(ctx).subrange(b.len() as int, (b.len() + d.len()) as int) =~= d);
    assert(candidates_of(ctx).subrange((b.len() + d.len()) as int, candidates_of(ctx).len() as int)
        =~= c);
}

/// Given the same filesystem answers, the selected candidate is always the
/// same one: at most one index is the first qualifying candidate.
pub proof fn first_qualifying_is_unique(
    dir_exists: Seq<bool>,
    entry_exists: Seq<bool>,
    k1: int,
    k2: int,
)
    requires
        is_first_qualifying(dir_exists, entry_exists, k1),
        is_first_qualifying(dir_exists, entry_exists, k2),
    ensures
        k1 == k2,
{
}

/// The first qualifying candidate, given for each candidate whether its
/// directory exists and whether its entry point exists. `None` when no
/// candidate qualifies.
pub fn first_qualifying(dir_exists: &Vec<bool>, entry_exists: &Vec<bool>) -> (r: Option<usize>)
    requires
        dir_exists@.len() == entry_exists@.len(),
    ensures
        r is None <==> forall|i: int|
            0 <= i < dir_exists@.len() ==> !qualifies(dir_exists@, entry_exists@, i),
        r matches Some(k) ==> is_first_qualifying(dir_exists@, entry_exists@, k as int),
{
    let mut i: usize = 0;
    while i < dir_exists.len()
        invariant
            dir_exists@.len() == entry_exists@.len(),
            i <= dir_exists@.len(),
            forall|j: int| 0 <= j < i ==> !qualifies(dir_exists@, entry_exists@, j),
        decreases dir_exists@.len() - i,
    {
        if dir_exists[i] && entry_exists[i] {
            assert(qualifies(dir_exists@, entry_exists@, i as int));
            return Some(i);
        }
        i = i + 1;
    }
    None
}

} // verus!
