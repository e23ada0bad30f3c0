use vstd::prelude::*;

verus! {

/// Name of the callable that a guest script must export.
pub const ENTRY_POINT: &'static str = "generate";

/// Index in `s` where the path segment that ends at `end` begins: just after
/// the last '/' before `end`, or 0.
pub open spec fn segment_start(s: Seq<char>, end: int) -> int
    decreases end,
{
    if end <= 0 {
        0
    } else if s[end - 1] == '/' {
        end
    } else {
        segment_start(s, end - 1)
    }
}

/// The file name of a path: what follows its last '/'.
pub open spec fn file_name(path: Seq<char>) -> Seq<char> {
    path.subrange(segment_start(path, path.len() as int), path.len() as int)
}

pub open spec fn has_py_extension(f: Seq<char>) -> bool {
    f.len() >= 3 && f[f.len() - 3] == '.' && f[f.len() - 2] == 'p' && f[f.len() - 1] == 'y'
}

/// The name under which a guest script is registered as a module: its file
/// name without the directory and without a trailing ".py".
pub open spec fn module_name(path: Seq<char>) -> Seq<char> {
    let f = file_name(path);
    if has_py_extension(f) {
        f.subrange(0, f.len() - 3)
    } else {
        f
    }
}

proof fn lemma_segment_start_bounds(s: Seq<char>, end: int)
    requires
        0 <= end <= s.len(),
    ensures
        0 <= segment_start(s, end) <= end,
    decreases end,
{
    if end > 0 && s[end - 1] != '/' {
        lemma_segment_start_bounds(s, end - 1);
    }
}

/// The module name for the guest script at `path`.
pub fn module_name_for_path(path: &str) -> (r: String)
    ensures
        r@ == module_name(path@),
{
    let n = path.unicode_len();
    let mut start: usize = n;
    while start > 0 && path.get_char(start - 1) != '/'
        invariant
            start <= n,
            n == path@.len(),
            segment_start(path@, n as int) == segment_start(path@, start as int),
        decreases start,
    {
        start = start - 1;
    }
    proof {
        lemma_segment_start_bounds(path@, n as int);
    }
    let file = path.substring_char(start, n);
    assert(file@ == file_name(path@));
    let len = n - start;
    let end = if len >= 3 && file.get_char(len - 3) == '.' && file.get_char(len - 2) == 'p'
        && file.get_char(len - 1) == 'y' {
        len - 3
    } else {
        len
    };
    let name = file.substring_char(0, end);
    assert(name@ =~= module_name(path@));
    String::from_str(name)
}

/// Why a bridge could not be constructed.
#[derive(Debug)]
pub enum ConstructionError {
    /// The guest script could not be read or executed.
    ScriptLoad(String),
    /// The loaded module exports no callable entry point.
    EntryPointMissing(String),
    /// The guest event loop, or the thread that hosts it, could not be started.
    EventLoop(String),
}

pub open spec fn construction_message(e: ConstructionError) -> Seq<char> {
    match e {
        ConstructionError::ScriptLoad(d) => "failed to load the guest script: "@ + d@,
        ConstructionError::EntryPointMissing(d) => "the guest module exports no callable `generate`: "@
            + d@,
        ConstructionError::EventLoop(d) => "failed to start the guest event loop: "@ + d@,
    }
}

impl ConstructionError {
    pub fn to_message(&self) -> (r: String)
        ensures
            r@ == construction_message(*self),
    {
        match self {
            ConstructionError::ScriptLoad(d) => String::from_str(
                "failed to load the guest script: ",
            ).concat(d.as_str()),
            ConstructionError::EntryPointMissing(d) => String::from_str(
                "the guest module exports no callable `generate`: ",
            ).concat(d.as_str()),
            ConstructionError::EventLoop(d) => String::from_str(
                "failed to start the guest event loop: ",
            ).concat(d.as_str()),
        }
    }
}

} // verus!
