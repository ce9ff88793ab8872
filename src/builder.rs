use vstd::prelude::*;
use vstd::string::StringExecFns;
use crate::codegen::generate_runner;
use crate::codegen::generate_target;
use crate::codegen::runner_src;
use crate::codegen::target_src;
use crate::suite::TestConfig;

verus! {

/// What `std::path::Path::extension` gives for a path: the part of the file
/// name after its last dot, if any.
pub uninterp spec fn extension_of(path: Seq<char>) -> Option<Seq<char>>;

/// What `std::path::Path::file_stem` gives for a path: the file name without
/// its extension, if the path has a file name.
pub uninterp spec fn file_stem_of(path: Seq<char>) -> Option<Seq<char>>;

/// Relies on `std::path::Path::extension`; a `&str` path is valid UTF-8, so
/// the lossy conversion keeps the text as it is.
#[verifier::external_body]
fn path_extension(path: &str) -> (r: Option<String>)
    ensures
        match r {
            Some(e) => extension_of(path@) == Some(e@),
            None => extension_of(path@) is None,
        },
{
    match std::path::Path::new(path).extension() {
        Some(e) => Some(e.to_string_lossy().into_owned()),
        None => None,
    }
}

/// Relies on `std::path::Path::file_stem`; a `&str` path is valid UTF-8, so
/// the lossy conversion keeps the text as it is.
#[verifier::external_body]
fn path_file_stem(path: &str) -> (r: Option<String>)
    ensures
        match r {
            Some(e) => file_stem_of(path@) == Some(e@),
            None => file_stem_of(path@) is None,
        },
{
    match std::path::Path::new(path).file_stem() {
        Some(e) => Some(e.to_string_lossy().into_owned()),
        None => None,
    }
}

/// A path is relative when it does not begin at the root, `/` on Unix.
pub open spec fn spec_is_relative(path: Seq<char>) -> bool {
    !(path.len() > 0 && path[0] == '/')
}

/// Relies on `std::path::Path::is_relative`, which on Unix holds exactly of
/// the paths that do not begin with `/`.
#[verifier::external_body]
fn path_is_relative(path: &str) -> (r: bool)
    ensures
        r == spec_is_relative(path@),
{
    std::path::Path::new(path).is_relative()
}

/// Why a build step was refused.
#[derive(Clone, Debug)]
pub enum BuildError {
    /// An output path was given that is not relative.
    NotRelative(String),
}

/// A directory entry is a suite spec when it is a file named `*.toml`.
pub open spec fn is_spec_entry(path: Seq<char>, is_file: bool) -> bool {
    is_file && extension_of(path) == Some("toml"@)
}

/// The paths of the entries that are suite specs, in order.
pub open spec fn spec_entries(entries: Seq<(String, bool)>) -> Seq<String>
    decreases entries.len(),
{
    if entries.len() == 0 {
        seq![]
    } else {
        let rest = spec_entries(entries.drop_last());
        if is_spec_entry(entries.last().0@, entries.last().1) {
            rest.push(entries.last().0)
        } else {
            rest
        }
    }
}

/// A directory listing with no file named `*.toml` registers nothing.
pub proof fn lemma_no_spec_entries(entries: Seq<(String, bool)>)
    requires
        forall|i: int| 0 <= i < entries.len() ==> !is_spec_entry((#[trigger] entries[i]).0@, entries[i].1),
    ensures
        spec_entries(entries) == Seq::<String>::empty(),
    decreases entries.len(),
{
    if entries.len() > 0 {
        assert(entries.last() == entries[entries.len() - 1]);
        assert forall|i: int| 0 <= i < entries.drop_last().len() implies !is_spec_entry(
            (#[trigger] entries.drop_last()[i]).0@,
            entries.drop_last()[i].1,
        ) by {
            assert(entries.drop_last()[i] == entries[i]);
        }
        lemma_no_spec_entries(entries.drop_last());
    }
}

/// The runner modules of every suite, one after the other.
pub open spec fn runners_src(suites: Seq<(String, TestConfig)>) -> Seq<char>
    decreases suites.len(),
{
    if suites.len() == 0 {
        seq![]
    } else {
        runners_src(suites.drop_last()) + runner_src(suites.last().0@, suites.last().1)
    }
}

/// Whether a directory entry is a suite spec: a file whose name ends in `.toml`.
pub fn is_spec_file(path: &str, is_file: bool) -> (r: bool)
    ensures
        r == is_spec_entry(path@, is_file),
{
    if !is_file {
        return false;
    }
    match path_extension(path) {
        Some(e) => e == String::from_str("toml"),
        None => false,
    }
}

/// Name of the suite that a spec file holds: the file's stem, `None` where
/// the path names no file.
pub fn suite_name(path: &str) -> (r: Option<String>)
    ensures
        match r {
            Some(n) => file_stem_of(path@) == Some(n@),
            None => file_stem_of(path@) is None,
        },
{
    path_file_stem(path)
}

/// The runner modules of every suite, one after the other.
pub fn generate_runners(suites: &[(String, TestConfig)]) -> (r: String)
    ensures
        r@ == runners_src(suites@),
{
    let mut out = String::new();
    let mut i: usize = 0;
    while i < suites.len()
        invariant
            i <= suites.len(),
            out@ == runners_src(suites@.take(i as int)),
        decreases suites.len() - i,
    {
        let src = generate_runner(suites[i].0.as_str(), &suites[i].1);
        out.append(src.as_str());
        assert(suites@.take(i + 1).drop_last() =~= suites@.take(i as int));
        assert(suites@.take(i + 1).last() == suites@[i as int]);
        i += 1;
    }
    assert(suites@.take(suites.len() as int) =~= suites@);
    out
}

/// The generated files of a build: each a path relative to the output
/// directory and the text to write there.
#[derive(Clone, Debug)]
pub struct BuildOutputs {
    pub target: Option<(String, String)>,
    pub runner: Option<(String, String)>,
}

/// Collects the suite specs of a build and the places its generated sources go.
#[derive(Clone, Debug)]
pub struct Builder {
    /// Directory under which the generated files are written.
    pub out_dir: String,
    /// Where the target program goes, relative to `out_dir`.
    pub target_filename: Option<String>,
    /// Where the runner tests go, relative to `out_dir`.
    pub runner_filename: Option<String>,
    /// The suite spec files, in the order they were registered.
    pub test_paths: Vec<String>,
}

impl Builder {
    /// A builder writing under `out_dir`, with no specs and no outputs.
    pub fn new(out_dir: String) -> (b: Builder)
        ensures
            b.out_dir == out_dir,
            b.target_filename is None,
            b.runner_filename is None,
            b.test_paths@.len() == 0,
    {
        Builder { out_dir, target_filename: None, runner_filename: None, test_paths: Vec::new() }
    }

    /// Adds one suite spec file.
    pub fn register_test(&mut self, path: String)
        ensures
            final(self).test_paths@ == old(self).test_paths@.push(path),
            final(self).out_dir == old(self).out_dir,
            final(self).target_filename == old(self).target_filename,
            final(self).runner_filename == old(self).runner_filename,
    {
        self.test_paths.push(path);
    }

    /// Adds every entry of a directory listing that is a file named `*.toml`,
    /// in listing order, each entry given as its path and whether it is a
    /// file. Returns whether any was added: where none was, the caller warns.
    pub fn register_test_dir(&mut self, entries: &Vec<(String, bool)>) -> (added: bool)
        ensures
            final(self).test_paths@ == old(self).test_paths@ + spec_entries(entries@),
            added == (spec_entries(entries@).len() > 0),
            final(self).out_dir == old(self).out_dir,
            final(self).target_filename == old(self).target_filename,
            final(self).runner_filename == old(self).runner_filename,
    {
        let ghost start = self.test_paths@;
        let mut added = false;
        let mut i: usize = 0;
        while i < entries.len()
            invariant
                i <= entries.len(),
                self.test_paths@ == start + spec_entries(entries@.take(i as int)),
                added == (spec_entries(entries@.take(i as int)).len() > 0),
                self.out_dir == old(self).out_dir,
                self.target_filename == old(self).target_filename,
                self.runner_filename == old(self).runner_filename,
            decreases entries.len() - i,
        {
            assert(entries@.take(i + 1).drop_last() =~= entries@.take(i as int));
            assert(entries@.take(i + 1).last() == entries@[i as int]);
            if is_spec_file(entries[i].0.as_str(), entries[i].1) {
                self.test_paths.push(entries[i].0.clone());
                added = true;
            }
            assert(self.test_paths@ =~= start + spec_entries(entries@.take(i + 1)));
            i += 1;
        }
        assert(entries@.take(entries.len() as int) =~= entries@);
        added
    }

    /// Sets where the target program goes; refused unless the path is relative.
    pub fn enable_target(&mut self, path: String) -> (r: Result<(), BuildError>)
        ensures
            r is Ok <==> spec_is_relative(path@),
            r is Ok ==> final(self).target_filename == Some(path),
            r is Err ==> final(self).target_filename == old(self).target_filename,
            final(self).out_dir == old(self).out_dir,
            final(self).runner_filename == old(self).runner_filename,
            final(self).test_paths == old(self).test_paths,
    {
        if !path_is_relative(path.as_str()) {
            return Err(BuildError::NotRelative(path));
        }
        self.target_filename = Some(path);
        Ok(())
    }

    /// Sets where the runner tests go; refused unless the path is relative.
    pub fn enable_runner(&mut self, path: String) -> (r: Result<(), BuildError>)
        ensures
            r is Ok <==> spec_is_relative(path@),
            r is Ok ==> final(self).runner_filename == Some(path),
            r is Err ==> final(self).runner_filename == old(self).runner_filename,
            final(self).out_dir == old(self).out_dir,
            final(self).target_filename == old(self).target_filename,
            final(self).test_paths == old(self).test_paths,
    {
        if !path_is_relative(path.as_str()) {
            return Err(BuildError::NotRelative(path));
        }
        self.runner_filename = Some(path);
        Ok(())
    }

    /// The files a build writes for the given named suites: the target program
    /// where a target path is set, and the runner modules of all suites where
    /// a runner path is set.
    pub fn build(&self, suites: &[(String, TestConfig)]) -> (r: BuildOutputs)
        ensures
            match self.target_filename {
                Some(p) => r.target matches Some(t) && t.0 == p && t.1@ == target_src(suites@),
                None => r.target is None,
            },
            match self.runner_filename {
                Some(p) => r.runner matches Some(t) && t.0 == p && t.1@ == runners_src(suites@),
                None => r.runner is None,
            },
    {
        let target = match &self.target_filename {
            Some(p) => Some((p.clone(), generate_target(suites))),
            None => None,
        };
        let runner = match &self.runner_filename {
            Some(p) => Some((p.clone(), generate_runners(suites))),
            None => None,
        };
        BuildOutputs { target, runner }
    }
}

} // verus!
