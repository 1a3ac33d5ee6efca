use ignore::overrides::{Override, OverrideBuilder};
use ignore::{WalkBuilder, WalkParallel};
use vstd::prelude::*;

verus! {

#[verifier::external_type_specification]
#[verifier::external_body]
pub struct ExWalkBuilder(WalkBuilder);

#[verifier::external_type_specification]
#[verifier::external_body]
pub struct ExWalkParallel(WalkParallel);

#[verifier::external_type_specification]
#[verifier::external_body]
pub struct ExOverrideBuilder(OverrideBuilder);

#[verifier::external_type_specification]
#[verifier::external_body]
pub struct ExOverride(Override);

#[verifier::external_type_specification]
#[verifier::external_body]
pub struct ExIgnoreError(ignore::Error);

/// Whether the traversal engine refuses `glob` as an inclusion pattern.
pub uninterp spec fn glob_rejected(glob: Seq<char>) -> bool;

/// Whether the traversal engine fails to compile the accepted inclusion
/// patterns `globs`, taken together, into one matcher.
pub uninterp spec fn globs_unbuildable(globs: Seq<Seq<char>>) -> bool;

/// How a traversal is set up.
pub struct WalkSettings {
    /// The roots, in the order they were given.
    pub roots: Seq<Seq<char>>,
    /// The inclusion patterns, where the traversal is restricted by some.
    pub globs: Option<Seq<Seq<char>>>,
    /// Whether `.ignore` files are read.
    pub ignore: bool,
    /// Whether `.gitignore` files are read.
    pub git_ignore: bool,
    /// Whether git's global ignore file is read.
    pub git_global: bool,
    /// Whether ignore files of parent directories are read.
    pub parents: bool,
    /// Whether hidden entries are skipped.
    pub skip_hidden: bool,
}

/// A traversal being set up: the engine's builder and what it was given.
struct WalkSetup {
    builder: WalkBuilder,
    settings: Ghost<WalkSettings>,
}

/// Inclusion patterns being collected: the engine's builder and the patterns
/// it accepted.
struct GlobsSetup {
    builder: OverrideBuilder,
    globs: Ghost<Seq<Seq<char>>>,
}

/// A compiled matcher of inclusion patterns.
struct Globs {
    matcher: Override,
    globs: Ghost<Seq<Seq<char>>>,
}

/// A traversal ready to run, with the settings it was built with.
pub struct Walker {
    walker: WalkParallel,
    settings: Ghost<WalkSettings>,
}

impl Walker {
    pub closed spec fn view(&self) -> WalkSettings {
        self.settings@
    }

    /// The engine's parallel walker, to be run.
    pub fn into_parallel(self) -> WalkParallel {
        self.walker
    }
}

/// What the user asked of a run.
pub struct Config {
    /// The inclusion patterns; a file is inspected only if one matches it.
    pub globs: Vec<String>,
    /// The roots of the traversal.
    pub paths: Vec<String>,
    /// Report what would change without writing to any file.
    pub dry_run: bool,
    /// Also visit files that ignore files would exclude.
    pub no_ignore: bool,
    /// Also visit hidden entries.
    pub hidden: bool,
    /// List every inspected file, not only the changed or failed ones.
    pub list: bool,
}

/// Why a run could not start.
#[derive(Debug)]
pub enum ConfigError {
    /// An inclusion pattern was refused; the engine's message.
    Glob(String),
}

/// Relies on ignore::WalkBuilder::new: a builder whose only root is `root`,
/// which reads every kind of ignore file, skips hidden entries and has no
/// inclusion patterns.
#[verifier::external_body]
fn walk_builder_new(root: &str) -> (r: WalkSetup)
    ensures
        r.settings@ == (WalkSettings {
            roots: seq![root@],
            globs: None,
            ignore: true,
            git_ignore: true,
            git_global: true,
            parents: true,
            skip_hidden: true,
        }),
{
    WalkSetup { builder: WalkBuilder::new(root), settings: Ghost(arbitrary()) }
}

/// Relies on ignore::WalkBuilder::add: appends `root` to the roots.
#[verifier::external_body]
fn walk_builder_add(setup: &mut WalkSetup, root: &str)
    ensures
        final(setup).settings@ == (WalkSettings {
            roots: old(setup).settings@.roots.push(root@),
            ..old(setup).settings@
        }),
{
    setup.builder.add(root);
}

/// Relies on ignore::WalkBuilder::overrides: the traversal yields only what
/// the patterns of `globs` include.
#[verifier::external_body]
fn walk_builder_overrides(setup: &mut WalkSetup, globs: Globs)
    ensures
        final(setup).settings@ == (WalkSettings {
            globs: Some(globs.globs@),
            ..old(setup).settings@
        }),
{
    setup.builder.overrides(globs.matcher);
}

/// Relies on ignore::WalkBuilder::ignore: whether `.ignore` files are read.
#[verifier::external_body]
fn walk_builder_ignore(setup: &mut WalkSetup, yes: bool)
    ensures
        final(setup).settings@ == (WalkSettings { ignore: yes, ..old(setup).settings@ }),
{
    setup.builder.ignore(yes);
}

/// Relies on ignore::WalkBuilder::git_ignore: whether `.gitignore` files are
/// read.
#[verifier::external_body]
fn walk_builder_git_ignore(setup: &mut WalkSetup, yes: bool)
    ensures
        final(setup).settings@ == (WalkSettings { git_ignore: yes, ..old(setup).settings@ }),
{
    setup.builder.git_ignore(yes);
}

/// Relies on ignore::WalkBuilder::git_global: whether git's global ignore
/// file is read.
#[verifier::external_body]
fn walk_builder_git_global(setup: &mut WalkSetup, yes: bool)
    ensures
        final(setup).settings@ == (WalkSettings { git_global: yes, ..old(setup).settings@ }),
{
    setup.builder.git_global(yes);
}

/// Relies on ignore::WalkBuilder::parents: whether ignore files of parent
/// directories are read.
#[verifier::external_body]
fn walk_builder_parents(setup: &mut WalkSetup, yes: bool)
    ensures
        final(setup).settings@ == (WalkSettings { parents: yes, ..old(setup).settings@ }),
{
    setup.builder.parents(yes);
}

/// Relies on ignore::WalkBuilder::hidden: whether hidden entries are
/// skipped.
#[verifier::external_body]
fn walk_builder_hidden(setup: &mut WalkSetup, yes: bool)
    ensures
        final(setup).settings@ == (WalkSettings { skip_hidden: yes, ..old(setup).settings@ }),
{
    setup.builder.hidden(yes);
}

/// Relies on ignore::WalkBuilder::build_parallel: the parallel walker that
/// the builder describes.
#[verifier::external_body]
fn walk_builder_build_parallel(setup: &WalkSetup) -> (r: Walker)
    ensures
        r@ == setup.settings@,
{
    Walker { walker: setup.builder.build_parallel(), settings: Ghost(arbitrary()) }
}

/// Relies on ignore::overrides::OverrideBuilder::new: no pattern yet; the
/// patterns are matched relative to `dir`.
#[verifier::external_body]
fn override_builder_new(dir: &str) -> (r: GlobsSetup)
    ensures
        r.globs@ == Seq::<Seq<char>>::empty(),
{
    GlobsSetup { builder: OverrideBuilder::new(dir), globs: Ghost(arbitrary()) }
}

/// Relies on ignore::overrides::OverrideBuilder::add: the glob is parsed on
/// its own, with the builder's fixed settings, refused when it does not
/// parse, and kept otherwise.
#[verifier::external_body]
fn override_builder_add(setup: &mut GlobsSetup, glob: &str) -> (r: Result<(), ignore::Error>)
    ensures
        r is Err == glob_rejected(glob@),
        r is Ok ==> final(setup).globs@ == old(setup).globs@.push(glob@),
{
    setup.builder.add(glob).map(|_| ())
}

/// Relies on ignore::overrides::OverrideBuilder::build: the matcher of the
/// patterns added so far, or the engine's error when they cannot be
/// compiled together.
#[verifier::external_body]
fn override_builder_build(setup: &GlobsSetup) -> (r: Result<Globs, ignore::Error>)
    ensures
        r is Err == globs_unbuildable(setup.globs@),
        r is Ok ==> r->Ok_0.globs@ == setup.globs@,
{
    setup.builder.build().map(|matcher| Globs { matcher, globs: Ghost(arbitrary()) })
}

/// Relies on the `Display` impl of ignore::Error: the error's message.
#[verifier::external_body]
fn ignore_error_text(err: &ignore::Error) -> String {
    err.to_string()
}

/// The text of each string of `v`.
pub open spec fn texts(v: Seq<String>) -> Seq<Seq<char>> {
    v.map_values(|g: String| g@)
}

/// Whether the inclusion patterns `globs` are all accepted and, if there is
/// any, can be compiled together.
pub open spec fn globs_usable(globs: Seq<Seq<char>>) -> bool {
    &&& forall|i: int| 0 <= i < globs.len() ==> !glob_rejected(#[trigger] globs[i])
    &&& (globs.len() == 0 || !globs_unbuildable(globs))
}

/// The settings of the traversal that `config` asks for.
pub open spec fn spec_settings(config: &Config) -> WalkSettings {
    WalkSettings {
        roots: texts(config.paths@),
        globs: if config.globs@.len() == 0 {
            None
        } else {
            Some(texts(config.globs@))
        },
        ignore: !config.no_ignore,
        git_ignore: !config.no_ignore,
        git_global: !config.no_ignore,
        parents: !config.no_ignore,
        skip_hidden: !config.hidden,
    }
}

/// Builds the parallel traversal of a run. It succeeds exactly when every
/// glob of `config` is accepted and, if there is any, they compile together;
/// the walker then starts at the paths of `config` in their order, yields
/// only what the globs include (matched relative to `dir`), reads ignore
/// files unless `no_ignore` is set, and skips hidden entries unless `hidden`
/// is set.
pub fn build_walker(config: &Config, dir: &str) -> (r: Result<Walker, ConfigError>)
    requires
        config.paths@.len() > 0,
    ensures
        r is Ok <==> globs_usable(texts(config.globs@)),
        r is Ok ==> r->Ok_0@ == spec_settings(config),
{
    let mut setup = walk_builder_new(config.paths[0].as_str());
    let mut k: usize = 1;
    assert(texts(config.paths@.subrange(0, 1)) =~= seq![config.paths@[0]@]);
    while k < config.paths.len()
        invariant
            1 <= k <= config.paths@.len(),
            setup.settings@ == (WalkSettings {
                roots: texts(config.paths@.subrange(0, k as int)),
                globs: None,
                ignore: true,
                git_ignore: true,
                git_global: true,
                parents: true,
                skip_hidden: true,
            }),
        decreases config.paths@.len() - k,
    {
        proof {
            assert(texts(config.paths@.subrange(0, k + 1)) =~= texts(
                config.paths@.subrange(0, k as int),
            ).push(config.paths@[k as int]@));
        }
        walk_builder_add(&mut setup, config.paths[k].as_str());
        k = k + 1;
    }
    assert(config.paths@.subrange(0, k as int) =~= config.paths@);
    let ghost wanted = texts(config.globs@);
    if config.globs.len() > 0 {
        let mut overrides = override_builder_new(dir);
        let mut i: usize = 0;
        assert(texts(config.globs@.subrange(0, 0)) =~= Seq::<Seq<char>>::empty());
        while i < config.globs.len()
            invariant
                0 <= i <= config.globs@.len(),
                wanted == texts(config.globs@),
                overrides.globs@ == texts(config.globs@.subrange(0, i as int)),
                forall|j: int| 0 <= j < i ==> !glob_rejected(#[trigger] wanted[j]),
            decreases config.globs@.len() - i,
        {
            proof {
                assert(texts(config.globs@.subrange(0, i + 1)) =~= texts(
                    config.globs@.subrange(0, i as int),
                ).push(config.globs@[i as int]@));
            }
            match override_builder_add(&mut overrides, config.globs[i].as_str()) {
                Ok(()) => {},
                Err(e) => {
                    assert(!globs_usable(wanted)) by {
                        assert(wanted[i as int] == config.globs@[i as int]@);
                    }
                    return Err(ConfigError::Glob(ignore_error_text(&e)));
                },
            }
            i = i + 1;
        }
        assert(config.globs@.subrange(0, i as int) =~= config.globs@);
        match override_builder_build(&overrides) {
            Ok(o) => walk_builder_overrides(&mut setup, o),
            Err(e) => {
                return Err(ConfigError::Glob(ignore_error_text(&e)));
            },
        }
    }
    if config.no_ignore {
        walk_builder_ignore(&mut setup, false);
        walk_builder_git_ignore(&mut setup, false);
        walk_builder_git_global(&mut setup, false);
        walk_builder_parents(&mut setup, false);
    }
    if config.hidden {
        walk_builder_hidden(&mut setup, false);
    }
    Ok(walk_builder_build_parallel(&setup))
}

} // verus!
