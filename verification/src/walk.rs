//! Directory walking: configures the external ignore-aware walker from the
//! option set. The validation logic is verified; each call into the walker
//! crate stands behind a small trusted wrapper.

use vstd::prelude::*;

use crate::opts::SearchOptions;
use crate::types::SearchError;

verus! {

/// The external walker configuration, carried opaquely.
#[verifier::external_type_specification]
#[verifier::external_body]
pub struct ExWalkBuilder(ignore::WalkBuilder);

/// The external parallel walk handle, carried opaquely.
#[verifier::external_type_specification]
#[verifier::external_body]
pub struct ExWalkParallel(ignore::WalkParallel);

/// The external sequential walk iterator, carried opaquely.
#[verifier::external_type_specification]
#[verifier::external_body]
pub struct ExWalk(ignore::Walk);

/// One enumerated directory entry, carried opaquely.
#[verifier::external_type_specification]
#[verifier::external_body]
pub struct ExDirEntry(ignore::DirEntry);

/// An enumeration error of the walker crate, carried opaquely.
#[verifier::external_type_specification]
#[verifier::external_body]
pub struct ExIgnoreError(ignore::Error);

/// The walker's three-valued per-entry outcome, carried opaquely.
#[verifier::external_type_specification]
#[verifier::external_body]
pub struct ExWalkState(ignore::WalkState);

/// A compiled file-type filter, carried opaquely.
#[verifier::external_type_specification]
#[verifier::external_body]
pub struct ExTypes(ignore::types::Types);

/// The file-type filter builder, carried opaquely.
#[verifier::external_type_specification]
#[verifier::external_body]
pub struct ExTypesBuilder(ignore::types::TypesBuilder);

/// A compiled glob override set, carried opaquely.
#[verifier::external_type_specification]
#[verifier::external_body]
pub struct ExOverride(ignore::overrides::Override);

/// The glob override builder, carried opaquely.
#[verifier::external_type_specification]
#[verifier::external_body]
pub struct ExOverrideBuilder(ignore::overrides::OverrideBuilder);

/// The library's per-entry outcome for the parallel walk: continue with
/// the next entry, skip the entry's subtree, or stop the whole walk.
pub enum EntryAction {
    Advance,
    SkipSubtree,
    Stop,
}

/// Relies on `ignore::WalkState`: converts the library's per-entry outcome
/// to the walker's, variant for variant.
#[verifier::external_body]
pub(crate) fn to_walk_state(action: EntryAction) -> ignore::WalkState {
    match action {
        EntryAction::Advance => ignore::WalkState::Continue,
        EntryAction::SkipSubtree => ignore::WalkState::Skip,
        EntryAction::Stop => ignore::WalkState::Quit,
    }
}

/// One walker knob as the engine sets it: the scalar toggles carry their
/// values; the compiled type filter and glob override set are recorded by
/// presence (their contents are pinned where they are built).
pub enum WalkSetting {
    SkipHidden(bool),
    GitIgnore(bool),
    GitGlobal(bool),
    GitExclude(bool),
    FollowLinks(bool),
    SameFileSystem(bool),
    MaxDepth(Option<usize>),
    Threads(usize),
    TypeFilter,
    GlobOverrides,
}

/// The knobs recorded in a walker builder, in the order they were set.
pub uninterp spec fn wb_settings(b: ignore::WalkBuilder) -> Seq<WalkSetting>;

/// The type-name selections recorded in a file-type filter builder.
pub uninterp spec fn type_selections(b: ignore::types::TypesBuilder) -> Seq<Seq<char>>;

/// Whether the walker crate's built-in type definitions recognize a
/// file-type name.
pub uninterp spec fn file_type_known(name: Seq<char>) -> bool;

/// The diagnostic text of a rejected type-filter build, a pure function
/// of the selected names.
pub uninterp spec fn types_diag(names: Seq<Seq<char>>) -> Seq<char>;

/// The selected type names a compiled file-type filter was built from.
pub uninterp spec fn types_set(t: ignore::types::Types) -> Seq<Seq<char>>;

/// Relies on `ignore::types::TypesBuilder::new` and `add_defaults`: a
/// fresh builder holding the crate's built-in type definitions and no
/// selections. Every builder of this crate is made here, so the built-in
/// definitions are the ones `tb_build` selects from.
#[verifier::external_body]
fn tb_new_with_defaults() -> (b: ignore::types::TypesBuilder)
    ensures
        type_selections(b) == Seq::<Seq<char>>::empty(),
{
    let mut builder = ignore::types::TypesBuilder::new();
    builder.add_defaults();
    builder
}

/// Relies on `ignore::types::TypesBuilder::select`: records one more
/// selected type name and always succeeds.
#[verifier::external_body]
fn tb_select(b: &mut ignore::types::TypesBuilder, name: &str)
    ensures
        type_selections(*final(b)) == type_selections(*old(b)).push(name@),
{
    b.select(name);
}

/// Relies on `ignore::types::TypesBuilder::build`: succeeds exactly when
/// every selected name is a recognized type; the first unrecognized name
/// produces the error, returned as text, a function of the selections.
#[verifier::external_body]
fn tb_build(b: &ignore::types::TypesBuilder) -> (r: Result<ignore::types::Types, String>)
    ensures
        r is Ok <==> (forall|i: int|
            0 <= i < type_selections(*b).len() ==> file_type_known(#[trigger] type_selections(
                *b,
            )[i])),
        r matches Ok(t) ==> types_set(t) == type_selections(*b),
        r matches Err(d) ==> d@ == types_diag(type_selections(*b)),
{
    b.build().map_err(|e| e.to_string())
}

/// The globs recorded in an override builder, in the order added.
pub uninterp spec fn override_globs(b: ignore::overrides::OverrideBuilder) -> Seq<Seq<char>>;

/// Whether a single glob is syntactically valid.
pub uninterp spec fn glob_ok(glob: Seq<char>) -> bool;

/// The diagnostic text for a rejected glob, a pure function of its text.
pub uninterp spec fn glob_diag(glob: Seq<char>) -> Seq<char>;

/// Whether a set of valid globs assembles into a compiled matcher.
pub uninterp spec fn glob_set_builds(globs: Seq<Seq<char>>) -> bool;

/// The diagnostic text of a rejected glob-set build, a pure function of
/// the added glob texts.
pub uninterp spec fn glob_set_diag(globs: Seq<Seq<char>>) -> Seq<char>;

/// The glob texts a compiled override set was built from, in the order
/// added; a `!`-prefixed glob acts as an exclusion.
pub uninterp spec fn override_set(o: ignore::overrides::Override) -> Seq<Seq<char>>;

/// Relies on `ignore::overrides::OverrideBuilder::new`: a fresh builder
/// for the given root, holding no globs.
#[verifier::external_body]
fn ob_new(root: &str) -> (b: ignore::overrides::OverrideBuilder)
    ensures
        override_globs(b) == Seq::<Seq<char>>::empty(),
{
    ignore::overrides::OverrideBuilder::new(std::path::Path::new(root))
}

/// Relies on `ignore::overrides::OverrideBuilder::add`: accepts or rejects
/// a glob as a function of its text alone, and on success records it.
#[verifier::external_body]
fn ob_add(b: &mut ignore::overrides::OverrideBuilder, glob: &str) -> (r: Result<(), String>)
    ensures
        r is Ok <==> glob_ok(glob@),
        r is Ok ==> override_globs(*final(b)) == override_globs(*old(b)).push(glob@),
        r matches Err(d) ==> d@ == glob_diag(glob@),
{
    b.add(glob).map(|_| ()).map_err(|e| e.to_string())
}

/// Relies on `ignore::overrides::OverrideBuilder::build`: assembles the
/// recorded globs, succeeding as a function of the glob texts alone.
#[verifier::external_body]
fn ob_build(b: &ignore::overrides::OverrideBuilder) -> (r: Result<
    ignore::overrides::Override,
    String,
>)
    ensures
        r is Ok <==> glob_set_builds(override_globs(*b)),
        r matches Ok(o) ==> override_set(o) == override_globs(*b),
        r matches Err(d) ==> d@ == glob_set_diag(override_globs(*b)),
{
    b.build().map_err(|e| e.to_string())
}

/// Relies on `ignore::WalkBuilder::new`: a walker rooted at the given path.
#[verifier::external_body]
pub(crate) fn wb_new(root: &str) -> (b: ignore::WalkBuilder)
    ensures
        wb_settings(b) == Seq::<WalkSetting>::empty(),
{
    ignore::WalkBuilder::new(std::path::Path::new(root))
}

/// Relies on `ignore::WalkBuilder::hidden`: toggles skipping hidden files.
#[verifier::external_body]
pub(crate) fn wb_hidden(b: &mut ignore::WalkBuilder, yes: bool)
    ensures
        wb_settings(*final(b)) == wb_settings(*old(b)).push(WalkSetting::SkipHidden(yes)),
{
    b.hidden(yes);
}

/// Relies on `ignore::WalkBuilder::git_ignore`: toggles `.gitignore` files.
#[verifier::external_body]
pub(crate) fn wb_git_ignore(b: &mut ignore::WalkBuilder, yes: bool)
    ensures
        wb_settings(*final(b)) == wb_settings(*old(b)).push(WalkSetting::GitIgnore(yes)),
{
    b.git_ignore(yes);
}

/// Relies on `ignore::WalkBuilder::git_global`: toggles the global git
/// ignore file.
#[verifier::external_body]
pub(crate) fn wb_git_global(b: &mut ignore::WalkBuilder, yes: bool)
    ensures
        wb_settings(*final(b)) == wb_settings(*old(b)).push(WalkSetting::GitGlobal(yes)),
{
    b.git_global(yes);
}

/// Relies on `ignore::WalkBuilder::git_exclude`: toggles
/// `.git/info/exclude` files.
#[verifier::external_body]
pub(crate) fn wb_git_exclude(b: &mut ignore::WalkBuilder, yes: bool)
    ensures
        wb_settings(*final(b)) == wb_settings(*old(b)).push(WalkSetting::GitExclude(yes)),
{
    b.git_exclude(yes);
}

/// Relies on `ignore::WalkBuilder::follow_links`: toggles following
/// symbolic links.
#[verifier::external_body]
fn wb_follow_links(b: &mut ignore::WalkBuilder, yes: bool)
    ensures
        wb_settings(*final(b)) == wb_settings(*old(b)).push(WalkSetting::FollowLinks(yes)),
{
    b.follow_links(yes);
}

/// Relies on `ignore::WalkBuilder::same_file_system`: toggles staying on
/// one filesystem device.
#[verifier::external_body]
fn wb_same_file_system(b: &mut ignore::WalkBuilder, yes: bool)
    ensures
        wb_settings(*final(b)) == wb_settings(*old(b)).push(WalkSetting::SameFileSystem(yes)),
{
    b.same_file_system(yes);
}

/// Relies on `ignore::WalkBuilder::max_depth`: caps the recursion depth.
#[verifier::external_body]
fn wb_max_depth(b: &mut ignore::WalkBuilder, depth: Option<usize>)
    ensures
        wb_settings(*final(b)) == wb_settings(*old(b)).push(WalkSetting::MaxDepth(depth)),
{
    b.max_depth(depth);
}

/// Relies on `ignore::WalkBuilder::threads`: sets the worker thread count.
#[verifier::external_body]
fn wb_threads(b: &mut ignore::WalkBuilder, n: usize)
    ensures
        wb_settings(*final(b)) == wb_settings(*old(b)).push(WalkSetting::Threads(n)),
{
    b.threads(n);
}

/// Relies on `ignore::WalkBuilder::types`: installs a file-type filter.
#[verifier::external_body]
fn wb_types(b: &mut ignore::WalkBuilder, types: ignore::types::Types)
    ensures
        wb_settings(*final(b)) == wb_settings(*old(b)).push(WalkSetting::TypeFilter),
{
    b.types(types);
}

/// Relies on `ignore::WalkBuilder::overrides`: installs a glob override
/// set; each negated glob acts as an exclusion.
#[verifier::external_body]
fn wb_overrides(b: &mut ignore::WalkBuilder, overrides: ignore::overrides::Override)
    ensures
        wb_settings(*final(b)) == wb_settings(*old(b)).push(WalkSetting::GlobOverrides),
{
    b.overrides(overrides);
}

/// Relies on `ignore::WalkBuilder::build_parallel`: the parallel walk
/// handle for the configured walker.
#[verifier::external_body]
pub(crate) fn wb_build_parallel(b: &ignore::WalkBuilder) -> ignore::WalkParallel {
    b.build_parallel()
}

/// Relies on `ignore::WalkBuilder::build`: the sequential walk iterator
/// for the configured walker.
#[verifier::external_body]
pub(crate) fn wb_build(b: &ignore::WalkBuilder) -> ignore::Walk {
    b.build()
}

/// Relies on `ignore::DirEntry::file_type`: whether the entry is a
/// directory (stat-less entries count as non-directories).
#[verifier::external_body]
pub(crate) fn entry_is_dir(e: &ignore::DirEntry) -> bool {
    e.file_type().map(|t| t.is_dir()).unwrap_or(false)
}

/// Relies on `ignore::DirEntry::path`: the entry's path rendered as text.
#[verifier::external_body]
pub(crate) fn entry_path_string(e: &ignore::DirEntry) -> String {
    e.path().to_string_lossy().into_owned()
}

/// Relies on `std::path::Path::metadata` for the entry's path: the size
/// in bytes of the file the path leads to (a symbolic link is followed),
/// when the metadata can be read.
#[verifier::external_body]
pub(crate) fn entry_size(e: &ignore::DirEntry) -> Option<u64> {
    e.path().metadata().ok().map(|m| m.len())
}

/// Relies on `ignore::Error`'s display implementation: the enumeration
/// error rendered as text.
#[verifier::external_body]
pub(crate) fn ignore_error_string(e: &ignore::Error) -> String {
    e.to_string()
}

/// Relies on `num_cpus::get`: the number of available CPUs, which is
/// documented to be at least 1.
#[verifier::external_body]
fn num_cpus_get() -> (n: usize)
    ensures
        n >= 1,
{
    num_cpus::get()
}

/// The glob list the walker is configured with: every incl glob, then
/// every exclude glob prefixed with `!` (the override builder's negation).
pub open spec fn effective_globs(opts: SearchOptions) -> Seq<Seq<char>> {
    spec_all_globs(opts.glob_include@, opts.glob_exclude@)
}

/// The option set names file types and one of them is not recognized.
pub open spec fn types_fail(opts: SearchOptions) -> bool {
    opts.file_types@.len() > 0 && exists|i: int|
        0 <= i < opts.file_types@.len() && !file_type_known(#[trigger] opts.file_types@[i]@)
}

/// The option set names globs and they do not assemble: either some glob
/// is malformed, or the compiled set cannot be built.
pub open spec fn globs_fail(opts: SearchOptions) -> bool {
    (opts.glob_include@.len() + opts.glob_exclude@.len() > 0) && ((exists|i: int|
        0 <= i < effective_globs(opts).len() && !glob_ok(#[trigger] effective_globs(opts)[i]))
        || !glob_set_builds(effective_globs(opts)))
}

/// The walker configuration in `opts` is acceptable.
pub open spec fn walker_cfg_ok(opts: SearchOptions) -> bool {
    !types_fail(opts) && !globs_fail(opts)
}

/// Builds the file-type filter for the selected type names; fails exactly
/// when some name is not recognized.
fn build_types(names: &Vec<String>) -> (r: Result<ignore::types::Types, SearchError>)
    ensures
        r is Ok <==> (forall|i: int| 0 <= i < names@.len() ==> file_type_known(#[trigger] names@[i]@)),
        r matches Ok(t) ==> types_set(t) == names@.map_values(|n: String| n@),
        r matches Err(e) ==> e matches SearchError::InvalidTypeFilter(m) && m@
            == "Failed to build type matcher: "@ + types_diag(names@.map_values(|n: String| n@)),
{
    let mut builder = tb_new_with_defaults();
    let mut i: usize = 0;
    while i < names.len()
        invariant
            i <= names@.len(),
            type_selections(builder) =~= names@.take(i as int).map_values(|n: String| n@),
        decreases names@.len() - i,
    {
        tb_select(&mut builder, names[i].as_str());
        proof {
            assert(names@.take(i + 1).map_values(|n: String| n@) =~= names@.take(
                i as int,
            ).map_values(|n: String| n@).push(names@[i as int]@));
        }
        i = i + 1;
    }
    proof {
        assert(names@.take(names@.len() as int) =~= names@);
    }
    match tb_build(&builder) {
        Ok(t) => {
            proof {
                assert(forall|i: int|
                    0 <= i < names@.len() ==> type_selections(builder)[i] == #[trigger] names@[i]@);
                assert(type_selections(builder) =~= names@.map_values(|n: String| n@));
            }
            Ok(t)
        },
        Err(diag) => {
            let mut msg = String::new();
            msg.append("Failed to build type matcher: ");
            msg.append(diag.as_str());
            proof {
                assert(forall|i: int|
                    0 <= i < names@.len() ==> type_selections(builder)[i] == #[trigger] names@[i]@);
                assert(type_selections(builder) =~= names@.map_values(|n: String| n@));
                assert(msg@ =~= "Failed to build type matcher: "@ + diag@);
            }
            Err(SearchError::InvalidTypeFilter(msg))
        },
    }
}

/// Builds the glob override set from the incl and exclude lists; fails
/// exactly when some glob is malformed or the set cannot be assembled.
fn build_overrides(root: &str, incl: &Vec<String>, exclude: &Vec<String>) -> (r: Result<
    ignore::overrides::Override,
    SearchError,
>)
    ensures
        r is Ok <==> ((forall|i: int|
            0 <= i < spec_all_globs(incl@, exclude@).len() ==> glob_ok(
                #[trigger] spec_all_globs(incl@, exclude@)[i],
            )) && glob_set_builds(spec_all_globs(incl@, exclude@))),
        r matches Ok(o) ==> override_set(o) == spec_all_globs(incl@, exclude@),
        r matches Err(e) ==> e matches SearchError::InvalidGlob(m) && m@ == spec_glob_fail_message(
            incl@,
            exclude@,
        ),
{
    let mut builder = ob_new(root);
    let mut i: usize = 0;
    while i < incl.len()
        invariant
            i <= incl@.len(),
            override_globs(builder) =~= incl@.take(i as int).map_values(|g: String| g@),
            forall|k: int| 0 <= k < i ==> glob_ok(#[trigger] incl@[k]@),
        decreases incl@.len() - i,
    {
        match ob_add(&mut builder, incl[i].as_str()) {
            Ok(()) => {
                proof {
                    assert(incl@.take(i + 1).map_values(|g: String| g@) =~= incl@.take(
                        i as int,
                    ).map_values(|g: String| g@).push(incl@[i as int]@));
                }
                i = i + 1;
            },
            Err(diag) => {
                let msg = glob_error_message(&incl[i], &diag);
                proof {
                    let all = spec_all_globs(incl@, exclude@);
                    lemma_bad_glob_in_all(incl@, exclude@, i as int, true);
                    assert(all[i as int] == incl@[i as int]@);
                    assert(forall|k: int| 0 <= k < i ==> #[trigger] all[k] == incl@[k]@);
                    lemma_first_bad_glob(all, i as int);
                    assert(msg@ == spec_glob_fail_message(incl@, exclude@));
                }
                return Err(SearchError::InvalidGlob(msg));
            },
        }
    }
    let ghost inc_mapped: Seq<Seq<char>> = incl@.map_values(|g: String| g@);
    proof {
        assert(incl@.take(incl@.len() as int) =~= incl@);
    }
    let mut j: usize = 0;
    while j < exclude.len()
        invariant
            j <= exclude@.len(),
            inc_mapped == incl@.map_values(|g: String| g@),
            override_globs(builder) =~= inc_mapped + exclude@.take(j as int).map_values(
                |g: String| "!"@ + g@,
            ),
            forall|k: int| 0 <= k < incl@.len() ==> glob_ok(#[trigger] incl@[k]@),
            forall|k: int| 0 <= k < j ==> glob_ok("!"@ + #[trigger] exclude@[k]@),
        decreases exclude@.len() - j,
    {
        let mut banged = String::new();
        banged.append("!");
        banged.append(exclude[j].as_str());
        proof {
            assert(banged@ == "!"@ + exclude@[j as int]@);
        }
        match ob_add(&mut builder, banged.as_str()) {
            Ok(()) => {
                proof {
                    assert(exclude@.take(j + 1).map_values(|g: String| "!"@ + g@) =~= exclude@.take(
                        j as int,
                    ).map_values(|g: String| "!"@ + g@).push("!"@ + exclude@[j as int]@));
                }
                j = j + 1;
            },
            Err(diag) => {
                let msg = glob_error_message(&exclude[j], &diag);
                proof {
                    let all = spec_all_globs(incl@, exclude@);
                    let bad = incl@.len() + j as int;
                    lemma_bad_glob_in_all(incl@, exclude@, j as int, false);
                    assert(all[bad] == "!"@ + exclude@[j as int]@);
                    assert(forall|k: int| 0 <= k < incl@.len() ==> #[trigger] all[k] == incl@[k]@);
                    assert(forall|k: int|
                        incl@.len() <= k < bad ==> #[trigger] all[k] == "!"@ + exclude@[k
                            - incl@.len()]@);
                    lemma_first_bad_glob(all, bad);
                    assert(raw_glob_at(incl@, exclude@, bad) == exclude@[j as int]@);
                    assert(msg@ == spec_glob_fail_message(incl@, exclude@));
                }
                return Err(SearchError::InvalidGlob(msg));
            },
        }
    }
    proof {
        assert(exclude@.take(exclude@.len() as int) =~= exclude@);
        assert(override_globs(builder) =~= spec_all_globs(incl@, exclude@));
    }
    match ob_build(&builder) {
        Ok(ov) => {
            proof {
                lemma_all_globs_ok(incl@, exclude@);
            }
            Ok(ov)
        },
        Err(diag) => {
            let mut msg = String::new();
            msg.append("Failed to build glob matcher: ");
            msg.append(diag.as_str());
            proof {
                lemma_all_globs_ok(incl@, exclude@);
                assert(msg@ =~= "Failed to build glob matcher: "@ + diag@);
                assert(msg@ == spec_glob_fail_message(incl@, exclude@));
            }
            Err(SearchError::InvalidGlob(msg))
        },
    }
}

/// The combined glob list handed to the override builder.
pub open spec fn spec_all_globs(incl: Seq<String>, exclude: Seq<String>) -> Seq<Seq<char>> {
    incl.map_values(|g: String| g@) + exclude.map_values(|g: String| "!"@ + g@)
}

/// The position of the first invalid glob in `globs`; `globs.len()` when
/// every glob is valid.
pub open spec fn first_bad_glob(globs: Seq<Seq<char>>) -> int
    decreases globs.len(),
{
    if globs.len() == 0 {
        0
    } else if !glob_ok(globs.first()) {
        0
    } else {
        1 + first_bad_glob(globs.drop_first())
    }
}

/// A position whose glob is invalid, with every earlier glob valid, is
/// the first invalid position.
proof fn lemma_first_bad_glob(globs: Seq<Seq<char>>, i: int)
    requires
        0 <= i < globs.len(),
        !glob_ok(globs[i]),
        forall|k: int| 0 <= k < i ==> glob_ok(#[trigger] globs[k]),
    ensures
        first_bad_glob(globs) == i,
    decreases i,
{
    if i > 0 {
        assert(glob_ok(globs.first()));
        assert(globs.drop_first()[i - 1] == globs[i]);
        assert(forall|k: int| 0 <= k < i - 1 ==> #[trigger] globs.drop_first()[k] == globs[k + 1]);
        lemma_first_bad_glob(globs.drop_first(), i - 1);
    }
}

/// The user-written glob at a position of the combined list: the raw
/// text, without the `!` the exclusion entries carry there.
pub open spec fn raw_glob_at(incl: Seq<String>, exclude: Seq<String>, i: int) -> Seq<char> {
    if i < incl.len() {
        incl[i]@
    } else {
        exclude[i - incl.len()]@
    }
}

/// The diagnostic text of a rejected glob-set construction: the first
/// invalid glob is named with its parse diagnostic; with every glob
/// valid, the set-assembly diagnostic is reported.
pub open spec fn spec_glob_fail_message(incl: Seq<String>, exclude: Seq<String>) -> Seq<char> {
    let all = spec_all_globs(incl, exclude);
    if exists|k: int| 0 <= k < all.len() && !glob_ok(#[trigger] all[k]) {
        let i = first_bad_glob(all);
        "Invalid glob '"@ + raw_glob_at(incl, exclude, i) + "': "@ + glob_diag(all[i])
    } else {
        "Failed to build glob matcher: "@ + glob_set_diag(all)
    }
}

/// A rejected glob at a known position makes some glob of the combined
/// list invalid.
proof fn lemma_bad_glob_in_all(incl: Seq<String>, exclude: Seq<String>, i: int, in_include: bool)
    requires
        in_include ==> 0 <= i < incl.len() && !glob_ok(incl[i]@),
        !in_include ==> 0 <= i < exclude.len() && !glob_ok("!"@ + exclude[i]@),
    ensures
        exists|k: int|
            0 <= k < spec_all_globs(incl, exclude).len() && !glob_ok(
                #[trigger] spec_all_globs(incl, exclude)[k],
            ),
{
    if in_include {
        assert(spec_all_globs(incl, exclude)[i] == incl[i]@);
    } else {
        assert(spec_all_globs(incl, exclude)[incl.len() + i] == "!"@ + exclude[i]@);
    }
}

/// Element-wise validity of both lists gives validity of the combined
/// list.
proof fn lemma_all_globs_ok(incl: Seq<String>, exclude: Seq<String>)
    requires
        forall|k: int| 0 <= k < incl.len() ==> glob_ok(#[trigger] incl[k]@),
        forall|k: int| 0 <= k < exclude.len() ==> glob_ok("!"@ + #[trigger] exclude[k]@),
    ensures
        forall|k: int|
            0 <= k < spec_all_globs(incl, exclude).len() ==> glob_ok(
                #[trigger] spec_all_globs(incl, exclude)[k],
            ),
{
    assert forall|k: int| 0 <= k < spec_all_globs(incl, exclude).len() implies glob_ok(
        #[trigger] spec_all_globs(incl, exclude)[k],
    ) by {
        if k < incl.len() {
            assert(spec_all_globs(incl, exclude)[k] == incl[k]@);
        } else {
            assert(spec_all_globs(incl, exclude)[k] == "!"@ + exclude[k - incl.len()]@);
        }
    }
}

/// The diagnostic text for a rejected glob, naming the glob.
fn glob_error_message(glob: &String, diag: &String) -> (r: String)
    ensures
        r@ == "Invalid glob '"@ + glob@ + "': "@ + diag@,
{
    let mut msg = String::new();
    msg.append("Invalid glob '");
    msg.append(glob.as_str());
    msg.append("': ");
    msg.append(diag.as_str());
    msg
}

/// The worker thread count handed to the walker: auto-detected (and so at
/// least 1) when the option is zero, the option's value otherwise.
pub open spec fn thread_choice_ok(opts: SearchOptions, t: usize) -> bool {
    if opts.threads == 0 {
        t >= 1
    } else {
        t == opts.threads
    }
}

/// The exact knob sequence a successful `build_walker` records, given the
/// resolved thread count: hidden files skipped unless requested, the
/// three git-ignore tiers toggled together, symlink policy, staying on
/// one filesystem device, the depth cap when configured, the thread
/// count, and the optional type filter and glob overrides.
pub open spec fn spec_walker_settings(opts: SearchOptions, t: usize) -> Seq<WalkSetting> {
    let base = seq![
        WalkSetting::SkipHidden(!opts.hidden),
        WalkSetting::GitIgnore(opts.git_ignore),
        WalkSetting::GitGlobal(opts.git_ignore),
        WalkSetting::GitExclude(opts.git_ignore),
        WalkSetting::FollowLinks(opts.follow_symlinks),
        WalkSetting::SameFileSystem(true),
    ];
    let with_depth = if opts.max_depth is Some {
        base.push(WalkSetting::MaxDepth(opts.max_depth))
    } else {
        base
    };
    let with_threads = with_depth.push(WalkSetting::Threads(t));
    let with_types = if opts.file_types@.len() > 0 {
        with_threads.push(WalkSetting::TypeFilter)
    } else {
        with_threads
    };
    if opts.glob_include@.len() + opts.glob_exclude@.len() > 0 {
        with_types.push(WalkSetting::GlobOverrides)
    } else {
        with_types
    }
}

/// Builds the directory walker for one search, recording exactly the
/// knobs of `spec_walker_settings`: hidden files skipped unless
/// requested, the three git-ignore tiers toggled together, symlink
/// policy and depth cap applied, the walk kept on one filesystem device,
/// thread count auto-detected when zero, and the optional type filter
/// and glob overrides installed. Fails exactly when the type filter or
/// the glob set is rejected, the type filter first, carrying the
/// builder's diagnostic.
pub fn build_walker(root: &str, opts: &SearchOptions) -> (r: Result<ignore::WalkBuilder, SearchError>)
    ensures
        r is Ok <==> walker_cfg_ok(*opts),
        r matches Ok(b) ==> exists|t: usize|
            thread_choice_ok(*opts, t) && wb_settings(b) == #[trigger] spec_walker_settings(
                *opts,
                t,
            ),
        r matches Err(e) ==> {
            &&& (e is InvalidTypeFilter <==> types_fail(*opts))
            &&& (e is InvalidGlob <==> !types_fail(*opts) && globs_fail(*opts))
            &&& (e matches SearchError::InvalidTypeFilter(m) ==> m@
                == "Failed to build type matcher: "@ + types_diag(
                opts.file_types@.map_values(|n: String| n@),
            ))
            &&& (e matches SearchError::InvalidGlob(m) ==> m@ == spec_glob_fail_message(
                opts.glob_include@,
                opts.glob_exclude@,
            ))
        },
{
    let mut builder = wb_new(root);
    wb_hidden(&mut builder, !opts.hidden);
    wb_git_ignore(&mut builder, opts.git_ignore);
    wb_git_global(&mut builder, opts.git_ignore);
    wb_git_exclude(&mut builder, opts.git_ignore);
    wb_follow_links(&mut builder, opts.follow_symlinks);
    wb_same_file_system(&mut builder, true);
    if let Some(depth) = opts.max_depth {
        wb_max_depth(&mut builder, Some(depth));
    }
    let threads = if opts.threads == 0 {
        num_cpus_get()
    } else {
        opts.threads
    };
    wb_threads(&mut builder, threads);
    if opts.file_types.len() > 0 {
        match build_types(&opts.file_types) {
            Ok(types) => {
                wb_types(&mut builder, types);
            },
            Err(e) => {
                return Err(e);
            },
        }
    }
    if opts.glob_include.len() > 0 || opts.glob_exclude.len() > 0 {
        match build_overrides(root, &opts.glob_include, &opts.glob_exclude) {
            Ok(ov) => {
                wb_overrides(&mut builder, ov);
            },
            Err(e) => {
                return Err(e);
            },
        }
    }
    proof {
        assert(wb_settings(builder) =~= spec_walker_settings(*opts, threads));
        assert(thread_choice_ok(*opts, threads));
    }
    Ok(builder)
}

} // verus!
