//! Coordinator-owned explicit Worker launch profile registry.
use vstd::prelude::*;
use sha2::Digest;
use vstd::string::*;
use crate::contract::{
    hex_char, same_profile, validation_text, HarnessId, HarnessKind, HarnessLaunchProfileV2,
};
use crate::host::{kind_debug_name, text_models};
use crate::ordering::{bytes_less, lemma_lex_transitive, lemma_lex_trichotomy, lex_less};
use crate::text::{absolute_path_ok, is_absolute_path, lemma_utf8_injective, utf8_bytes};
use crate::validation::Validate;
use crate::keyed::{keyed_map, keys_unique, lemma_keyed_map_dom, lemma_keyed_map_insert, lemma_keyed_map_update};

verus! {

/// The SHA-256 digest of a byte sequence.
pub uninterp spec fn sha256_digest(data: Seq<u8>) -> Seq<u8>;

/// Computes `sha2::Sha256::digest` of the bytes; the result is the 32-byte SHA-256 digest.
#[verifier::external_body]
fn sha256_of(data: &[u8]) -> (digest: Vec<u8>)
    ensures
        digest@ == sha256_digest(data@),
        digest@.len() == 32,
{
    sha2::Sha256::digest(data).to_vec()
}

/// Lowercase hexadecimal text of a byte sequence: two digits per byte, high nibble first.
pub open spec fn hex_text(data: Seq<u8>) -> Seq<char> {
    Seq::new(
        2 * data.len(),
        |i: int|
            if i % 2 == 0 {
                hex_char(data[i / 2] as int / 16)
            } else {
                hex_char(data[i / 2] as int % 16)
            },
    )
}

/// Encodes bytes with `hex::encode`, which writes each byte as two lowercase hexadecimal
/// digits, high nibble first.
#[verifier::external_body]
fn hex_encode(data: &[u8]) -> (text: String)
    ensures
        text@ == hex_text(data@),
{
    hex::encode(data)
}

/// The lowercase hexadecimal SHA-256 digest of a text's UTF-8 bytes.
pub open spec fn text_digest(text: Seq<char>) -> Seq<char> {
    hex_text(sha256_digest(utf8_bytes(text)))
}

/// Computes the lowercase hexadecimal SHA-256 digest of a profile snapshot.
pub fn snapshot_digest(snapshot: &str) -> (digest: String)
    ensures
        digest@ == text_digest(snapshot@),
        digest@.len() == 64,
{
    let bytes = sha256_of(snapshot.as_bytes());
    hex_encode(bytes.as_slice())
}

/// Profile discovery or explicit-resolution failure.
#[derive(Debug)]
pub enum ProfileError {
    /// Profile directory or file could not be read.
    Io { path: String, message: String },
    /// TOML did not decode to the v1 profile contract.
    Toml { path: String, message: String },
    /// Typed profile validation failed.
    Validation { path: String, message: String },
    /// Two files declared the same durable profile ID.
    Duplicate(HarnessId),
    /// Caller selected no registered profile with this ID.
    NotFound(HarnessId),
    /// Explicit Worker Kind differs from the selected profile.
    KindMismatch { profile: HarnessId, actual: HarnessKind },
    /// Referenced executable or overlay is not a regular file.
    MissingFile { profile: HarnessId, path: String },
    /// A bare executable name named no regular file in any inherited `PATH` directory.
    ExecutableNotFound { profile: HarnessId, executable: String },
}

/// The human-readable rendering of a profile error.
pub open spec fn profile_error_text(e: ProfileError) -> Seq<char> {
    match e {
        ProfileError::Io { path, message } => "cannot read launch profile path `"@ + path@
            + "`: "@ + message@,
        ProfileError::Toml { path, message } => "invalid launch profile TOML `"@ + path@
            + "`: "@ + message@,
        ProfileError::Validation { path, message } => "invalid launch profile `"@ + path@
            + "`: "@ + message@,
        ProfileError::Duplicate(id) => "duplicate launch profile ID `"@ + id@ + "`"@,
        ProfileError::NotFound(id) => "launch profile `"@ + id@ + "` does not exist"@,
        ProfileError::KindMismatch { profile, actual } => "launch profile `"@ + profile@
            + "` is not compatible with "@ + kind_debug_name(actual),
        ProfileError::MissingFile { profile, path } => "launch profile `"@ + profile@
            + "` references a missing or non-regular file `"@ + path@ + "`"@,
        ProfileError::ExecutableNotFound { profile, executable } => "launch profile `"@ + profile@
            + "` executable `"@ + executable@ + "` was not found on the inherited PATH"@,
    }
}

impl ProfileError {
    /// Renders this error as human-readable text.
    pub fn to_text(&self) -> (text: String)
        ensures
            text@ == profile_error_text(*self),
    {
        let mut out;
        match self {
            ProfileError::Io { path, message } => {
                out = String::from_str("cannot read launch profile path `");
                out.append(path.as_str());
                out.append("`: ");
                out.append(message.as_str());
            },
            ProfileError::Toml { path, message } => {
                out = String::from_str("invalid launch profile TOML `");
                out.append(path.as_str());
                out.append("`: ");
                out.append(message.as_str());
            },
            ProfileError::Validation { path, message } => {
                out = String::from_str("invalid launch profile `");
                out.append(path.as_str());
                out.append("`: ");
                out.append(message.as_str());
            },
            ProfileError::Duplicate(id) => {
                out = String::from_str("duplicate launch profile ID `");
                out.append(id.as_str());
                out.append("`");
            },
            ProfileError::NotFound(id) => {
                out = String::from_str("launch profile `");
                out.append(id.as_str());
                out.append("` does not exist");
            },
            ProfileError::KindMismatch { profile, actual } => {
                out = String::from_str("launch profile `");
                out.append(profile.as_str());
                out.append("` is not compatible with ");
                match actual {
                    HarnessKind::Omp => out.append("Omp"),
                    HarnessKind::Codex => out.append("Codex"),
                }
            },
            ProfileError::MissingFile { profile, path } => {
                out = String::from_str("launch profile `");
                out.append(profile.as_str());
                out.append("` references a missing or non-regular file `");
                out.append(path.as_str());
                out.append("`");
            },
            ProfileError::ExecutableNotFound { profile, executable } => {
                out = String::from_str("launch profile `");
                out.append(profile.as_str());
                out.append("` executable `");
                out.append(executable.as_str());
                out.append("` was not found on the inherited PATH");
            },
        }
        out
    }
}


/// Environment values keyed by name, each name at most once.
#[derive(Debug)]
pub struct EnvironmentMap {
    pairs: Vec<(String, String)>,
}

/// The name of a pair.
pub open spec fn pair_name(p: (String, String)) -> Seq<char> {
    p.0@
}

/// The value of a pair.
pub open spec fn pair_value(p: (String, String)) -> Seq<char> {
    p.1@
}

/// The map of name-value pairs, a later pair replacing an earlier one with the same name.
pub open spec fn pairs_map(pairs: Seq<(String, String)>) -> Map<Seq<char>, Seq<char>> {
    keyed_map(pairs, |p: (String, String)| pair_name(p), |p: (String, String)| pair_value(p))
}

/// No name occurs twice.
pub open spec fn names_unique(pairs: Seq<(String, String)>) -> bool {
    keys_unique(pairs, |p: (String, String)| pair_name(p))
}

impl View for EnvironmentMap {
    type V = Map<Seq<char>, Seq<char>>;

    closed spec fn view(&self) -> Map<Seq<char>, Seq<char>> {
        pairs_map(self.pairs@)
    }
}

impl EnvironmentMap {
    #[verifier::type_invariant]
    spec fn unique(self) -> bool {
        names_unique(self.pairs@)
    }

    /// An empty map.
    pub fn new() -> (map: Self)
        ensures
            map@ == Map::<Seq<char>, Seq<char>>::empty(),
    {
        EnvironmentMap { pairs: Vec::new() }
    }

    /// Sets `name` to `value`, replacing any earlier value.
    #[verifier::loop_isolation(false)]
    pub fn insert(&mut self, name: String, value: String)
        ensures
            final(self)@ == old(self)@.insert(name@, value@),
    {
        proof {
            use_type_invariant(&*self);
        }
        let mut pairs: Vec<(String, String)> = Vec::new();
        std::mem::swap(&mut pairs, &mut self.pairs);
        let ghost before = pairs@;
        assert(names_unique(before));
        let mut i: usize = 0;
        let n = pairs.len();
        while i < n
            invariant
                n == pairs@.len(),
                pairs@ == before,
                i <= n,
                forall|k: int| 0 <= k < i ==> #[trigger] pairs@[k].0@ != name@,
            decreases n - i,
        {
            if pairs[i].0 == name {
                proof {
                    lemma_keyed_map_update(
                        before,
                        |p: (String, String)| pair_name(p),
                        |p: (String, String)| pair_value(p),
                        i as int,
                        (name, value),
                    );
                }
                pairs.set(i, (name, value));
                self.pairs = pairs;
                return;
            }
            i = i + 1;
        }
        pairs.push((name, value));
        proof {
            lemma_keyed_map_insert(
                before,
                |p: (String, String)| pair_name(p),
                |p: (String, String)| pair_value(p),
                n as int,
                (name, value),
            );
            assert(before.insert(n as int, (name, value)) =~= pairs@);
        }
        self.pairs = pairs;
    }

    /// The value of `name`, if present.
    #[verifier::loop_isolation(false)]
    pub fn get(&self, name: &str) -> (value: Option<&String>)
        ensures
            match value {
                Some(v) => self@.dom().contains(name@) && v@ == self@[name@],
                None => !self@.dom().contains(name@),
            },
    {
        proof {
            use_type_invariant(self);
            lemma_keyed_map_dom(
                self.pairs@,
                |p: (String, String)| pair_name(p),
                |p: (String, String)| pair_value(p),
            );
        }
        let key = name.to_owned();
        let mut i: usize = 0;
        while i < self.pairs.len()
            invariant
                i <= self.pairs@.len(),
                key@ == name@,
                forall|k: int| 0 <= k < i ==> #[trigger] self.pairs@[k].0@ != name@,
            decreases self.pairs@.len() - i,
        {
            if self.pairs[i].0 == key {
                assert(pairs_map(self.pairs@)[self.pairs@[i as int].0@] == self.pairs@[i as int].1@);
                return Some(&self.pairs[i].1);
            }
            i = i + 1;
        }
        None
    }

    /// Whether `name` is present.
    pub fn contains_key(&self, name: &str) -> (present: bool)
        ensures
            present == self@.dom().contains(name@),
    {
        self.get(name).is_some()
    }

    /// The number of names.
    pub fn len(&self) -> (count: usize)
        ensures
            count == self@.dom().len(),
    {
        proof {
            use_type_invariant(self);
            lemma_keyed_map_dom(
                self.pairs@,
                |p: (String, String)| pair_name(p),
                |p: (String, String)| pair_value(p),
            );
        }
        self.pairs.len()
    }

    /// The name-value pairs, each name once.
    pub fn entries(&self) -> (pairs: &Vec<(String, String)>)
        ensures
            pairs_map(pairs@) == self@,
            names_unique(pairs@),
    {
        proof {
            use_type_invariant(self);
        }
        &self.pairs
    }
}


/// One registered profile with its exact source text and digest.
#[derive(Debug)]
pub struct RegistryEntry {
    pub profile: HarnessLaunchProfileV2,
    pub snapshot: String,
    pub digest: String,
}

/// The registered value of one profile.
pub struct ProfileEntryModel {
    pub profile: HarnessLaunchProfileV2,
    pub snapshot: Seq<char>,
    pub digest: Seq<char>,
}

/// The profile ID of an entry.
pub open spec fn entry_id(e: RegistryEntry) -> Seq<char> {
    e.profile.id@
}

/// The registered value of an entry.
pub open spec fn entry_model(e: RegistryEntry) -> ProfileEntryModel {
    ProfileEntryModel { profile: e.profile, snapshot: e.snapshot@, digest: e.digest@ }
}

/// The entries by profile ID.
pub open spec fn entries_map(entries: Seq<RegistryEntry>) -> Map<Seq<char>, ProfileEntryModel> {
    keyed_map(entries, |e: RegistryEntry| entry_id(e), |e: RegistryEntry| entry_model(e))
}

/// Entries are held in strictly ascending profile ID order.
pub open spec fn ids_ascending(entries: Seq<RegistryEntry>) -> bool {
    forall|i: int, j: int|
        0 <= i < j < entries.len() ==> lex_less(
            utf8_bytes(#[trigger] entries[i].profile.id@),
            utf8_bytes(#[trigger] entries[j].profile.id@),
        )
}

/// Each entry's digest is the 64-digit hexadecimal SHA-256 of its snapshot.
pub open spec fn digests_match(entries: Seq<RegistryEntry>) -> bool {
    forall|i: int|
        0 <= i < entries.len() ==> #[trigger] entries[i].digest@ == text_digest(entries[i].snapshot@)
            && entries[i].digest@.len() == 64
}

proof fn lemma_ascending_unique(entries: Seq<RegistryEntry>)
    requires
        ids_ascending(entries),
    ensures
        keys_unique(entries, |e: RegistryEntry| entry_id(e)),
{
    assert forall|i: int, j: int| 0 <= i < j < entries.len() implies entry_id(entries[i])
        != entry_id(entries[j]) by {
        let x = utf8_bytes(entries[i].profile.id@);
        lemma_lex_trichotomy(x, x);
    }
}

/// Immutable in-memory registry of Coordinator-owned launch profiles.
#[derive(Debug)]
pub struct ProfileRegistry {
    entries: Vec<RegistryEntry>,
}

impl View for ProfileRegistry {
    type V = Map<Seq<char>, ProfileEntryModel>;

    closed spec fn view(&self) -> Map<Seq<char>, ProfileEntryModel> {
        entries_map(self.entries@)
    }
}

/// The failure reported when registering a profile into a registry that it does not enter.
pub open spec fn admission_failure(
    e: ProfileError,
    path: Seq<char>,
    profile: HarnessLaunchProfileV2,
    missing_file: Option<String>,
    registry: Map<Seq<char>, ProfileEntryModel>,
) -> bool {
    if let Some(f) = profile.failure() {
        match e {
            ProfileError::Validation { path: p, message: m } => p@ == path && m@
                == validation_text(f),
            _ => false,
        }
    } else if let Some(file) = missing_file {
        match e {
            ProfileError::MissingFile { profile: id, path: p } => id@ == profile.id@ && p@
                == file@,
            _ => false,
        }
    } else {
        &&& registry.dom().contains(profile.id@)
        &&& match e {
            ProfileError::Duplicate(id) => id@ == profile.id@,
            _ => false,
        }
    }
}

/// Some allowed name equals `name`.
pub open spec fn allows(allow: Seq<String>, name: Seq<char>) -> bool {
    exists|i: int| 0 <= i < allow.len() && #[trigger] allow[i]@ == name
}

/// The environment values whose names are allowed, a later value replacing an earlier one.
pub open spec fn allowed_environment(pairs: Seq<(String, String)>, allow: Seq<String>) -> Map<
    Seq<char>,
    Seq<char>,
>
    decreases pairs.len(),
{
    if pairs.len() == 0 {
        Map::empty()
    } else {
        let rest = allowed_environment(pairs.drop_last(), allow);
        if allows(allow, pairs.last().0@) {
            rest.insert(pairs.last().0@, pairs.last().1@)
        } else {
            rest
        }
    }
}

/// The entries of a `:`-separated search path, in order, empty entries included.
pub open spec fn path_segments(p: Seq<char>) -> Seq<Seq<char>>
    decreases p.len(),
{
    if p.len() == 0 {
        seq![Seq::<char>::empty()]
    } else {
        let init = path_segments(p.drop_last());
        if p.last() == ':' {
            init.push(Seq::<char>::empty())
        } else {
            init.update(init.len() - 1, init.last().push(p.last()))
        }
    }
}

/// A file name inside a directory: `name` after the directory and one `/`.
pub open spec fn joined_path(dir: Seq<char>, name: Seq<char>) -> Seq<char> {
    if dir.len() > 0 && dir.last() == '/' {
        dir + name
    } else {
        dir + "/"@ + name
    }
}

/// The paths a bare name takes in each nonempty search directory, in search order.
pub open spec fn path_candidates(dirs: Seq<Seq<char>>, name: Seq<char>) -> Seq<Seq<char>>
    decreases dirs.len(),
{
    if dirs.len() == 0 {
        Seq::empty()
    } else {
        let init = path_candidates(dirs.drop_last(), name);
        if dirs.last().len() == 0 {
            init
        } else {
            init.push(joined_path(dirs.last(), name))
        }
    }
}

/// The first candidate that is among the listed files.
pub open spec fn first_listed(candidates: Seq<Seq<char>>, files: Seq<Seq<char>>) -> Option<
    Seq<char>,
>
    decreases candidates.len(),
{
    if candidates.len() == 0 {
        None
    } else if files.contains(candidates[0]) {
        Some(candidates[0])
    } else {
        first_listed(candidates.drop_first(), files)
    }
}

/// A bare executable resolves to the first searched path that is a regular file: the path it
/// resolves to is searched and regular, no earlier searched path is regular, and it fails to
/// resolve only when no searched path is.
pub proof fn resolution_takes_the_first_regular_candidate(
    candidates: Seq<Seq<char>>,
    files: Seq<Seq<char>>,
)
    ensures
        first_listed(candidates, files) matches Some(x) ==> exists|k: int|
            0 <= k < candidates.len() && #[trigger] candidates[k] == x && files.contains(x)
                && forall|j: int| 0 <= j < k ==> !files.contains(#[trigger] candidates[j]),
        first_listed(candidates, files) is None <==> forall|k: int|
            0 <= k < candidates.len() ==> !files.contains(#[trigger] candidates[k]),
    decreases candidates.len(),
{
    if candidates.len() > 0 {
        let rest = candidates.drop_first();
        resolution_takes_the_first_regular_candidate(rest, files);
        if !files.contains(candidates[0]) {
            if let Some(x) = first_listed(rest, files) {
                let k = choose|k: int|
                    0 <= k < rest.len() && #[trigger] rest[k] == x && files.contains(x) && forall|
                        j: int,
                    | 0 <= j < k ==> !files.contains(#[trigger] rest[j]);
                assert(candidates[k + 1] == x);
                assert forall|j: int| 0 <= j < k + 1 implies !files.contains(
                    #[trigger] candidates[j],
                ) by {
                    if j > 0 {
                        assert(candidates[j] == rest[j - 1]);
                    }
                }
            }
            assert forall|k: int| 0 <= k < candidates.len() && first_listed(rest, files) is None
                implies !files.contains(#[trigger] candidates[k]) by {
                if k > 0 {
                    assert(candidates[k] == rest[k - 1]);
                }
            }
            if forall|k: int| 0 <= k < candidates.len() ==> !files.contains(#[trigger] candidates[k]) {
                assert forall|k: int| 0 <= k < rest.len() implies !files.contains(#[trigger] rest[k]) by {
                    assert(rest[k] == candidates[k + 1]);
                }
            }
        }
    }
}

/// The `PATH` value of an environment, if it has one.
pub open spec fn inherited_path(env: Map<Seq<char>, Seq<char>>) -> Option<Seq<char>> {
    if env.dom().contains("PATH"@) {
        Some(env["PATH"@])
    } else {
        None
    }
}

/// The files searched for an executable: none for an absolute path; for a bare name, its
/// path in each nonempty directory of the search path, none without a search path.
pub open spec fn search_candidates(executable: Seq<char>, path: Option<Seq<char>>) -> Seq<
    Seq<char>,
> {
    if is_absolute_path(utf8_bytes(executable)) {
        Seq::empty()
    } else {
        match path {
            Some(p) => path_candidates(path_segments(p), executable),
            None => Seq::empty(),
        }
    }
}

/// The executable a launch runs: an absolute path as it stands; a bare name as the first
/// searched path that is a regular file, if any.
pub open spec fn resolved_executable(
    executable: Seq<char>,
    path: Option<Seq<char>>,
    regular_files: Seq<Seq<char>>,
) -> Option<Seq<char>> {
    if is_absolute_path(utf8_bytes(executable)) {
        Some(executable)
    } else {
        first_listed(search_candidates(executable, path), regular_files)
    }
}

/// Splits a search path at each `:`, keeping empty entries.
pub fn path_dirs(path: &str) -> (dirs: Vec<String>)
    ensures
        text_models(dirs@) == path_segments(path@),
{
    let n = path.unicode_len();
    let mut dirs: Vec<String> = Vec::new();
    let mut start: usize = 0;
    let mut i: usize = 0;
    proof {
        assert(path@.take(0) =~= Seq::<char>::empty());
        assert(path@.subrange(0, 0) =~= Seq::<char>::empty());
        assert(text_models(dirs@) =~= Seq::<Seq<char>>::empty());
    }
    while i < n
        invariant
            n == path@.len(),
            start <= i <= n,
            path_segments(path@.take(i as int)) == text_models(dirs@).push(
                path@.subrange(start as int, i as int),
            ),
        decreases n - i,
    {
        let c = path.get_char(i);
        proof {
            assert(path@.take(i + 1).drop_last() =~= path@.take(i as int));
            assert(path@.take(i + 1).last() == c);
        }
        if c == ':' {
            let ghost before = text_models(dirs@);
            let d = path.substring_char(start, i).to_owned();
            dirs.push(d);
            proof {
                assert(text_models(dirs@) =~= before.push(path@.subrange(start as int, i as int)));
                assert(path@.subrange(i + 1, i + 1) =~= Seq::<char>::empty());
            }
            start = i + 1;
        } else {
            proof {
                assert(path@.subrange(start as int, i + 1) =~= path@.subrange(
                    start as int,
                    i as int,
                ).push(c));
            }
        }
        i = i + 1;
    }
    let ghost before = text_models(dirs@);
    dirs.push(path.substring_char(start, n).to_owned());
    proof {
        assert(text_models(dirs@) =~= before.push(path@.subrange(start as int, n as int)));
        assert(path@.take(n as int) =~= path@);
    }
    dirs
}

fn join_path(dir: &String, name: &str) -> (joined: String)
    ensures
        joined@ == joined_path(dir@, name@),
{
    let mut out = dir.clone();
    let n = dir.as_str().unicode_len();
    if n == 0 || dir.as_str().get_char(n - 1) != '/' {
        out.append("/");
    }
    out.append(name);
    out
}

/// The paths of a bare executable name in each nonempty directory, in order.
pub fn search_paths(dirs: &Vec<String>, name: &str) -> (candidates: Vec<String>)
    ensures
        text_models(candidates@) == path_candidates(text_models(dirs@), name@),
{
    let ghost d = text_models(dirs@);
    let mut out: Vec<String> = Vec::new();
    let mut i: usize = 0;
    while i < dirs.len()
        invariant
            i <= dirs@.len(),
            d == text_models(dirs@),
            text_models(out@) == path_candidates(d.take(i as int), name@),
        decreases dirs@.len() - i,
    {
        proof {
            assert(d.take(i + 1).drop_last() =~= d.take(i as int));
            assert(d.take(i + 1).last() == dirs@[i as int]@);
        }
        if dirs[i].as_str().unicode_len() != 0 {
            let ghost before = text_models(out@);
            let joined = join_path(&dirs[i], name);
            out.push(joined);
            assert(text_models(out@) =~= before.push(joined_path(dirs@[i as int]@, name@)));
        }
        i = i + 1;
    }
    assert(d.take(dirs@.len() as int) =~= d);
    out
}

fn text_listed(files: &Vec<String>, x: &String) -> (listed: bool)
    ensures
        listed == text_models(files@).contains(x@),
{
    let mut j: usize = 0;
    while j < files.len()
        invariant
            j <= files@.len(),
            forall|k: int| 0 <= k < j ==> #[trigger] files@[k]@ != x@,
        decreases files@.len() - j,
    {
        if files[j] == *x {
            assert(text_models(files@)[j as int] == x@);
            return true;
        }
        j = j + 1;
    }
    assert forall|k: int| 0 <= k < text_models(files@).len() implies #[trigger] text_models(
        files@,
    )[k] != x@ by {
        assert(files@[k]@ != x@);
    }
    false
}

/// The first candidate that is among the listed regular files.
pub fn first_regular_file(candidates: &Vec<String>, regular_files: &Vec<String>) -> (found: Option<
    String,
>)
    ensures
        match found {
            Some(f) => first_listed(text_models(candidates@), text_models(regular_files@)) == Some(
                f@,
            ),
            None => first_listed(text_models(candidates@), text_models(regular_files@)) is None,
        },
{
    let ghost c = text_models(candidates@);
    let ghost files = text_models(regular_files@);
    let mut i: usize = 0;
    assert(c.skip(0) =~= c);
    while i < candidates.len()
        invariant
            i <= candidates@.len(),
            c == text_models(candidates@),
            files == text_models(regular_files@),
            first_listed(c, files) == first_listed(c.skip(i as int), files),
        decreases candidates@.len() - i,
    {
        proof {
            assert(c.skip(i as int)[0] == candidates@[i as int]@);
            assert(c.skip(i as int).drop_first() =~= c.skip(i + 1));
        }
        if text_listed(regular_files, &candidates[i]) {
            return Some(candidates[i].clone());
        }
        i = i + 1;
    }
    assert(c.skip(i as int) =~= Seq::<Seq<char>>::empty());
    None
}

fn filter_environment(environment: &Vec<(String, String)>, allow: &Vec<String>) -> (env: EnvironmentMap)
    ensures
        env@ == allowed_environment(environment@, allow@),
{
    let mut env = EnvironmentMap::new();
    let mut i: usize = 0;
    while i < environment.len()
        invariant
            i <= environment@.len(),
            env@ == allowed_environment(environment@.take(i as int), allow@),
        decreases environment@.len() - i,
    {
        proof {
            assert(environment@.take(i + 1).drop_last() =~= environment@.take(i as int));
            assert(environment@.take(i + 1).last() == environment@[i as int]);
        }
        if name_allowed(allow, &environment[i].0) {
            env.insert(environment[i].0.clone(), environment[i].1.clone());
        }
        i = i + 1;
    }
    assert(environment@.take(environment@.len() as int) =~= environment@);
    env
}

/// The files searched for an executable under a resolved environment's `PATH`.
pub fn executable_candidates(executable: &str, environment: &EnvironmentMap) -> (candidates: Vec<
    String,
>)
    ensures
        text_models(candidates@) == search_candidates(executable@, inherited_path(environment@)),
{
    if absolute_path_ok(executable) {
        return Vec::new();
    }
    match environment.get("PATH") {
        Some(path) => {
            let dirs = path_dirs(path.as_str());
            search_paths(&dirs, executable)
        },
        None => Vec::new(),
    }
}

/// What resolving a profile ID and Kind under an environment gives.
pub enum Resolution {
    /// No profile has the ID.
    NotFound,
    /// The profile accepts another Kind.
    KindMismatch,
    /// The profile's bare executable name is no regular file on the inherited `PATH`.
    ExecutableNotFound { executable: Seq<char> },
    /// The registered profile, the executable it runs, and its inherited environment.
    Resolved {
        entry: ProfileEntryModel,
        executable: Seq<char>,
        environment: Map<Seq<char>, Seq<char>>,
    },
}

/// Resolution of exactly the selected ID and Kind: the environment is filtered to the names
/// the profile declares, and a bare executable is searched for on the filtered `PATH` among
/// the given regular files.
pub open spec fn resolution(
    registry: Map<Seq<char>, ProfileEntryModel>,
    id: Seq<char>,
    kind: HarnessKind,
    environment: Seq<(String, String)>,
    regular_files: Seq<Seq<char>>,
) -> Resolution {
    if !registry.dom().contains(id) {
        Resolution::NotFound
    } else if registry[id].profile.kind != kind {
        Resolution::KindMismatch
    } else {
        let entry = registry[id];
        let env = allowed_environment(environment, entry.profile.inherit_env@);
        match resolved_executable(entry.profile.executable@, inherited_path(env), regular_files) {
            Some(executable) => Resolution::Resolved { entry, executable, environment: env },
            None => Resolution::ExecutableNotFound { executable: entry.profile.executable@ },
        }
    }
}

/// Exact profile selection retained with a Harness Session.
#[derive(Debug)]
pub struct ResolvedLaunchProfile {
    /// Parsed, validated public profile.
    pub profile: HarnessLaunchProfileV2,
    /// Exact source file contents.
    pub snapshot: String,
    /// Lowercase SHA-256 of the snapshot.
    pub digest: String,
    /// The executable this launch runs: the profile's absolute path, or the regular file that
    /// its bare name was found as on the inherited `PATH`.
    pub executable: String,
    /// Explicitly inherited environment values that were present.
    pub environment: EnvironmentMap,
}

fn name_allowed(allow: &Vec<String>, name: &String) -> (allowed: bool)
    ensures
        allowed == allows(allow@, name@),
{
    let mut i: usize = 0;
    while i < allow.len()
        invariant
            i <= allow@.len(),
            forall|k: int| 0 <= k < i ==> #[trigger] allow@[k]@ != name@,
        decreases allow@.len() - i,
    {
        if allow[i] == *name {
            return true;
        }
        i = i + 1;
    }
    false
}

impl ProfileRegistry {
    #[verifier::type_invariant]
    spec fn well_formed(self) -> bool {
        &&& ids_ascending(self.entries@)
        &&& digests_match(self.entries@)
    }

    /// An empty registry.
    pub fn new() -> (registry: Self)
        ensures
            registry@ == Map::<Seq<char>, ProfileEntryModel>::empty(),
    {
        ProfileRegistry { entries: Vec::new() }
    }

    /// Registers one decoded profile file: it must satisfy the schema 1 or 2 profile rules,
    /// reference only regular files (`missing_file` names the first of its `referenced_files`
    /// that is not one), and declare an ID not yet registered. A rejected profile leaves the
    /// registry unchanged; an admitted one is stored with its 64-digit snapshot digest.
    pub fn register(
        &mut self,
        path: String,
        snapshot: String,
        profile: HarnessLaunchProfileV2,
        missing_file: Option<String>,
    ) -> (result: Result<(), ProfileError>)
        ensures
            result is Ok <==> profile.failure() is None && missing_file is None && !old(
                self,
            )@.dom().contains(profile.id@),
            result is Ok ==> text_digest(snapshot@).len() == 64,
            result is Ok ==> final(self)@ == old(self)@.insert(
                profile.id@,
                ProfileEntryModel {
                    profile,
                    snapshot: snapshot@,
                    digest: text_digest(snapshot@),
                },
            ),
            result matches Err(e) ==> final(self)@ == old(self)@ && admission_failure(
                e,
                path@,
                profile,
                missing_file,
                old(self)@,
            ),
    {
        proof {
            use_type_invariant(&*self);
            lemma_ascending_unique(self.entries@);
            lemma_keyed_map_dom(
                self.entries@,
                |e: RegistryEntry| entry_id(e),
                |e: RegistryEntry| entry_model(e),
            );
        }
        if let Err(v) = profile.validate() {
            return Err(ProfileError::Validation { path, message: v.to_text() });
        }
        if let Some(file) = missing_file {
            return Err(ProfileError::MissingFile { profile: profile.id.duplicate(), path: file });
        }
        let digest = snapshot_digest(snapshot.as_str());
        let n = self.entries.len();
        let mut j: usize = 0;
        while j < n && bytes_less(
            self.entries[j].profile.id.as_str().as_bytes(),
            profile.id.as_str().as_bytes(),
        )
            invariant
                n == self.entries@.len(),
                j <= n,
                forall|k: int|
                    0 <= k < j ==> lex_less(
                        utf8_bytes(#[trigger] self.entries@[k].profile.id@),
                        utf8_bytes(profile.id@),
                    ),
            decreases n - j,
        {
            j = j + 1;
        }
        let ghost old_entries = self.entries@;
        let ghost new_bytes = utf8_bytes(profile.id@);
        if j < n && self.entries[j].profile.id.same_as(&profile.id) {
            return Err(ProfileError::Duplicate(profile.id.duplicate()));
        }
        proof {
            if j < n {
                let x = utf8_bytes(old_entries[j as int].profile.id@);
                lemma_lex_trichotomy(x, new_bytes);
                lemma_utf8_injective(old_entries[j as int].profile.id@, profile.id@);
            }
            assert forall|k: int| j <= k < n implies lex_less(
                new_bytes,
                utf8_bytes(#[trigger] old_entries[k].profile.id@),
            ) by {
                if k > j {
                    lemma_lex_transitive(
                        new_bytes,
                        utf8_bytes(old_entries[j as int].profile.id@),
                        utf8_bytes(old_entries[k].profile.id@),
                    );
                }
            }
            assert forall|k: int| 0 <= k < n implies entry_id(#[trigger] old_entries[k])
                != profile.id@ by {
                lemma_lex_trichotomy(new_bytes, new_bytes);
            }
            assert(!old(self)@.dom().contains(profile.id@));
        }
        let entry = RegistryEntry { profile, snapshot, digest };
        proof {
            lemma_keyed_map_insert(
                old_entries,
                |e: RegistryEntry| entry_id(e),
                |e: RegistryEntry| entry_model(e),
                j as int,
                entry,
            );
        }
        let mut entries: Vec<RegistryEntry> = Vec::new();
        std::mem::swap(&mut entries, &mut self.entries);
        entries.insert(j, entry);
        proof {
            assert forall|a: int, b: int| 0 <= a < b < entries@.len() implies lex_less(
                utf8_bytes(#[trigger] entries@[a].profile.id@),
                utf8_bytes(#[trigger] entries@[b].profile.id@),
            ) by {
                if a < j && b > j {
                    lemma_lex_transitive(
                        utf8_bytes(old_entries[a].profile.id@),
                        new_bytes,
                        utf8_bytes(old_entries[b - 1].profile.id@),
                    );
                } else if a > j {
                    assert(entries@[a] == old_entries[a - 1]);
                    assert(entries@[b] == old_entries[b - 1]);
                } else if b < j {
                    assert(entries@[a] == old_entries[a]);
                    assert(entries@[b] == old_entries[b]);
                }
            }
        }
        self.entries = entries;
        Ok(())
    }

    /// Loads the decoded profile files of a directory, in the order given (lexical path order,
    /// see [`profile_paths`]): each is registered in turn, and the first refusal is returned.
    #[verifier::loop_isolation(false)]
    pub fn load_files(files: Vec<ProfileFile>) -> (result: Result<ProfileRegistry, ProfileError>)
        ensures
            result is Ok <==> loads(files@),
            result matches Ok(registry) ==> registry@ == loaded_map(files@),
            result matches Err(e) ==> exists|k: int|
                0 <= k < files@.len() && loads(files@.take(k)) && !admits(
                    loaded_map(files@.take(k)),
                    #[trigger] files@[k],
                ) && admission_failure(
                    e,
                    files@[k].path@,
                    files@[k].profile,
                    files@[k].missing_file,
                    loaded_map(files@.take(k)),
                ),
    {
        let ghost all = files@;
        let mut registry = ProfileRegistry::new();
        let mut rest = files;
        let ghost mut done: int = 0;
        proof {
            assert(all.take(0) =~= Seq::<ProfileFile>::empty());
            assert(rest@.skip(0) =~= rest@);
        }
        while rest.len() > 0
            invariant
                0 <= done <= all.len(),
                rest@ == all.skip(done),
                loads(all.take(done)),
                registry@ == loaded_map(all.take(done)),
            decreases rest@.len(),
        {
            let file = rest.remove(0);
            let ghost f = file;
            proof {
                assert(f == all[done]);
                assert(all.take(done + 1).drop_last() =~= all.take(done));
                assert(all.take(done + 1).last() == f);
                assert(rest@ =~= all.skip(done + 1));
            }
            let ProfileFile { path, snapshot, profile, missing_file } = file;
            match registry.register(path, snapshot, profile, missing_file) {
                Ok(()) => {},
                Err(e) => {
                    proof {
                        assert(f.path == path && f.profile == profile && f.missing_file
                            == missing_file);
                        assert(!admits(loaded_map(all.take(done)), all[done]));
                        assert(admission_failure(
                            e,
                            all[done].path@,
                            all[done].profile,
                            all[done].missing_file,
                            loaded_map(all.take(done)),
                        ));
                        lemma_loads_prefix(all, done);
                    }
                    return Err(e);
                },
            }
            proof {
                done = done + 1;
            }
        }
        assert(all.take(done) =~= all);
        Ok(registry)
    }

    /// Lists registered IDs in ascending order without selecting or ranking one.
    pub fn ids(&self) -> (ids: Vec<HarnessId>)
        ensures
            forall|i: int, j: int|
                0 <= i < j < ids@.len() ==> lex_less(
                    utf8_bytes(#[trigger] ids@[i]@),
                    utf8_bytes(#[trigger] ids@[j]@),
                ),
            forall|k: Seq<char>|
                self@.dom().contains(k) <==> exists|i: int|
                    0 <= i < ids@.len() && #[trigger] ids@[i]@ == k,
    {
        proof {
            use_type_invariant(self);
            lemma_ascending_unique(self.entries@);
            lemma_keyed_map_dom(
                self.entries@,
                |e: RegistryEntry| entry_id(e),
                |e: RegistryEntry| entry_model(e),
            );
        }
        let mut ids: Vec<HarnessId> = Vec::new();
        let mut i: usize = 0;
        while i < self.entries.len()
            invariant
                i <= self.entries@.len(),
                ids@.len() == i,
                forall|k: int| 0 <= k < i ==> #[trigger] ids@[k]@ == self.entries@[k].profile.id@,
            decreases self.entries@.len() - i,
        {
            ids.push(self.entries[i].profile.id.duplicate());
            i = i + 1;
        }
        proof {
            assert forall|a: int, b: int| 0 <= a < b < ids@.len() implies lex_less(
                utf8_bytes(#[trigger] ids@[a]@),
                utf8_bytes(#[trigger] ids@[b]@),
            ) by {
                assert(ids@[a]@ == self.entries@[a].profile.id@);
                assert(ids@[b]@ == self.entries@[b].profile.id@);
            }
            assert forall|k: Seq<char>|
                self@.dom().contains(k) <==> exists|i: int|
                    0 <= i < ids@.len() && #[trigger] ids@[i]@ == k by {
                if self@.dom().contains(k) {
                    let i = choose|i: int|
                        0 <= i < self.entries@.len() && #[trigger] entry_id(self.entries@[i]) == k;
                    assert(ids@[i]@ == k);
                }
                if exists|i: int| 0 <= i < ids@.len() && #[trigger] ids@[i]@ == k {
                    let i = choose|i: int| 0 <= i < ids@.len() && #[trigger] ids@[i]@ == k;
                    assert(entry_id(self.entries@[i]) == k);
                }
            }
        }
        ids
    }

    /// Resolves exactly the caller-selected ID and Kind. The environment is filtered to names
    /// explicitly declared by the profile, a later value replacing an earlier one. A bare
    /// executable name is searched for in each directory of the filtered `PATH`, in order;
    /// `regular_files` lists the searched paths that are regular files.
    pub fn resolve(
        &self,
        id: &HarnessId,
        kind: HarnessKind,
        environment: Vec<(String, String)>,
        regular_files: &Vec<String>,
    ) -> (result: Result<ResolvedLaunchProfile, ProfileError>)
        ensures
            match resolution(self@, id@, kind, environment@, text_models(regular_files@)) {
                Resolution::NotFound => result matches Err(ProfileError::NotFound(x)) && x@ == id@,
                Resolution::KindMismatch => result matches Err(
                    ProfileError::KindMismatch { profile: x, actual },
                ) && x@ == id@ && actual == kind,
                Resolution::ExecutableNotFound { executable } => result matches Err(
                    ProfileError::ExecutableNotFound { profile: x, executable: e },
                ) && x@ == id@ && e@ == executable,
                Resolution::Resolved { entry, executable, environment: env } => result matches Ok(
                    r,
                ) && same_profile(r.profile, entry.profile) && r.profile.id@ == id@ && r.snapshot@
                    == entry.snapshot && r.digest@ == entry.digest && r.digest@ == text_digest(
                    r.snapshot@,
                ) && r.digest@.len() == 64 && r.environment@ == env && r.executable@ == executable,
            },
    {
        proof {
            use_type_invariant(self);
            lemma_ascending_unique(self.entries@);
            lemma_keyed_map_dom(
                self.entries@,
                |e: RegistryEntry| entry_id(e),
                |e: RegistryEntry| entry_model(e),
            );
        }
        let n = self.entries.len();
        let mut i: usize = 0;
        while i < n && !self.entries[i].profile.id.same_as(id)
            invariant
                n == self.entries@.len(),
                i <= n,
                forall|k: int| 0 <= k < i ==> #[trigger] entry_id(self.entries@[k]) != id@,
            decreases n - i,
        {
            i = i + 1;
        }
        if i == n {
            return Err(ProfileError::NotFound(id.duplicate()));
        }
        let entry = &self.entries[i];
        assert(self@[id@] == entry_model(self.entries@[i as int]));
        if entry.profile.kind != kind {
            return Err(ProfileError::KindMismatch { profile: id.duplicate(), actual: kind });
        }
        let env = filter_environment(&environment, &entry.profile.inherit_env);
        let executable = if absolute_path_ok(entry.profile.executable.as_str()) {
            entry.profile.executable.clone()
        } else {
            let candidates = executable_candidates(entry.profile.executable.as_str(), &env);
            match first_regular_file(&candidates, regular_files) {
                Some(found) => found,
                None => {
                    return Err(
                        ProfileError::ExecutableNotFound {
                            profile: id.duplicate(),
                            executable: entry.profile.executable.clone(),
                        },
                    );
                },
            }
        };
        Ok(
            ResolvedLaunchProfile {
                profile: entry.profile.clone(),
                snapshot: entry.snapshot.clone(),
                digest: entry.digest.clone(),
                executable,
                environment: env,
            },
        )
    }

    /// The files that resolving `id` under `environment` searches for its bare executable
    /// name, in search order; none for an unregistered ID or an absolute executable.
    pub fn executable_search(&self, id: &HarnessId, environment: &Vec<(String, String)>) -> (candidates: Vec<String>)
        ensures
            self@.dom().contains(id@) ==> text_models(candidates@) == search_candidates(
                self@[id@].profile.executable@,
                inherited_path(allowed_environment(environment@, self@[id@].profile.inherit_env@)),
            ),
            !self@.dom().contains(id@) ==> candidates@.len() == 0,
    {
        proof {
            use_type_invariant(self);
            lemma_ascending_unique(self.entries@);
            lemma_keyed_map_dom(
                self.entries@,
                |e: RegistryEntry| entry_id(e),
                |e: RegistryEntry| entry_model(e),
            );
        }
        let n = self.entries.len();
        let mut i: usize = 0;
        while i < n && !self.entries[i].profile.id.same_as(id)
            invariant
                n == self.entries@.len(),
                i <= n,
                forall|k: int| 0 <= k < i ==> #[trigger] entry_id(self.entries@[k]) != id@,
            decreases n - i,
        {
            i = i + 1;
        }
        if i == n {
            return Vec::new();
        }
        let entry = &self.entries[i];
        assert(self@[id@] == entry_model(self.entries@[i as int]));
        let env = filter_environment(environment, &entry.profile.inherit_env);
        executable_candidates(entry.profile.executable.as_str(), &env)
    }
}

/// One decoded profile file of a profile directory.
#[derive(Debug)]
pub struct ProfileFile {
    /// The file's path.
    pub path: String,
    /// Its exact contents.
    pub snapshot: String,
    /// The profile decoded from it.
    pub profile: HarnessLaunchProfileV2,
    /// The first of its `referenced_files` that is not a regular file, if any.
    pub missing_file: Option<String>,
}

/// What registering a profile file stores.
pub open spec fn file_model(f: ProfileFile) -> ProfileEntryModel {
    ProfileEntryModel {
        profile: f.profile,
        snapshot: f.snapshot@,
        digest: text_digest(f.snapshot@),
    }
}

/// Whether a registry holding `registry` admits a profile file.
pub open spec fn admits(registry: Map<Seq<char>, ProfileEntryModel>, f: ProfileFile) -> bool {
    &&& f.profile.failure() is None
    &&& f.missing_file is None
    &&& !registry.dom().contains(f.profile.id@)
}

/// The registry that loading profile files in order builds, when each is admitted.
pub open spec fn loaded_map(files: Seq<ProfileFile>) -> Map<Seq<char>, ProfileEntryModel>
    decreases files.len(),
{
    if files.len() == 0 {
        Map::empty()
    } else {
        loaded_map(files.drop_last()).insert(files.last().profile.id@, file_model(files.last()))
    }
}

/// Whether every profile file is admitted by the registry the earlier ones built.
pub open spec fn loads(files: Seq<ProfileFile>) -> bool
    decreases files.len(),
{
    files.len() == 0 || (loads(files.drop_last()) && admits(
        loaded_map(files.drop_last()),
        files.last(),
    ))
}

proof fn lemma_loads_prefix(files: Seq<ProfileFile>, k: int)
    requires
        0 <= k < files.len(),
        !admits(loaded_map(files.take(k)), files[k]),
    ensures
        !loads(files),
    decreases files.len(),
{
    if loads(files) {
        if k == files.len() - 1 {
            assert(files.drop_last() =~= files.take(k));
        } else {
            assert(files.drop_last().take(k) =~= files.take(k));
            lemma_loads_prefix(files.drop_last(), k);
        }
    }
}

/// Loading a profile directory stores every file under its own ID, and nothing else; each
/// loaded ID, resolved under its own Kind, gives back that file's profile, exact snapshot,
/// and the snapshot's SHA-256 digest, with the environment filtered to the names the profile
/// declares. An absolute executable resolves to itself (with no environment given, the
/// environment is empty); only a bare name can fail to resolve, when no searched path is a
/// regular file.
pub proof fn loaded_profiles_resolve(
    files: Seq<ProfileFile>,
    k: int,
    environment: Seq<(String, String)>,
    regular_files: Seq<Seq<char>>,
)
    requires
        loads(files),
        0 <= k < files.len(),
    ensures
        loaded_map(files).dom().contains(files[k].profile.id@),
        loaded_map(files)[files[k].profile.id@] == file_model(files[k]),
        forall|id: Seq<char>|
            loaded_map(files).dom().contains(id) <==> exists|j: int|
                0 <= j < files.len() && #[trigger] files[j].profile.id@ == id,
        match resolution(
            loaded_map(files),
            files[k].profile.id@,
            files[k].profile.kind,
            environment,
            regular_files,
        ) {
            Resolution::Resolved { entry, executable, environment: env } => entry == file_model(
                files[k],
            ) && env == allowed_environment(environment, files[k].profile.inherit_env@) && (
            is_absolute_path(utf8_bytes(files[k].profile.executable@)) ==> executable
                == files[k].profile.executable@),
            Resolution::ExecutableNotFound { .. } => !is_absolute_path(
                utf8_bytes(files[k].profile.executable@),
            ),
            _ => false,
        },
        is_absolute_path(utf8_bytes(files[k].profile.executable@)) ==> resolution(
            loaded_map(files),
            files[k].profile.id@,
            files[k].profile.kind,
            Seq::empty(),
            regular_files,
        ) == (Resolution::Resolved {
            entry: file_model(files[k]),
            executable: files[k].profile.executable@,
            environment: Map::empty(),
        }),
    decreases files.len(),
{
    let init = files.drop_last();
    let last = files.last();
    if k < files.len() - 1 {
        loaded_profiles_resolve(init, k, environment, regular_files);
        assert(init[k] == files[k]);
        assert(loaded_map(init).dom().contains(files[k].profile.id@));
        assert(files[k].profile.id@ != last.profile.id@);
    }
    if init.len() > 0 {
        loaded_profiles_resolve(init, 0, environment, regular_files);
    }
    assert(allowed_environment(Seq::<(String, String)>::empty(), files[k].profile.inherit_env@)
        =~= Map::<Seq<char>, Seq<char>>::empty());
    assert forall|id: Seq<char>|
        loaded_map(files).dom().contains(id) <==> exists|j: int|
            0 <= j < files.len() && #[trigger] files[j].profile.id@ == id by {
        if loaded_map(files).dom().contains(id) && id != last.profile.id@ {
            assert(loaded_map(init).dom().contains(id));
            let j = choose|j: int| 0 <= j < init.len() && #[trigger] init[j].profile.id@ == id;
            assert(files[j] == init[j]);
        }
        if id == last.profile.id@ {
            assert(files[files.len() - 1].profile.id@ == id);
        }
        if exists|j: int| 0 <= j < files.len() && #[trigger] files[j].profile.id@ == id {
            let j = choose|j: int| 0 <= j < files.len() && #[trigger] files[j].profile.id@ == id;
            if j < files.len() - 1 {
                assert(init[j] == files[j]);
            }
        }
    }
}

/// A direct child of a profile directory that is a TOML profile: its file name has a nonempty
/// stem and the extension `toml`.
pub open spec fn is_profile_path(b: Seq<u8>) -> bool {
    &&& b.len() > 5
    &&& b.subrange(b.len() - 5, b.len() as int) == seq![46u8, 116u8, 111u8, 109u8, 108u8]
    &&& b[b.len() - 6] != 47u8
}

/// Whether a directory child is a TOML profile.
pub fn profile_path_ok(path: &str) -> (ok: bool)
    ensures
        ok == is_profile_path(utf8_bytes(path@)),
{
    let b = path.as_bytes();
    let n = b.len();
    if n <= 5 {
        return false;
    }
    let ok = b[n - 5] == 46 && b[n - 4] == 116 && b[n - 3] == 111 && b[n - 2] == 109 && b[n - 1]
        == 108 && b[n - 6] != 47;
    proof {
        let t = b@.subrange(n - 5, n as int);
        if ok {
            assert(t =~= seq![46u8, 116u8, 111u8, 109u8, 108u8]);
        } else if b@[n - 6] != 47u8 {
            if t == seq![46u8, 116u8, 111u8, 109u8, 108u8] {
                assert(t[0] == b@[n - 5]);
                assert(t[1] == b@[n - 4]);
                assert(t[2] == b@[n - 3]);
                assert(t[3] == b@[n - 2]);
                assert(t[4] == b@[n - 1]);
            }
        }
    }
    ok
}

/// Inserts a path after every path that does not sort after it.
pub open spec fn insert_path(s: Seq<Seq<u8>>, x: Seq<u8>) -> Seq<Seq<u8>>
    decreases s.len(),
{
    if s.len() == 0 {
        seq![x]
    } else if !lex_less(x, s.last()) {
        s.push(x)
    } else {
        insert_path(s.drop_last(), x).push(s.last())
    }
}

/// Paths in lexical byte order, equal paths keeping their order.
pub open spec fn sorted_paths(s: Seq<Seq<u8>>) -> Seq<Seq<u8>>
    decreases s.len(),
{
    if s.len() == 0 {
        s
    } else {
        insert_path(sorted_paths(s.drop_last()), s.last())
    }
}

/// No path sorts before an earlier one.
pub open spec fn paths_ascending(s: Seq<Seq<u8>>) -> bool {
    forall|i: int, j: int| 0 <= i < j < s.len() ==> !lex_less(s[j], s[i])
}

/// The byte texts of a list of paths.
pub open spec fn path_bytes(paths: Seq<String>) -> Seq<Seq<u8>> {
    paths.map_values(|p: String| utf8_bytes(p@))
}

/// The TOML profile paths among a directory's children, in lexical byte order.
pub open spec fn profile_paths_of(paths: Seq<String>) -> Seq<Seq<u8>> {
    sorted_paths(path_bytes(paths).filter(|b: Seq<u8>| is_profile_path(b)))
}

proof fn lemma_insert_path_facts(s: Seq<Seq<u8>>, x: Seq<u8>)
    ensures
        insert_path(s, x).to_multiset() =~= s.to_multiset().insert(x),
        forall|k: int|
            0 <= k < insert_path(s, x).len() ==> #[trigger] insert_path(s, x)[k] == x || s.contains(
                insert_path(s, x)[k],
            ),
        paths_ascending(s) ==> paths_ascending(insert_path(s, x)),
    decreases s.len(),
{
    broadcast use vstd::seq_lib::group_to_multiset_ensures;

    let r = insert_path(s, x);
    if s.len() == 0 {
        assert(seq![x] =~= Seq::<Seq<u8>>::empty().push(x));
        assert(s =~= Seq::<Seq<u8>>::empty());
    } else if !lex_less(x, s.last()) {
        assert forall|k: int| 0 <= k < r.len() implies #[trigger] r[k] == x || s.contains(r[k]) by {
            if k < s.len() {
                assert(r[k] == s[k]);
            }
        }
        if paths_ascending(s) {
            assert forall|i: int, j: int| 0 <= i < j < r.len() implies !lex_less(r[j], r[i]) by {
                if j == s.len() && i < s.len() - 1 {
                    lemma_lex_trichotomy(s[i], s.last());
                    lemma_lex_trichotomy(x, s.last());
                    if lex_less(x, s[i]) {
                        if lex_less(s[i], s.last()) {
                            lemma_lex_transitive(x, s[i], s.last());
                        }
                    }
                }
            }
        }
    } else {
        let d = s.drop_last();
        let rd = insert_path(d, x);
        lemma_insert_path_facts(d, x);
        assert(s =~= d.push(s.last()));
        assert forall|k: int| 0 <= k < r.len() implies #[trigger] r[k] == x || s.contains(r[k]) by {
            if k < rd.len() {
                assert(r[k] == rd[k]);
                if rd[k] != x {
                    let m = choose|m: int| 0 <= m < d.len() && d[m] == rd[k];
                    assert(s[m] == rd[k]);
                }
            } else {
                assert(r[k] == s[s.len() - 1]);
            }
        }
        if paths_ascending(s) {
            assert(paths_ascending(d));
            lemma_lex_trichotomy(x, s.last());
            assert forall|i: int, j: int| 0 <= i < j < r.len() implies !lex_less(r[j], r[i]) by {
                if j == rd.len() {
                    assert(r[i] == rd[i]);
                    if rd[i] != x {
                        assert(d.contains(rd[i]));
                        let m = choose|m: int| 0 <= m < d.len() && d[m] == rd[i];
                        assert(s[m] == rd[i]);
                    }
                } else {
                    assert(r[i] == rd[i] && r[j] == rd[j]);
                }
            }
        }
    }
}

/// Profiles load in lexical byte order of their paths: the order holds exactly the given
/// paths, each as often as given, and no path sorts before an earlier one.
pub proof fn lemma_sorted_paths_is_ordered_permutation(s: Seq<Seq<u8>>)
    ensures
        sorted_paths(s).to_multiset() =~= s.to_multiset(),
        paths_ascending(sorted_paths(s)),
    decreases s.len(),
{
    broadcast use vstd::seq_lib::group_to_multiset_ensures;

    if s.len() > 0 {
        lemma_sorted_paths_is_ordered_permutation(s.drop_last());
        lemma_insert_path_facts(sorted_paths(s.drop_last()), s.last());
        assert(s =~= s.drop_last().push(s.last()));
    }
}

proof fn lemma_insert_path_at(s: Seq<Seq<u8>>, x: Seq<u8>, j: int)
    requires
        0 <= j <= s.len(),
        j == 0 || !lex_less(x, s[j - 1]),
        forall|k: int| j <= k < s.len() ==> lex_less(x, #[trigger] s[k]),
    ensures
        insert_path(s, x) == s.insert(j, x),
    decreases s.len(),
{
    if s.len() == 0 {
        assert(s.insert(j, x) =~= seq![x]);
    } else if j == s.len() {
        assert(s.insert(j, x) =~= s.push(x));
    } else {
        assert(lex_less(x, s[s.len() - 1]));
        lemma_insert_path_at(s.drop_last(), x, j);
        assert(s.drop_last().insert(j, x).push(s.last()) =~= s.insert(j, x));
    }
}

/// Selects the TOML profiles among a directory's children, in lexical byte order of their
/// paths.
pub fn profile_paths(children: Vec<String>) -> (paths: Vec<String>)
    ensures
        path_bytes(paths@) == profile_paths_of(children@),
{
    let ghost input = path_bytes(children@);
    let ghost keep = |b: Seq<u8>| is_profile_path(b);
    let mut out: Vec<String> = Vec::new();
    let mut i: usize = 0;
    while i < children.len()
        invariant
            i <= children@.len(),
            input == path_bytes(children@),
            keep == (|b: Seq<u8>| is_profile_path(b)),
            path_bytes(out@) == sorted_paths(input.take(i as int).filter(keep)),
        decreases children@.len() - i,
    {
        let path = &children[i];
        proof {
            assert(input.take(i + 1).drop_last() =~= input.take(i as int));
            assert(input.take(i + 1).last() == utf8_bytes(path@));
            input.take(i as int).lemma_filter_push(utf8_bytes(path@), keep);
            assert(input.take(i as int).push(utf8_bytes(path@)) =~= input.take(i + 1));
        }
        if profile_path_ok(path.as_str()) {
            let ghost before = path_bytes(out@);
            let x = path.as_str().as_bytes();
            let mut j = out.len();
            while j > 0 && bytes_less(x, out[j - 1].as_str().as_bytes())
                invariant
                    j <= out@.len(),
                    before == path_bytes(out@),
                    x@ == utf8_bytes(path@),
                    forall|k: int| j <= k < out@.len() ==> lex_less(x@, #[trigger] before[k]),
                decreases j,
            {
                j = j - 1;
            }
            proof {
                lemma_insert_path_at(before, x@, j as int);
                let f = input.take(i as int).filter(keep);
                assert(input.take(i + 1).filter(keep) == f.push(utf8_bytes(path@)));
                assert(f.push(utf8_bytes(path@)).drop_last() =~= f);
            }
            out.insert(j, path.clone());
            assert(path_bytes(out@) =~= before.insert(j as int, x@));
        } else {
            proof {
                assert(input.take(i + 1).filter(keep) == input.take(i as int).filter(keep));
            }
        }
        i = i + 1;
    }
    assert(input.take(children@.len() as int) =~= input);
    out
}

/// The files a profile references, in the order they are checked: its executable when that is
/// an absolute path, then each configuration overlay. A bare executable name is searched for
/// when a session is resolved.
pub fn referenced_files(profile: &HarnessLaunchProfileV2) -> (files: Vec<String>)
    ensures
        text_models(files@) == (if is_absolute_path(utf8_bytes(profile.executable@)) {
            seq![profile.executable@]
        } else {
            Seq::<Seq<char>>::empty()
        }) + text_models(profile.config_overlays@),
{
    let mut files: Vec<String> = Vec::new();
    if absolute_path_ok(profile.executable.as_str()) {
        files.push(profile.executable.clone());
    }
    let ghost first = text_models(files@);
    let mut i: usize = 0;
    while i < profile.config_overlays.len()
        invariant
            i <= profile.config_overlays@.len(),
            first == (if is_absolute_path(utf8_bytes(profile.executable@)) {
                seq![profile.executable@]
            } else {
                Seq::<Seq<char>>::empty()
            }),
            text_models(files@) == first + text_models(profile.config_overlays@.take(i as int)),
        decreases profile.config_overlays@.len() - i,
    {
        let ghost before = text_models(files@);
        let overlay = profile.config_overlays[i].clone();
        files.push(overlay);
        proof {
            assert(text_models(files@) =~= before.push(profile.config_overlays@[i as int]@));
            assert(text_models(profile.config_overlays@.take(i + 1)) =~= text_models(
                profile.config_overlays@.take(i as int),
            ).push(profile.config_overlays@[i as int]@));
            assert(text_models(files@) =~= first + text_models(
                profile.config_overlays@.take(i + 1),
            ));
        }
        i = i + 1;
    }
    assert(profile.config_overlays@.take(profile.config_overlays@.len() as int)
        =~= profile.config_overlays@);
    files
}

/// What registering a profile writes, resolving its ID reads back: the profile itself under
/// its own Kind, its exact snapshot, and the snapshot's digest; every other ID keeps what it
/// held.
pub proof fn registered_profile_resolves(
    before: Map<Seq<char>, ProfileEntryModel>,
    profile: HarnessLaunchProfileV2,
    snapshot: Seq<char>,
    other: Seq<char>,
)
    ensures
        ({
            let after = before.insert(
                profile.id@,
                ProfileEntryModel { profile, snapshot, digest: text_digest(snapshot) },
            );
            &&& after.dom().contains(profile.id@)
            &&& after[profile.id@].profile == profile
            &&& after[profile.id@].snapshot == snapshot
            &&& after[profile.id@].digest == text_digest(snapshot)
            &&& other != profile.id@ ==> (after.dom().contains(other) == before.dom().contains(other)
                && (before.dom().contains(other) ==> after[other] == before[other]))
        }),
{
}

/// A resolved environment holds only names the profile declares, each with a value the caller
/// supplied for it, the last one supplied.
pub proof fn resolved_environment_is_declared(pairs: Seq<(String, String)>, allow: Seq<String>, name: Seq<char>)
    ensures
        allowed_environment(pairs, allow).dom().contains(name) ==> allows(allow, name),
        allowed_environment(pairs, allow).dom().contains(name) ==> exists|k: int|
            0 <= k < pairs.len() && #[trigger] pairs[k].0@ == name && pairs[k].1@ == allowed_environment(
                pairs,
                allow,
            )[name] && forall|j: int| k < j < pairs.len() ==> #[trigger] pairs[j].0@ != name,
    decreases pairs.len(),
{
    if pairs.len() > 0 {
        let init = pairs.drop_last();
        resolved_environment_is_declared(init, allow, name);
        let last = pairs.last();
        let env = allowed_environment(pairs, allow);
        if env.dom().contains(name) {
            if allows(allow, last.0@) && last.0@ == name {
                let k = pairs.len() - 1;
                assert(pairs[k].0@ == name);
            } else {
                let k = choose|k: int|
                    0 <= k < init.len() && #[trigger] init[k].0@ == name && init[k].1@ == allowed_environment(
                        init,
                        allow,
                    )[name] && forall|j: int| k < j < init.len() ==> #[trigger] init[j].0@ != name;
                assert(pairs[k] == init[k]);
                assert forall|j: int| k < j < pairs.len() implies #[trigger] pairs[j].0@ != name by {
                    if j < init.len() {
                        assert(pairs[j] == init[j]);
                    } else {
                        if allows(allow, last.0@) {
                        } else {
                            if last.0@ == name {
                                assert(!allows(allow, name));
                            }
                        }
                    }
                }
            }
        }
    }
}

} // verus!
