//! Component descriptors: specifier parsing, version classification, and the
//! checkout strategy derived from the classified version.
//!
//! A specifier has the form `<group>/<name>[@<version>]`. It is split on the
//! two separators `/` and `@`; the first token is the group, the second the
//! name, and the remaining tokens are rejoined with `/` (so a branch name may
//! itself contain slashes). When no version token is present, the version
//! defaults to the literal `current`.

use vstd::prelude::*;
use crate::configuration::Configuration;
use crate::errors::SpecifierParseError;
use crate::task_runner::{ExternalCommand, TaskRunner, is_git_clone, is_git_fetch, is_git_pull,
    is_npm_install, is_npm_run};

verus! {

use vstd::string::*;

/// A checkout still to be decided: the decision needs the ref the working
/// copy currently sits on, which is only known once the repository has been
/// fetched and probed.
pub struct CheckoutRequest {
    pub project_name: String,
    pub target_ref: String,
    pub create_new_branch: bool,
}

/// The planned fetch phase of one component. Its steps run in field order:
/// clone (only when the working directory is absent), fetch, pull (only when
/// asked for), and the checkout decision (absent when the working copy is
/// used as it stands).
pub struct FetchPlan {
    pub clone_command: Option<ExternalCommand>,
    pub fetch_command: ExternalCommand,
    pub pull_command: Option<ExternalCommand>,
    pub checkout: Option<CheckoutRequest>,
}

/// The full plan of one component, in the order its phases run: fetch, then
/// dependency install, then run.
pub struct ComponentPlan {
    pub fetch: FetchPlan,
    pub install_command: Option<ExternalCommand>,
    pub run_command: ExternalCommand,
}

/// The closed classification of a version string, in priority order: the
/// literal `latest`, the empty string, a commit hash, a tag, and lastly an
/// arbitrary branch name.
#[derive(Clone, Copy, Debug, PartialEq, Eq, Structural)]
pub enum VersionType {
    Latest,
    CommitHash,
    Tag,
    Branch,
    Current,
}

pub open spec fn is_ascii_digit(c: char) -> bool {
    '0' <= c && c <= '9'
}

pub open spec fn is_lower_hex_digit(c: char) -> bool {
    is_ascii_digit(c) || ('a' <= c && c <= 'f')
}

/// A commit hash: a standalone token of 5 to 40 lowercase hexadecimal
/// characters.
pub open spec fn is_commit_hash(v: Seq<char>) -> bool {
    &&& 5 <= v.len() <= 40
    &&& forall|i: int| 0 <= i < v.len() ==> is_lower_hex_digit(#[trigger] v[i])
}

/// A tag: begins with a digit or a literal dot, followed by at least one
/// further character.
pub open spec fn is_tag_version(v: Seq<char>) -> bool {
    v.len() >= 2 && (is_ascii_digit(v[0]) || v[0] == '.')
}

/// Priority-ordered classification: the first matching rule wins. The parser
/// substitutes the literal `current` for an absent version, and that literal
/// matches none of the first four rules, so a descriptor built from a
/// version-less specifier is classified as `Branch` (a branch literally named
/// `current`); `Current` fires only on the empty string.
pub open spec fn spec_version_type(v: Seq<char>) -> VersionType {
    if v == "latest"@ {
        VersionType::Latest
    } else if v.len() == 0 {
        VersionType::Current
    } else if is_commit_hash(v) {
        VersionType::CommitHash
    } else if is_tag_version(v) {
        VersionType::Tag
    } else {
        VersionType::Branch
    }
}

/// The two token separators of a specifier.
pub open spec fn is_sep(c: char) -> bool {
    c == '/' || c == '@'
}

pub open spec fn no_sep(s: Seq<char>) -> bool {
    forall|i: int| 0 <= i < s.len() ==> !is_sep(#[trigger] s[i])
}

/// Index of the first separator, if any.
pub open spec fn first_sep(s: Seq<char>) -> Option<int>
    decreases s.len(),
{
    if s.len() == 0 {
        None
    } else if is_sep(s[0]) {
        Some(0)
    } else {
        match first_sep(s.drop_first()) {
            None => None,
            Some(i) => Some(i + 1),
        }
    }
}

proof fn lemma_first_sep_at(s: Seq<char>, i: int)
    requires
        0 <= i < s.len(),
        is_sep(s[i]),
        forall|k: int| 0 <= k < i ==> !is_sep(#[trigger] s[k]),
    ensures
        first_sep(s) == Some(i),
    decreases i,
{
    if i > 0 {
        assert(!is_sep(s[0]));
        assert forall|k: int| 0 <= k < i - 1 implies !is_sep(#[trigger] s.drop_first()[k]) by {
            assert(s.drop_first()[k] == s[k + 1]);
        }
        assert(s.drop_first()[i - 1] == s[i]);
        lemma_first_sep_at(s.drop_first(), i - 1);
    }
}

proof fn lemma_first_sep_none(s: Seq<char>)
    requires
        no_sep(s),
    ensures
        first_sep(s) is None,
    decreases s.len(),
{
    if s.len() > 0 {
        assert forall|k: int| 0 <= k < s.drop_first().len() implies !is_sep(
            #[trigger] s.drop_first()[k],
        ) by {
            assert(s.drop_first()[k] == s[k + 1]);
        }
        lemma_first_sep_none(s.drop_first());
    }
}

/// The version text rebuilt from the tokens that follow the name: rejoining
/// the tokens with `/` is the same as writing every separator as `/`.
pub open spec fn rejoined_version(s: Seq<char>) -> Seq<char> {
    Seq::new(s.len(), |i: int| if s[i] == '@' { '/' } else { s[i] })
}

/// What parsing a raw specifier yields: group, name and version texts, or the
/// error. The group is everything before the first separator, the name
/// everything between the first and the second, and the version the rejoined
/// remainder, defaulting to `current` when empty. A specifier without any
/// separator, or with an empty group or name token, is malformed.
pub open spec fn spec_parse(raw: Seq<char>) -> Result<
    (Seq<char>, Seq<char>, Seq<char>),
    SpecifierParseError,
> {
    match first_sep(raw) {
        None => Err(SpecifierParseError::MissingName),
        Some(i) => {
            let group = raw.subrange(0, i);
            let rest = raw.subrange(i + 1, raw.len() as int);
            let fields = match first_sep(rest) {
                None => (rest, "current"@),
                Some(j) => {
                    let tail = rest.subrange(j + 1, rest.len() as int);
                    (
                        rest.subrange(0, j),
                        if tail.len() == 0 {
                            "current"@
                        } else {
                            rejoined_version(tail)
                        },
                    )
                },
            };
            if group.len() == 0 {
                Err(SpecifierParseError::EmptyGroup)
            } else if fields.0.len() == 0 {
                Err(SpecifierParseError::EmptyName)
            } else {
                Ok((group, fields.0, fields.1))
            }
        },
    }
}

/// Finds the first separator at or after `from`.
fn find_sep(s: &str, from: usize) -> (r: Option<usize>)
    requires
        from <= s@.len(),
    ensures
        r matches Some(i) ==> from <= i < s@.len() && is_sep(s@[i as int]) && forall|k: int|
            from <= k < i ==> !is_sep(#[trigger] s@[k]),
        r is None ==> forall|k: int| from <= k < s@.len() ==> !is_sep(#[trigger] s@[k]),
{
    let n = s.unicode_len();
    let mut i = from;
    while i < n
        invariant
            from <= i <= n,
            n == s@.len(),
            forall|k: int| from <= k < i ==> !is_sep(#[trigger] s@[k]),
        decreases n - i,
    {
        let c = s.get_char(i);
        if c == '/' || c == '@' {
            return Some(i);
        }
        i += 1;
    }
    None
}

/// Relies on `String::push`: appends one character.
#[verifier::external_body]
fn push_char(s: &mut String, c: char)
    ensures
        final(s)@ == old(s)@.push(c),
{
    s.push(c);
}

/// Rebuilds the version text from everything after the name token, writing
/// each separator as `/`.
fn build_version(s: &str, start: usize) -> (v: String)
    requires
        start <= s@.len(),
    ensures
        v@ == rejoined_version(s@.subrange(start as int, s@.len() as int)),
{
    let n = s.unicode_len();
    let mut out = String::new();
    let mut i = start;
    while i < n
        invariant
            start <= i <= n,
            n == s@.len(),
            out@ == rejoined_version(s@.subrange(start as int, i as int)),
        decreases n - i,
    {
        let c = s.get_char(i);
        if c == '@' {
            push_char(&mut out, '/');
        } else {
            push_char(&mut out, c);
        }
        proof {
            assert(out@ =~= rejoined_version(s@.subrange(start as int, i + 1)));
        }
        i += 1;
    }
    out
}

/// Compares two string slices by their character sequences.
fn str_eq(a: &str, b: &str) -> (r: bool)
    ensures
        r == (a@ == b@),
{
    let x = a.to_owned();
    let y = b.to_owned();
    x == y
}

/// The ref checked out for a classified version: `master` for `Latest`,
/// `tag/<version>` for a tag, and the version text itself otherwise.
pub open spec fn spec_target_ref(kind: VersionType, version: Seq<char>) -> Seq<char> {
    match kind {
        VersionType::Latest => "master"@,
        VersionType::Tag => "tag/"@ + version,
        _ => version,
    }
}

/// Landing on a commit or tag takes a fresh local branch; the other kinds are
/// already branches (or skip checkout).
pub open spec fn spec_requires_new_branch(kind: VersionType) -> bool {
    kind == VersionType::CommitHash || kind == VersionType::Tag
}

/// The SSH-style remote URL of a component's repository.
pub open spec fn spec_repo_url(host: Seq<char>, group: Seq<char>, name: Seq<char>) -> Seq<char> {
    "git@"@ + host + ":"@ + group + "/"@ + name + ".git"@
}

/// The name of a classification, as a reporting line shows it.
pub open spec fn spec_version_type_name(kind: VersionType) -> Seq<char> {
    match kind {
        VersionType::Latest => "Latest"@,
        VersionType::CommitHash => "CommitHash"@,
        VersionType::Tag => "Tag"@,
        VersionType::Branch => "Branch"@,
        VersionType::Current => "Current"@,
    }
}

/// One linked component: its group, name, raw version text, and the
/// classification derived from that text.
#[derive(Debug)]
pub struct Microfrontend {
    pub project_name: String,
    pub project_group: String,
    pub version: String,
    pub version_type: VersionType,
}

/// The ordered collection of descriptors built from the full set of supplied
/// specifiers. Order is kept for reporting; the components are treated as
/// mutually independent.
#[derive(Debug)]
pub struct Microfrontends(pub Vec<Microfrontend>);

impl Microfrontend {
    /// A well-formed descriptor: non-empty separator-free group and name, a
    /// non-empty version without `@`, and a classification that is exactly
    /// the one derived from the version text.
    pub open spec fn wf(self) -> bool {
        &&& self.project_group@.len() > 0
        &&& no_sep(self.project_group@)
        &&& self.project_name@.len() > 0
        &&& no_sep(self.project_name@)
        &&& self.version@.len() > 0
        &&& forall|i: int| 0 <= i < self.version@.len() ==> #[trigger] self.version@[i] != '@'
        &&& self.version_type == spec_version_type(self.version@)
    }

    /// Two descriptors carry the same component: equal field texts and equal
    /// classification.
    pub open spec fn same_descriptor(self, other: Microfrontend) -> bool {
        &&& self.project_group@ == other.project_group@
        &&& self.project_name@ == other.project_name@
        &&& self.version@ == other.version@
        &&& self.version_type == other.version_type
    }

    /// Parses one raw specifier into a descriptor. Succeeds exactly on the
    /// well-formed specifiers: those with at least two tokens, whose group
    /// and name tokens are non-empty. The descriptor is immutable once built;
    /// its classification is computed here and never set by hand.
    pub fn from_raw_format(raw: String) -> (r: Result<Microfrontend, SpecifierParseError>)
        ensures
            r matches Ok(m) ==> spec_parse(raw@) == Ok::<_, SpecifierParseError>(
                (m.project_group@, m.project_name@, m.version@),
            ) && m.wf(),
            r matches Err(e) ==> spec_parse(raw@) == Err::<(Seq<char>, Seq<char>, Seq<char>), _>(
                e,
            ),
    {
        let s = raw.as_str();
        let n = s.unicode_len();
        let sep1 = find_sep(s, 0);
        let i1 = match sep1 {
            None => {
                proof {
                    lemma_first_sep_none(raw@);
                }
                return Err(SpecifierParseError::MissingName);
            },
            Some(i) => i,
        };
        proof {
            lemma_first_sep_at(raw@, i1 as int);
        }
        let group = s.substring_char(0, i1).to_owned();
        let ghost rest = raw@.subrange(i1 + 1, n as int);
        let sep2 = find_sep(s, i1 + 1);
        let (name, version) = match sep2 {
            None => {
                proof {
                    assert forall|k: int| 0 <= k < rest.len() implies !is_sep(
                        #[trigger] rest[k],
                    ) by {
                        assert(rest[k] == raw@[i1 + 1 + k]);
                    }
                    lemma_first_sep_none(rest);
                }
                (s.substring_char(i1 + 1, n).to_owned(), String::from_str("current"))
            },
            Some(i2) => {
                proof {
                    assert forall|k: int| 0 <= k < i2 - i1 - 1 implies !is_sep(
                        #[trigger] rest[k],
                    ) by {
                        assert(rest[k] == raw@[i1 + 1 + k]);
                    }
                    assert(rest[i2 - i1 - 1] == raw@[i2 as int]);
                    lemma_first_sep_at(rest, i2 - i1 - 1);
                }
                let name = s.substring_char(i1 + 1, i2).to_owned();
                let built = build_version(s, i2 + 1);
                proof {
                    assert(rest.subrange(0, i2 - i1 - 1) =~= raw@.subrange(i1 + 1, i2 as int));
                    assert(rest.subrange(i2 - i1 - 1 + 1, rest.len() as int) =~= raw@.subrange(
                        i2 + 1,
                        n as int,
                    ));
                }
                let version = if built.unicode_len() == 0 {
                    String::from_str("current")
                } else {
                    built
                };
                (name, version)
            },
        };
        proof {
            assert(group@ =~= raw@.subrange(0, i1 as int));
        }
        if group.unicode_len() == 0 {
            return Err(SpecifierParseError::EmptyGroup);
        }
        if name.unicode_len() == 0 {
            return Err(SpecifierParseError::EmptyName);
        }
        let version_type = Self::get_version_type(version.as_str());
        let m = Microfrontend { project_name: name, project_group: group, version, version_type };
        proof {
            assert forall|k: int| 0 <= k < m.project_group@.len() implies !is_sep(
                #[trigger] m.project_group@[k],
            ) by {
                assert(m.project_group@[k] == raw@[k]);
            }
            assert forall|k: int| 0 <= k < m.project_name@.len() implies !is_sep(
                #[trigger] m.project_name@[k],
            ) by {
                assert(m.project_name@[k] == rest[k]);
            }
            reveal_strlit("current");
            assert forall|i: int| 0 <= i < m.version@.len() implies #[trigger] m.version@[i]
                != '@' by {
                if m.version@ == "current"@ {
                    assert(m.version@[i] == "current"@[i]);
                }
            }
        }
        Ok(m)
    }

    /// What a correct fetch plan for this descriptor holds, given the host,
    /// the pull flag, and whether the component's directory already exists.
    pub open spec fn fetch_plan_ok(
        self,
        host: Seq<char>,
        pull: bool,
        directory_exists: bool,
        p: FetchPlan,
    ) -> bool {
        &&& (p.clone_command is Some <==> !directory_exists)
        &&& (p.clone_command matches Some(c) ==> is_git_clone(
            c,
            spec_repo_url(host, self.project_group@, self.project_name@),
        ))
        &&& is_git_fetch(p.fetch_command, self.project_name@)
        &&& (p.pull_command is Some <==> pull)
        &&& (p.pull_command matches Some(c) ==> is_git_pull(c, self.project_name@))
        &&& (p.checkout is Some <==> self.version_type != VersionType::Current)
        &&& (p.checkout matches Some(cr) ==> {
            &&& cr.project_name@ == self.project_name@
            &&& cr.target_ref@ == spec_target_ref(self.version_type, self.version@)
            &&& cr.create_new_branch == spec_requires_new_branch(self.version_type)
        })
    }

    /// Plans the fetch phase: clone when the working directory is absent,
    /// fetch all remotes, pull when asked to, and check out the target ref
    /// unless the working copy is used as it stands.
    pub fn fetch(&self, target_host: &str, pull: bool, directory_exists: bool) -> (p: FetchPlan)
        ensures
            self.fetch_plan_ok(target_host@, pull, directory_exists, p),
    {
        let clone_command = if !directory_exists {
            let repo_url = self.build_repo_url(target_host);
            Some(TaskRunner::git_clone(repo_url.as_str()))
        } else {
            None
        };
        let fetch_command = TaskRunner::git_fetch(self.project_name.as_str());
        let pull_command = if pull {
            Some(TaskRunner::git_pull(self.project_name.as_str()))
        } else {
            None
        };
        let checkout = if !self.should_use_current_version() {
            Some(
                CheckoutRequest {
                    project_name: self.project_name.clone(),
                    target_ref: self.get_branch(),
                    create_new_branch: self.should_create_new_branch(),
                },
            )
        } else {
            None
        };
        FetchPlan { clone_command, fetch_command, pull_command, checkout }
    }

    /// Plans the dependency install: one invocation exactly when the
    /// dependency-manifest directory is absent or a reinstall is forced.
    pub fn install_dependencies(&self, force_update_all: bool, manifest_exists: bool) -> (c:
        Option<ExternalCommand>)
        ensures
            c is Some <==> (!manifest_exists || force_update_all),
            c matches Some(cmd) ==> is_npm_install(cmd, self.project_name@),
    {
        if !manifest_exists || force_update_all {
            Some(TaskRunner::npm_install(self.project_name.as_str()))
        } else {
            None
        }
    }

    /// Plans the run phase: starting the component's long-running process.
    pub fn run(&self) -> (c: ExternalCommand)
        ensures
            is_npm_run(c, self.project_name@),
    {
        TaskRunner::npm_run(self.project_name.as_str())
    }

    /// Plans all three phases of this component, in the order they run:
    /// fetch, then dependency install, then run.
    pub fn init(&self, config: &Configuration, directory_exists: bool, manifest_exists: bool) -> (p:
        ComponentPlan)
        ensures
            self.fetch_plan_ok(config.target_host@, config.pull, directory_exists, p.fetch),
            p.install_command is Some <==> (!manifest_exists || config.force_update_all),
            p.install_command matches Some(cmd) ==> is_npm_install(cmd, self.project_name@),
            is_npm_run(p.run_command, self.project_name@),
    {
        ComponentPlan {
            fetch: self.fetch(config.target_host.as_str(), config.pull, directory_exists),
            install_command: self.install_dependencies(config.force_update_all, manifest_exists),
            run_command: self.run(),
        }
    }

    /// Makes an independent copy of the descriptor.
    pub fn duplicate(&self) -> (r: Microfrontend)
        ensures
            r.same_descriptor(*self),
            r.version_type == self.version_type,
    {
        Microfrontend {
            project_name: self.project_name.clone(),
            project_group: self.project_group.clone(),
            version: self.version.clone(),
            version_type: self.version_type,
        }
    }

    /// The ref to check out for this descriptor.
    pub fn get_branch(&self) -> (r: String)
        ensures
            r@ == spec_target_ref(self.version_type, self.version@),
    {
        match self.version_type {
            VersionType::Latest => "master".to_owned(),
            VersionType::Tag => {
                let mut t = String::from_str("tag/");
                t.append(self.version.as_str());
                t
            },
            _ => self.version.clone(),
        }
    }

    /// Whether landing on the ref takes a fresh local branch: true exactly
    /// for commits and tags, which are not themselves branches.
    pub fn should_create_new_branch(&self) -> (r: bool)
        ensures
            r == spec_requires_new_branch(self.version_type),
    {
        match self.version_type {
            VersionType::Current => false,
            VersionType::Latest => false,
            VersionType::Branch => false,
            VersionType::CommitHash => true,
            VersionType::Tag => true,
        }
    }

    /// Whether the working copy is used as it stands, skipping checkout
    /// entirely: true exactly for the `Current` classification.
    pub fn should_use_current_version(&self) -> (r: bool)
        ensures
            r == (self.version_type == VersionType::Current),
    {
        match self.version_type {
            VersionType::Current => true,
            _ => false,
        }
    }

    /// The SSH-style remote URL the component is cloned from.
    pub fn build_repo_url(&self, target_host: &str) -> (r: String)
        ensures
            r@ == spec_repo_url(target_host@, self.project_group@, self.project_name@),
    {
        let mut url = String::from_str("git@");
        url.append(target_host);
        url.append(":");
        url.append(self.project_group.as_str());
        url.append("/");
        url.append(self.project_name.as_str());
        url.append(".git");
        proof {
            assert(url@ =~= spec_repo_url(
                target_host@,
                self.project_group@,
                self.project_name@,
            ));
        }
        url
    }

    /// One status line of text for the descriptor: group, name, version and
    /// classification, separated by single spaces.
    pub fn describe(&self) -> (r: String)
        ensures
            r@ == self.project_group@ + " "@ + self.project_name@ + " "@ + self.version@ + " "@
                + spec_version_type_name(self.version_type),
    {
        let mut line = self.project_group.clone();
        line.append(" ");
        line.append(self.project_name.as_str());
        line.append(" ");
        line.append(self.version.as_str());
        line.append(" ");
        let kind = match self.version_type {
            VersionType::Latest => "Latest",
            VersionType::CommitHash => "CommitHash",
            VersionType::Tag => "Tag",
            VersionType::Branch => "Branch",
            VersionType::Current => "Current",
        };
        line.append(kind);
        proof {
            assert(line@ =~= self.project_group@ + " "@ + self.project_name@ + " "@
                + self.version@ + " "@ + spec_version_type_name(self.version_type));
        }
        line
    }

    /// Classifies a version string, trying the rules in priority order.
    pub fn get_version_type(version: &str) -> (t: VersionType)
        ensures
            t == spec_version_type(version@),
    {
        proof {
            reveal_strlit("latest");
        }
        if str_eq(version, "latest") {
            return VersionType::Latest;
        }
        let n = version.unicode_len();
        if n == 0 {
            return VersionType::Current;
        }
        if 5 <= n && n <= 40 {
            let mut all_hex = true;
            let mut i: usize = 0;
            while i < n
                invariant
                    n == version@.len(),
                    i <= n,
                    all_hex == forall|k: int|
                        0 <= k < i ==> is_lower_hex_digit(#[trigger] version@[k]),
                decreases n - i,
            {
                let c = version.get_char(i);
                if !(('0' <= c && c <= '9') || ('a' <= c && c <= 'f')) {
                    all_hex = false;
                }
                i += 1;
            }
            if all_hex {
                return VersionType::CommitHash;
            }
        }
        let c0 = version.get_char(0);
        if n >= 2 && (('0' <= c0 && c0 <= '9') || c0 == '.') {
            return VersionType::Tag;
        }
        VersionType::Branch
    }
}

/// Parsing inverts specifier construction: a specifier written as
/// `<group>/<name>@<version>` from non-empty separator-free group and name
/// tokens and a non-empty version without `@` parses back to exactly those
/// three texts. A version may contain `/`, so branch names with slashes
/// survive the round trip.
pub proof fn lemma_parse_round_trip(group: Seq<char>, name: Seq<char>, version: Seq<char>)
    requires
        group.len() > 0,
        no_sep(group),
        name.len() > 0,
        no_sep(name),
        version.len() > 0,
        forall|i: int| 0 <= i < version.len() ==> #[trigger] version[i] != '@',
    ensures
        spec_parse(group + seq!['/'] + name + seq!['@'] + version) == Ok::<
            _,
            SpecifierParseError,
        >((group, name, version)),
{
    let raw = group + seq!['/'] + name + seq!['@'] + version;
    let gl = group.len() as int;
    let nl = name.len() as int;
    assert(raw[gl] == '/');
    assert forall|k: int| 0 <= k < gl implies !is_sep(#[trigger] raw[k]) by {
        assert(raw[k] == group[k]);
    }
    lemma_first_sep_at(raw, gl);
    let rest = raw.subrange(gl + 1, raw.len() as int);
    assert(rest =~= name + seq!['@'] + version);
    assert(rest[nl] == '@');
    assert forall|k: int| 0 <= k < nl implies !is_sep(#[trigger] rest[k]) by {
        assert(rest[k] == name[k]);
    }
    lemma_first_sep_at(rest, nl);
    let tail = rest.subrange(nl + 1, rest.len() as int);
    assert(tail =~= version);
    assert(rejoined_version(tail) =~= version);
    assert(raw.subrange(0, gl) =~= group);
    assert(rest.subrange(0, nl) =~= name);
}

/// A specifier without a version token parses to the defaulted version text
/// `current`.
pub proof fn lemma_parse_defaults_version(group: Seq<char>, name: Seq<char>)
    requires
        group.len() > 0,
        no_sep(group),
        name.len() > 0,
        no_sep(name),
    ensures
        spec_parse(group + seq!['/'] + name) == Ok::<_, SpecifierParseError>(
            (group, name, "current"@),
        ),
{
    let raw = group + seq!['/'] + name;
    let gl = group.len() as int;
    assert(raw[gl] == '/');
    assert forall|k: int| 0 <= k < gl implies !is_sep(#[trigger] raw[k]) by {
        assert(raw[k] == group[k]);
    }
    lemma_first_sep_at(raw, gl);
    let rest = raw.subrange(gl + 1, raw.len() as int);
    assert(rest =~= name);
    lemma_first_sep_none(rest);
    assert(raw.subrange(0, gl) =~= group);
}

/// The defaulted version text `current` matches none of the first four
/// classification rules (in particular the `Current` rule fires only on the
/// empty string, which the parser never produces), so a version-less
/// specifier is classified as `Branch`: checkout will land on a branch
/// literally named `current`.
pub proof fn lemma_default_version_is_branch()
    ensures
        spec_version_type("current"@) == VersionType::Branch,
{
    reveal_strlit("current");
    reveal_strlit("latest");
    assert("current"@.len() == 7);
    assert(!is_lower_hex_digit("current"@[1]));
    assert(!is_tag_version("current"@));
}

proof fn lemma_repo_url_parts(h: Seq<char>, g: Seq<char>, n: Seq<char>)
    ensures
        spec_repo_url(h, g, n).len() == h.len() + g.len() + n.len() + 10,
        forall|i: int| 0 <= i < h.len() ==> #[trigger] spec_repo_url(h, g, n)[4 + i] == h[i],
        spec_repo_url(h, g, n)[4 + h.len() as int] == ':',
        forall|i: int|
            0 <= i < g.len() ==> #[trigger] spec_repo_url(h, g, n)[5 + h.len() as int + i] == g[i],
        spec_repo_url(h, g, n)[5 + h.len() as int + g.len() as int] == '/',
        forall|i: int|
            0 <= i < n.len() ==> #[trigger] spec_repo_url(h, g, n)[6 + h.len() as int + g.len() as int + i]
                == n[i],
{
    reveal_strlit("git@");
    reveal_strlit(":");
    reveal_strlit("/");
    reveal_strlit(".git");
    assert("git@"@.len() == 4);
    assert(":"@.len() == 1);
    assert("/"@.len() == 1);
    assert(".git"@.len() == 4);
}

/// Repo URL construction is injective per (host, group, name): two triples
/// building the same URL text are equal, provided the hosts hold no `:` and
/// the groups no `/`. Group and name tokens of a parsed specifier are
/// separator-free; a colon inside the host, or a slash inside the group,
/// would make the URL text ambiguous (`git@a:b:c/d.git` reads as host `a`
/// with group `b:c` and as host `a:b` with group `c`).
pub proof fn lemma_repo_url_injective(
    h1: Seq<char>,
    g1: Seq<char>,
    n1: Seq<char>,
    h2: Seq<char>,
    g2: Seq<char>,
    n2: Seq<char>,
)
    requires
        spec_repo_url(h1, g1, n1) == spec_repo_url(h2, g2, n2),
        forall|i: int| 0 <= i < h1.len() ==> #[trigger] h1[i] != ':',
        forall|i: int| 0 <= i < h2.len() ==> #[trigger] h2[i] != ':',
        forall|i: int| 0 <= i < g1.len() ==> #[trigger] g1[i] != '/',
        forall|i: int| 0 <= i < g2.len() ==> #[trigger] g2[i] != '/',
    ensures
        h1 == h2,
        g1 == g2,
        n1 == n2,
{
    lemma_repo_url_parts(h1, g1, n1);
    lemma_repo_url_parts(h2, g2, n2);
    let u = spec_repo_url(h1, g1, n1);
    if h1.len() < h2.len() {
        assert(u[4 + h1.len() as int] == ':');
        assert(u[4 + h1.len() as int] == h2[h1.len() as int]);
        assert(false);
    }
    if h2.len() < h1.len() {
        assert(u[4 + h2.len() as int] == ':');
        assert(u[4 + h2.len() as int] == h1[h2.len() as int]);
        assert(false);
    }
    assert forall|i: int| 0 <= i < h1.len() implies h1[i] == h2[i] by {
        assert(u[4 + i] == h1[i]);
        assert(u[4 + i] == h2[i]);
    }
    assert(h1 =~= h2);
    let a: int = 5 + h1.len() as int;
    if g1.len() < g2.len() {
        assert(u[a + g1.len() as int] == '/');
        assert(u[a + g1.len() as int] == g2[g1.len() as int]);
        assert(false);
    }
    if g2.len() < g1.len() {
        assert(u[a + g2.len() as int] == '/');
        assert(u[a + g2.len() as int] == g1[g2.len() as int]);
        assert(false);
    }
    assert forall|i: int| 0 <= i < g1.len() implies g1[i] == g2[i] by {
        assert(u[a + i] == g1[i]);
        assert(u[a + i] == g2[i]);
    }
    assert(g1 =~= g2);
    assert(n1.len() == n2.len());
    let b: int = 6 + h1.len() as int + g1.len() as int;
    assert forall|i: int| 0 <= i < n1.len() implies n1[i] == n2[i] by {
        assert(u[b + i] == n1[i]);
        assert(u[b + i] == n2[i]);
    }
    assert(n1 =~= n2);
}

} // verus!

