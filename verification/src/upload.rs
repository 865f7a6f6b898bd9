//! Publish orchestrator: the layered credential-resolution policy, the
//! resolution of the target registry from its short name or URL, and the
//! sequential upload loop with its precise failure semantics.
//!
//! Everything interactive or networked — prompting, reading environment
//! variables and the credentials file, the HTTP calls — happens outside the
//! library and hands plain values in; every decision taken on those values
//! is verified here.

use vstd::prelude::*;
use vstd::string::StringExecFns;

verus! {

/// An account with a registry, possibly incomplete.
#[derive(Debug)]
pub struct PublishOpt {
    /// The registry the archives go to: a URL, or a short name to be looked
    /// up in the credentials file.
    pub registry: String,
    /// Username, when given on the command line.
    pub username: Option<String>,
    /// Password, when given on the command line.
    pub password: Option<String>,
    /// Continue past artifacts the index already has.
    pub skip_existing: bool,
}

/// Mathematical value of a `PublishOpt`.
pub ghost struct PublishOptView {
    pub registry: Seq<char>,
    pub username: Option<Seq<char>>,
    pub password: Option<Seq<char>>,
    pub skip_existing: bool,
}

impl View for PublishOpt {
    type V = PublishOptView;

    open spec fn view(&self) -> PublishOptView {
        PublishOptView {
            registry: self.registry@,
            username: match self.username {
                Some(u) => Some(u@),
                None => None,
            },
            password: match self.password {
                Some(p) => Some(p@),
                None => None,
            },
            skip_existing: self.skip_existing,
        }
    }
}

/// One section of the user's credentials file.
#[derive(Debug)]
pub struct PypircSection {
    /// The registry short name the section is keyed by.
    pub name: String,
    pub username: Option<String>,
    pub password: Option<String>,
    pub repository: Option<String>,
}

/// Mathematical value of a section.
pub ghost struct PypircSectionView {
    pub name: Seq<char>,
    pub username: Option<Seq<char>>,
    pub password: Option<Seq<char>>,
    pub repository: Option<Seq<char>>,
}

impl View for PypircSection {
    type V = PypircSectionView;

    open spec fn view(&self) -> PypircSectionView {
        PypircSectionView {
            name: self.name@,
            username: match self.username {
                Some(u) => Some(u@),
                None => None,
            },
            password: match self.password {
                Some(p) => Some(p@),
                None => None,
            },
            repository: match self.repository {
                Some(r) => Some(r@),
                None => None,
            },
        }
    }
}

/// The credentials file, already parsed into sections. Read-only; the
/// library never writes it.
pub struct Pypirc {
    pub sections: Vec<PypircSection>,
}

impl View for Pypirc {
    type V = Seq<PypircSectionView>;

    open spec fn view(&self) -> Seq<PypircSectionView> {
        self.sections@.map_values(|s: PypircSection| s@)
    }
}

/// Case-insensitive equality of two characters, folding only the ASCII
/// letters — the convention the credentials file parser applies to section
/// names.
pub open spec fn char_ci_eq(x: char, y: char) -> bool {
    x == y || ((x as u32) + 32 == (y as u32) && 65 <= x as u32 <= 90) || ((y as u32) + 32 == (
    x as u32) && 65 <= y as u32 <= 90)
}

/// Case-insensitive equality of two strings.
pub open spec fn str_ci_eq(a: Seq<char>, b: Seq<char>) -> bool {
    a.len() == b.len() && forall|i: int| 0 <= i < a.len() ==> char_ci_eq(#[trigger] a[i], b[i])
}

/// Whether two string slices match ignoring ASCII case.
pub fn str_ci_equal(a: &str, b: &str) -> (r: bool)
    ensures
        r == str_ci_eq(a@, b@),
{
    let n = a.unicode_len();
    let m = b.unicode_len();
    if n != m {
        return false;
    }
    let mut i: usize = 0;
    while i < n
        invariant
            0 <= i <= n,
            n == a@.len(),
            n == b@.len(),
            forall|j: int| 0 <= j < i ==> char_ci_eq(#[trigger] a@[j], b@[j]),
        decreases n - i,
    {
        let x = a.get_char(i);
        let y = b.get_char(i);
        let xu = x as u32;
        let yu = y as u32;
        let folded = x == y || (xu + 32 == yu && 65 <= xu && xu <= 90) || (yu + 32 == xu && 65 <= yu
            && yu <= 90);
        if !folded {
            return false;
        }
        i = i + 1;
    }
    true
}

/// First section carrying the given name, compared ignoring ASCII case.
pub open spec fn spec_find_section(sections: Seq<PypircSectionView>, name: Seq<char>) -> Option<
    PypircSectionView,
>
    decreases sections.len(),
{
    if sections.len() == 0 {
        None
    } else if str_ci_eq(sections[0].name, name) {
        Some(sections[0])
    } else {
        spec_find_section(sections.drop_first(), name)
    }
}

fn find_section<'a>(config: &'a Pypirc, name: &str) -> (r: Option<&'a PypircSection>)
    ensures
        match r {
            Some(s) => spec_find_section(config@, name@) == Some(s@),
            None => spec_find_section(config@, name@) is None,
        },
{
    let ghost full = config@;
    proof {
        assert(full.skip(0) =~= full);
    }
    let mut i: usize = 0;
    while i < config.sections.len()
        invariant
            0 <= i <= config.sections.len(),
            full == config@,
            full.len() == config.sections@.len(),
            forall|j: int| 0 <= j < config.sections@.len() ==> full[j] == #[trigger] config.sections@[j]@,
            spec_find_section(config@, name@) == spec_find_section(full.skip(i as int), name@),
        decreases config.sections.len() - i,
    {
        let s = &config.sections[i];
        proof {
            assert(full.skip(i as int)[0] == full[i as int]);
            assert(full.skip(i as int).drop_first() =~= full.skip(i as int + 1));
        }
        if str_ci_equal(s.name.as_str(), name) {
            return Some(s);
        }
        i = i + 1;
    }
    proof {
        assert(full.skip(config.sections@.len() as int) =~= Seq::<PypircSectionView>::empty());
    }
    None
}

/// The username/password pair a credentials-file section yields: present
/// only when the section exists and carries both keys.
pub open spec fn spec_cred_from_config(
    sections: Seq<PypircSectionView>,
    registry_name: Seq<char>,
) -> Option<(Seq<char>, Seq<char>)> {
    match spec_find_section(sections, registry_name) {
        Some(s) => match (s.username, s.password) {
            (Some(u), Some(p)) => Some((u, p)),
            _ => None,
        },
        None => None,
    }
}

/// Reads the username and password for one registry out of the parsed
/// credentials file, if its section holds both.
pub fn load_pypi_cred_from_config(config: &Pypirc, registry_name: &str) -> (r: Option<
    (String, String),
>)
    ensures
        match r {
            Some(cred) => spec_cred_from_config(config@, registry_name@) == Some(
                (cred.0@, cred.1@),
            ),
            None => spec_cred_from_config(config@, registry_name@) is None,
        },
{
    match find_section(config, registry_name) {
        Some(section) => match (&section.username, &section.password) {
            (Some(u), Some(p)) => Some((u.clone(), p.clone())),
            _ => None,
        },
        None => None,
    }
}

/// The fixed username that marks an API token.
pub fn token_username() -> (r: &'static str)
    ensures
        r@ == spec_token_username(),
{
    "__token__"
}

/// Specification of the token sentinel.
pub open spec fn spec_token_username() -> Seq<char> {
    "__token__"@
}

/// How the orchestrator will obtain its credential, decided purely from
/// what is already at hand; prompting is demanded of the caller only by the
/// `Ask` cases.
#[derive(Debug)]
pub enum CredentialPlan {
    /// An API token was supplied: username is the token sentinel and the
    /// token is the secret. Nothing else is consulted.
    Token { secret: String },
    /// The credentials file has both keys for this registry.
    PypircEntry { username: String, password: String },
    /// Username and password were both supplied in the options.
    Given { username: String, password: String },
    /// The username is known; the password must come from the password
    /// sources (environment, cache, prompt).
    AskPassword { username: String },
    /// The username must be prompted for; the password is the supplied one,
    /// or must come from the password sources.
    AskUsername { password: Option<String> },
}

/// Mathematical value of a credential plan.
pub ghost enum CredentialPlanView {
    Token { secret: Seq<char> },
    PypircEntry { username: Seq<char>, password: Seq<char> },
    Given { username: Seq<char>, password: Seq<char> },
    AskPassword { username: Seq<char> },
    AskUsername { password: Option<Seq<char>> },
}

impl View for CredentialPlan {
    type V = CredentialPlanView;

    open spec fn view(&self) -> CredentialPlanView {
        match self {
            CredentialPlan::Token { secret } => CredentialPlanView::Token { secret: secret@ },
            CredentialPlan::PypircEntry { username, password } => CredentialPlanView::PypircEntry {
                username: username@,
                password: password@,
            },
            CredentialPlan::Given { username, password } => CredentialPlanView::Given {
                username: username@,
                password: password@,
            },
            CredentialPlan::AskPassword { username } => CredentialPlanView::AskPassword {
                username: username@,
            },
            CredentialPlan::AskUsername { password } => CredentialPlanView::AskUsername {
                password: match password {
                    Some(p) => Some(p@),
                    None => None,
                },
            },
        }
    }
}

/// The credential-resolution policy, in strict precedence order: an API
/// token; then the credentials file (only when the registry is known by
/// short name); then option-supplied username and password, prompting for
/// whichever is missing.
pub open spec fn spec_resolve_cred(
    opt: PublishOptView,
    token: Option<Seq<char>>,
    sections: Seq<PypircSectionView>,
    registry_name: Option<Seq<char>>,
) -> CredentialPlanView {
    match token {
        Some(t) => CredentialPlanView::Token { secret: t },
        None => {
            let from_config = match registry_name {
                Some(name) => spec_cred_from_config(sections, name),
                None => None,
            };
            match from_config {
                Some(cred) => CredentialPlanView::PypircEntry { username: cred.0, password: cred.1 },
                None => match (opt.username, opt.password) {
                    (Some(u), Some(p)) => CredentialPlanView::Given { username: u, password: p },
                    (Some(u), None) => CredentialPlanView::AskPassword { username: u },
                    (None, p) => CredentialPlanView::AskUsername { password: p },
                },
            }
        },
    }
}

/// Resolves the credential plan for one publish invocation.
pub fn resolve_pypi_cred(
    opt: &PublishOpt,
    token: Option<String>,
    config: &Pypirc,
    registry_name: Option<&str>,
) -> (r: CredentialPlan)
    ensures
        r@ == spec_resolve_cred(
            opt@,
            match token {
                Some(t) => Some(t@),
                None => None,
            },
            config@,
            match registry_name {
                Some(n) => Some(n@),
                None => None,
            },
        ),
{
    if let Some(t) = token {
        return CredentialPlan::Token { secret: t };
    }
    if let Some(name) = registry_name {
        if let Some(cred) = load_pypi_cred_from_config(config, name) {
            return CredentialPlan::PypircEntry { username: cred.0, password: cred.1 };
        }
    }
    match (&opt.username, &opt.password) {
        (Some(u), Some(p)) => CredentialPlan::Given { username: u.clone(), password: p.clone() },
        (Some(u), None) => CredentialPlan::AskPassword { username: u.clone() },
        (None, Some(p)) => CredentialPlan::AskUsername { password: Some(p.clone()) },
        (None, None) => CredentialPlan::AskUsername { password: None },
    }
}

/// A present API token decides the credential by itself: the plan is the
/// token plan, whatever the credentials file, the options or the registry
/// name hold — in particular, no interactive prompt is demanded.
pub proof fn lemma_token_takes_precedence(
    opt: PublishOptView,
    token: Seq<char>,
    sections: Seq<PypircSectionView>,
    registry_name: Option<Seq<char>>,
)
    ensures
        spec_resolve_cred(opt, Some(token), sections, registry_name) == (CredentialPlanView::Token {
            secret: token,
        }),
        !(spec_resolve_cred(opt, Some(token), sections, registry_name) is AskUsername),
        !(spec_resolve_cred(opt, Some(token), sections, registry_name) is AskPassword),
{
}

/// Where the password comes from when a plan demands one.
#[derive(Debug)]
pub enum PasswordSource {
    /// The environment supplied it.
    EnvVariable(String),
    /// The secure store held a cached secret for this username.
    CachedSecret(String),
    /// It must be prompted for.
    Prompt,
}

/// Decides the password source: an environment-supplied password wins; only
/// in its absence is the secure store consulted; only when that holds
/// nothing is a prompt demanded.
pub fn password_source(env_password: Option<String>, username: &str) -> (r: PasswordSource)
    ensures
        env_password matches Some(p) ==> r == PasswordSource::EnvVariable(p),
        env_password is None ==> (r matches PasswordSource::CachedSecret(_) || r
            == PasswordSource::Prompt),
{
    match env_password {
        Some(p) => PasswordSource::EnvVariable(p),
        None => match crate::secret_store::lookup_cached_secret(username) {
            Some(s) => PasswordSource::CachedSecret(s),
            None => PasswordSource::Prompt,
        },
    }
}

/// Errors of registry resolution.
#[derive(Clone, Copy, Debug, PartialEq, Eq, Structural)]
pub enum RegistryError {
    /// The registry was named by a short name the credentials file does not
    /// know.
    NotFoundInPypirc,
    /// The resolved registry URL does not parse.
    InvalidUrl,
}

/// The default public index URL.
pub fn default_registry_url() -> (r: &'static str)
    ensures
        r@ == spec_default_registry_url(),
{
    "https://upload.pypi.org/legacy/"
}

/// Specification of the default public index URL.
pub open spec fn spec_default_registry_url() -> Seq<char> {
    "https://upload.pypi.org/legacy/"@
}

/// The canonical short name assumed for the default public index.
pub open spec fn spec_default_registry_name() -> Seq<char> {
    "pypi"@
}

/// Where the upload goes: the registry's short name when one is known (it
/// keys the credentials file), and its URL.
#[derive(Debug)]
pub struct RegistryLocation {
    pub name: Option<String>,
    pub url: String,
}

/// Mathematical value of a registry location.
pub ghost struct RegistryLocationView {
    pub name: Option<Seq<char>>,
    pub url: Seq<char>,
}

impl View for RegistryLocation {
    type V = RegistryLocationView;

    open spec fn view(&self) -> RegistryLocationView {
        RegistryLocationView {
            name: match self.name {
                Some(n) => Some(n@),
                None => None,
            },
            url: self.url@,
        }
    }
}

/// Resolution of the registry option: a value that is no HTTP(S) URL is a
/// short name and must have a `repository` entry in the credentials file;
/// the default index URL is assumed to be named `pypi`; any other URL has
/// no short name.
pub open spec fn spec_resolve_registry_location(
    registry: Seq<char>,
    sections: Seq<PypircSectionView>,
) -> Result<RegistryLocationView, RegistryError> {
    if !"http://"@.is_prefix_of(registry) && !"https://"@.is_prefix_of(registry) {
        match spec_find_section(sections, registry) {
            Some(s) => match s.repository {
                Some(url) => Ok(RegistryLocationView { name: Some(registry), url }),
                None => Err(RegistryError::NotFoundInPypirc),
            },
            None => Err(RegistryError::NotFoundInPypirc),
        }
    } else if registry == spec_default_registry_url() {
        Ok(RegistryLocationView { name: Some(spec_default_registry_name()), url: registry })
    } else {
        Ok(RegistryLocationView { name: None, url: registry })
    }
}

/// Resolves the registry's short name and URL from the publish options and
/// the parsed credentials file.
pub fn resolve_registry_location(registry: &str, config: &Pypirc) -> (r: Result<
    RegistryLocation,
    RegistryError,
>)
    ensures
        match r {
            Ok(loc) => spec_resolve_registry_location(registry@, config@) == Ok::<
                RegistryLocationView,
                RegistryError,
            >(loc@),
            Err(e) => spec_resolve_registry_location(registry@, config@) == Err::<
                RegistryLocationView,
                RegistryError,
            >(e),
        },
{
    let is_url = crate::build_rust::str_starts_with(registry, "http://")
        || crate::build_rust::str_starts_with(registry, "https://");
    if !is_url {
        match find_section(config, registry) {
            Some(section) => match &section.repository {
                Some(url) => Ok(RegistryLocation {
                    name: Some(String::from_str(registry)),
                    url: url.clone(),
                }),
                None => Err(RegistryError::NotFoundInPypirc),
            },
            None => Err(RegistryError::NotFoundInPypirc),
        }
    } else if crate::build_rust::str_equal(registry, default_registry_url()) {
        Ok(RegistryLocation {
            name: Some(String::from_str("pypi")),
            url: String::from_str(registry),
        })
    } else {
        Ok(RegistryLocation { name: None, url: String::from_str(registry) })
    }
}

/// Whether a registry URL parses as a URL; decided by an outside parser and
/// a function of the text alone.
pub uninterp spec fn url_well_formed(s: Seq<char>) -> bool;

/// Relies on url::Url::parse: whether the text is a well-formed URL.
#[verifier::external_body]
fn parse_url_ok(s: &str) -> (r: bool)
    ensures
        r == url_well_formed(s@),
{
    url::Url::parse(s).is_ok()
}

/// Everything the caller needs before any prompt is shown: where the upload
/// goes and how the credential will be obtained.
#[derive(Debug)]
pub struct RegistryPlan {
    pub location: RegistryLocation,
    pub credential: CredentialPlan,
}

/// Resolves the registry and the credential plan in one step, rejecting a
/// short name the credentials file does not know and a URL that does not
/// parse.
pub fn complete_registry(opt: &PublishOpt, token: Option<String>, config: &Pypirc) -> (r: Result<
    RegistryPlan,
    RegistryError,
>)
    ensures
        match r {
            Ok(plan) => {
                &&& spec_resolve_registry_location(opt.registry@, config@) matches Ok(loc)
                &&& plan.location@ == loc
                &&& url_well_formed(loc.url)
                &&& plan.credential@ == spec_resolve_cred(
                    opt@,
                    match token {
                        Some(t) => Some(t@),
                        None => None,
                    },
                    config@,
                    loc.name,
                )
            },
            Err(RegistryError::NotFoundInPypirc) => spec_resolve_registry_location(
                opt.registry@,
                config@,
            ) is Err,
            Err(RegistryError::InvalidUrl) => {
                &&& spec_resolve_registry_location(opt.registry@, config@) matches Ok(loc)
                &&& !url_well_formed(loc.url)
            },
        },
{
    let location = match resolve_registry_location(opt.registry.as_str(), config) {
        Ok(loc) => loc,
        Err(e) => {
            return Err(e);
        },
    };
    if !parse_url_ok(location.url.as_str()) {
        return Err(RegistryError::InvalidUrl);
    }
    let credential = match &location.name {
        Some(name) => resolve_pypi_cred(opt, token, config, Some(name.as_str())),
        None => resolve_pypi_cred(opt, token, config, None),
    };
    Ok(RegistryPlan { location, credential })
}

/// The registry an upload goes to, with its resolved account.
pub struct Registry {
    pub url: String,
    pub username: String,
    pub password: String,
}

/// Outcome of uploading one artifact, as the transport reports it; the
/// kinds the orchestrator must tell apart.
#[derive(Clone, Copy, Debug, PartialEq, Eq, Structural)]
pub enum UploadResult {
    Success,
    /// The registry rejected the credential.
    AuthenticationFailure,
    /// The registry already has this artifact.
    ConflictFailure,
    /// Any other transport or registry failure.
    TransportFailure,
}

/// What the loop does after one artifact's outcome.
#[derive(Clone, Copy, Debug, PartialEq, Eq, Structural)]
pub enum UploadDecision {
    /// Uploaded; move to the next artifact.
    Proceed,
    /// Already on the index and skipping is requested; log and move on.
    SkipAndProceed,
    /// Abort everything and invalidate any cached secret.
    AbortAuthentication,
    /// Abort everything, reporting the artifact's name and size.
    AbortFailure,
}

/// The per-artifact decision rule.
pub open spec fn spec_upload_step(result: UploadResult, skip_existing: bool) -> UploadDecision {
    match result {
        UploadResult::Success => UploadDecision::Proceed,
        UploadResult::AuthenticationFailure => UploadDecision::AbortAuthentication,
        UploadResult::ConflictFailure => if skip_existing {
            UploadDecision::SkipAndProceed
        } else {
            UploadDecision::AbortFailure
        },
        UploadResult::TransportFailure => UploadDecision::AbortFailure,
    }
}

/// Decides what one artifact's outcome means for the loop.
pub fn upload_step(result: UploadResult, skip_existing: bool) -> (r: UploadDecision)
    ensures
        r == spec_upload_step(result, skip_existing),
{
    match result {
        UploadResult::Success => UploadDecision::Proceed,
        UploadResult::AuthenticationFailure => UploadDecision::AbortAuthentication,
        UploadResult::ConflictFailure => if skip_existing {
            UploadDecision::SkipAndProceed
        } else {
            UploadDecision::AbortFailure
        },
        UploadResult::TransportFailure => UploadDecision::AbortFailure,
    }
}

/// Whether an outcome stops the loop.
pub open spec fn spec_aborts(result: UploadResult, skip_existing: bool) -> bool {
    spec_upload_step(result, skip_existing) == UploadDecision::AbortAuthentication
        || spec_upload_step(result, skip_existing) == UploadDecision::AbortFailure
}

/// How a whole upload run ends.
#[derive(Debug)]
pub enum UploadOutcome {
    /// Every artifact was attempted; none aborted.
    Completed,
    /// The registry rejected the credential at `failed_index`; nothing after
    /// it was attempted, and any cached secret must be invalidated.
    AbortedAuthentication { failed_index: usize },
    /// A non-skippable failure at `failed_index`; nothing after it was
    /// attempted.
    AbortedFailure { failed_index: usize },
}

/// Mathematical value of a finished run: how many artifacts were attempted,
/// and how it ended.
pub ghost enum UploadRun {
    Completed { attempted: int },
    AbortedAuthentication { attempted: int, failed: int },
    AbortedFailure { attempted: int, failed: int },
}

/// The run over `results`, with everything before `i` already attempted
/// without aborting.
pub open spec fn spec_upload_run_from(results: Seq<UploadResult>, skip_existing: bool, i: int) -> UploadRun
    recommends
        0 <= i <= results.len(),
    decreases results.len() - i,
{
    if i < 0 || i >= results.len() {
        UploadRun::Completed { attempted: results.len() as int }
    } else {
        match spec_upload_step(results[i], skip_existing) {
            UploadDecision::AbortAuthentication => UploadRun::AbortedAuthentication {
                attempted: i + 1,
                failed: i,
            },
            UploadDecision::AbortFailure => UploadRun::AbortedFailure { attempted: i + 1, failed: i },
            _ => spec_upload_run_from(results, skip_existing, i + 1),
        }
    }
}

/// The run over a whole outcome sequence.
pub open spec fn spec_upload_run(results: Seq<UploadResult>, skip_existing: bool) -> UploadRun {
    spec_upload_run_from(results, skip_existing, 0)
}

/// Report of a finished run.
#[derive(Debug)]
pub struct UploadReport {
    /// How many artifacts were attempted, in order from the first.
    pub attempted: usize,
    pub outcome: UploadOutcome,
}

impl View for UploadReport {
    type V = UploadRun;

    open spec fn view(&self) -> UploadRun {
        match self.outcome {
            UploadOutcome::Completed => UploadRun::Completed { attempted: self.attempted as int },
            UploadOutcome::AbortedAuthentication { failed_index } => UploadRun::AbortedAuthentication {
                attempted: self.attempted as int,
                failed: failed_index as int,
            },
            UploadOutcome::AbortedFailure { failed_index } => UploadRun::AbortedFailure {
                attempted: self.attempted as int,
                failed: failed_index as int,
            },
        }
    }
}

/// Replays a sequence of per-artifact outcomes through the decision rule:
/// artifacts are attempted strictly in order, a skippable conflict is passed
/// over, and the first aborting outcome ends the run with nothing after it
/// attempted.
pub fn process_upload_results(results: &Vec<UploadResult>, skip_existing: bool) -> (r: UploadReport)
    ensures
        r@ == spec_upload_run(results@, skip_existing),
{
    let n = results.len();
    let mut i: usize = 0;
    while i < n
        invariant
            0 <= i <= n,
            n == results@.len(),
            spec_upload_run(results@, skip_existing) == spec_upload_run_from(
                results@,
                skip_existing,
                i as int,
            ),
        decreases n - i,
    {
        match upload_step(results[i], skip_existing) {
            UploadDecision::AbortAuthentication => {
                return UploadReport {
                    attempted: i + 1,
                    outcome: UploadOutcome::AbortedAuthentication { failed_index: i },
                };
            },
            UploadDecision::AbortFailure => {
                return UploadReport {
                    attempted: i + 1,
                    outcome: UploadOutcome::AbortedFailure { failed_index: i },
                };
            },
            _ => {},
        }
        i = i + 1;
    }
    UploadReport { attempted: n, outcome: UploadOutcome::Completed }
}

proof fn lemma_run_from_no_abort(results: Seq<UploadResult>, skip_existing: bool, i: int)
    requires
        0 <= i <= results.len(),
        forall|j: int| i <= j < results.len() ==> !spec_aborts(#[trigger] results[j], skip_existing),
    ensures
        spec_upload_run_from(results, skip_existing, i) == (UploadRun::Completed {
            attempted: results.len() as int,
        }),
    decreases results.len() - i,
{
    if i < results.len() {
        lemma_run_from_no_abort(results, skip_existing, i + 1);
    }
}

proof fn lemma_run_from_abort(results: Seq<UploadResult>, skip_existing: bool, i: int, k: int)
    requires
        0 <= i <= k < results.len(),
        forall|j: int| i <= j < k ==> !spec_aborts(#[trigger] results[j], skip_existing),
        spec_aborts(results[k], skip_existing),
    ensures
        spec_upload_run_from(results, skip_existing, i) == spec_upload_run_from(
            results,
            skip_existing,
            k,
        ),
    decreases k - i,
{
    if i < k {
        lemma_run_from_abort(results, skip_existing, i + 1, k);
    }
}

/// With skip-existing requested, a run whose outcomes are only successes
/// and conflicts attempts every artifact: a conflict is skipped, never
/// aborting.
pub proof fn lemma_skip_existing_attempts_all(results: Seq<UploadResult>)
    requires
        forall|j: int|
            0 <= j < results.len() ==> (#[trigger] results[j] == UploadResult::Success || results[j]
                == UploadResult::ConflictFailure),
    ensures
        spec_upload_run(results, true) == (UploadRun::Completed { attempted: results.len() as int }),
{
    assert forall|j: int| 0 <= j < results.len() implies !spec_aborts(#[trigger] results[j], true) by {
        assert(results[j] == UploadResult::Success || results[j] == UploadResult::ConflictFailure);
    }
    lemma_run_from_no_abort(results, true, 0);
}

/// Without skip-existing, a conflict at position `k` after `k` successes
/// aborts the run at exactly `k + 1` attempts, reporting artifact `k`.
pub proof fn lemma_conflict_aborts_without_skip(results: Seq<UploadResult>, k: int)
    requires
        0 <= k < results.len(),
        forall|j: int| 0 <= j < k ==> #[trigger] results[j] == UploadResult::Success,
        results[k] == UploadResult::ConflictFailure,
    ensures
        spec_upload_run(results, false) == (UploadRun::AbortedFailure { attempted: k + 1, failed: k }),
{
    assert forall|j: int| 0 <= j < k implies !spec_aborts(#[trigger] results[j], false) by {
        assert(results[j] == UploadResult::Success);
    }
    lemma_run_from_abort(results, false, 0, k);
}

/// An authentication failure at position `k`, first among the aborting
/// outcomes, ends the run immediately: exactly `k + 1` artifacts were
/// attempted and none after the failing one. (The cached secret for the
/// resolved username is then invalidated, with an absent entry treated as
/// already satisfied — see the secret store's removal reading.)
pub proof fn lemma_auth_failure_stops_run(results: Seq<UploadResult>, skip_existing: bool, k: int)
    requires
        0 <= k < results.len(),
        forall|j: int| 0 <= j < k ==> !spec_aborts(#[trigger] results[j], skip_existing),
        results[k] == UploadResult::AuthenticationFailure,
    ensures
        spec_upload_run(results, skip_existing) == (UploadRun::AbortedAuthentication {
            attempted: k + 1,
            failed: k,
        }),
{
    lemma_run_from_abort(results, skip_existing, 0, k);
}

} // verus!
