//! Native build driver: argument assembly for the two compiler invocations,
//! recognition of the two structured message shapes interleaved in the
//! compiler's line-oriented output, last-match-wins retention, and resolution
//! of the single shared-library artifact the build must produce.
//!
//! The child process itself (spawning the compiler, reading its output line
//! by line, forwarding its diagnostics) lives outside the verified library;
//! everything that decides what the stream meant is here.

use vstd::prelude::*;
use vstd::seq_lib::*;
use vstd::string::StringExecFns;

use crate::decimal::decimal_string;
use crate::decimal::spec_decimal;

verus! {

/// A linkage-report message: what the binding layer's own build step wrote
/// about itself — the native libraries it linked and the identity of the
/// package that produced it.
pub struct LinkageReport {
    /// Identity of the package the report belongs to.
    pub package_id: String,
    /// The native libraries the binding layer linked against.
    pub linked_libs: Vec<String>,
}

/// An artifact message: the output files of one compiled target and the
/// crate output kinds declared for it, position for position.
pub struct ArtifactMessage {
    /// The compiled target's name.
    pub target_name: String,
    /// Declared output kinds, e.g. "lib" or "cdylib".
    pub crate_types: Vec<String>,
    /// Produced files, one per declared kind.
    pub filenames: Vec<String>,
}

/// One recognized line of the compiler's structured output. Lines matching
/// neither shape are not represented: the stream interleaves them freely and
/// they carry no information for the driver.
pub enum StreamedBuildMessage {
    Linkage(LinkageReport),
    Artifact(ArtifactMessage),
}

/// Mathematical value of a linkage report.
pub ghost struct LinkageReportView {
    pub package_id: Seq<char>,
    pub linked_libs: Seq<Seq<char>>,
}

/// Mathematical value of an artifact message.
pub ghost struct ArtifactMessageView {
    pub target_name: Seq<char>,
    pub crate_types: Seq<Seq<char>>,
    pub filenames: Seq<Seq<char>>,
}

/// Mathematical value of a recognized line.
pub ghost enum MessageView {
    Linkage(LinkageReportView),
    Artifact(ArtifactMessageView),
}

impl View for LinkageReport {
    type V = LinkageReportView;

    open spec fn view(&self) -> LinkageReportView {
        LinkageReportView { package_id: self.package_id@, linked_libs: self.linked_libs.deep_view() }
    }
}

impl View for ArtifactMessage {
    type V = ArtifactMessageView;

    open spec fn view(&self) -> ArtifactMessageView {
        ArtifactMessageView {
            target_name: self.target_name@,
            crate_types: self.crate_types.deep_view(),
            filenames: self.filenames.deep_view(),
        }
    }
}

impl View for StreamedBuildMessage {
    type V = MessageView;

    open spec fn view(&self) -> MessageView {
        match self {
            StreamedBuildMessage::Linkage(l) => MessageView::Linkage(l@),
            StreamedBuildMessage::Artifact(a) => MessageView::Artifact(a@),
        }
    }
}

/// What one line of the compiler's structured output means: the recognized
/// message, or nothing for the unparseable and the unrelated. The
/// recognition is done by an outside JSON parser; what it returns depends on
/// the line alone.
pub uninterp spec fn stream_message_of(line: Seq<char>) -> Option<MessageView>;

/// Relies on serde_json::from_str driven through cargo_metadata's message
/// shapes: a line is either a build-script (linkage) report, a compiler
/// artifact, some other well-formed message, or noise; only the first two
/// are kept, with their fields carried over unchanged.
#[verifier::external_body]
fn parse_stream_line(line: &str) -> (r: Option<StreamedBuildMessage>)
    ensures
        r is Some <==> stream_message_of(line@) is Some,
        r matches Some(m) ==> Some(m@) == stream_message_of(line@),
{
    match serde_json::from_str::<cargo_metadata::Message>(line) {
        Ok(cargo_metadata::Message::BuildScriptExecuted(b)) => Some(StreamedBuildMessage::Linkage(LinkageReport {
            package_id: b.package_id.repr,
            linked_libs: b.linked_libs.into_iter().map(|p| p.into_string()).collect(),
        })),
        Ok(cargo_metadata::Message::CompilerArtifact(a)) => Some(StreamedBuildMessage::Artifact(ArtifactMessage {
            target_name: a.target.name,
            crate_types: a.target.crate_types.iter().map(|t| t.to_string()).collect(),
            filenames: a.filenames.into_iter().map(|p| p.into_string()).collect(),
        })),
        _ => None,
    }
}

/// How many compilation units the dry run promised, if its output document
/// parses as a build plan; a function of the document alone. Used only to
/// size a progress indicator.
pub uninterp spec fn build_plan_invocations_of(doc: Seq<char>) -> Option<usize>;

/// Relies on serde_json: the length of the `invocations` array of a
/// build-plan document, or nothing when the document does not parse as one.
#[verifier::external_body]
fn parse_build_plan(doc: &str) -> (r: Option<usize>)
    ensures
        r == build_plan_invocations_of(doc@),
{
    let value: serde_json::Value = serde_json::from_str(doc).ok()?;
    Some(value.get("invocations")?.as_array()?.len())
}

/// Everything the driver can fail with; each case is terminal for the one
/// runtime being built.
#[derive(Clone, Copy, Debug, PartialEq, Eq, Structural)]
pub enum DriverError {
    /// The compiler process could not be started.
    ProcessLaunchFailure,
    /// The dry run failed or its output was not a build plan.
    PlanFailure,
    /// The real build exited non-zero.
    BuildFailure,
    /// No artifact message for the requested library was streamed, or the
    /// retained one named no file for the foreign-loadable kind.
    ArtifactMissing,
    /// The retained artifact message does not declare the foreign-loadable
    /// dynamic-library kind.
    ArtifactKindMissing,
}

impl DriverError {
    /// Human-readable cause, one fixed line per case.
    pub fn message(&self) -> (r: String)
        ensures
            r@ == spec_driver_error_message(*self),
    {
        match self {
            DriverError::ProcessLaunchFailure => String::from_str("Failed to run cargo"),
            DriverError::PlanFailure => String::from_str("Failed to get a build plan from cargo"),
            DriverError::BuildFailure => String::from_str("Cargo build finished with an error"),
            DriverError::ArtifactMissing => String::from_str(
                "cargo build didn't return information on the cdylib",
            ),
            DriverError::ArtifactKindMissing => String::from_str(
                "Cargo didn't build a cdylib (Did you miss crate-type = [\"cdylib\"] in the lib section of your Cargo.toml?)",
            ),
        }
    }
}

/// Specification of `DriverError::message`.
pub open spec fn spec_driver_error_message(e: DriverError) -> Seq<char> {
    match e {
        DriverError::ProcessLaunchFailure => "Failed to run cargo"@,
        DriverError::PlanFailure => "Failed to get a build plan from cargo"@,
        DriverError::BuildFailure => "Cargo build finished with an error"@,
        DriverError::ArtifactMissing => "cargo build didn't return information on the cdylib"@,
        DriverError::ArtifactKindMissing => "Cargo didn't build a cdylib (Did you miss crate-type = [\"cdylib\"] in the lib section of your Cargo.toml?)"@,
    }
}

/// The feature that selects the binding strategy's runtime-major-version
/// variant, `{binding_crate}/python{major}`.
pub open spec fn spec_version_feature(binding_crate: Seq<char>, major: nat) -> Seq<char> {
    binding_crate + "/python"@ + spec_decimal(major)
}

/// Renders the version-selecting feature flag value.
pub fn version_feature(binding_crate: &str, major: usize) -> (r: String)
    ensures
        r@ == spec_version_feature(binding_crate@, major as nat),
{
    let mut s = String::from_str(binding_crate);
    s.append("/python");
    let m = decimal_string(major);
    s.append(m.as_str());
    proof {
        assert(s@ =~= spec_version_feature(binding_crate@, major as nat));
    }
    s
}

/// The argument set shared by both compiler invocations: a library-only,
/// quiet build of the given manifest with the version-selecting feature, in
/// release mode unless a debug build was requested.
pub open spec fn spec_shared_args(
    binding_crate: Seq<char>,
    major: nat,
    manifest_path: Seq<char>,
    debug: bool,
) -> Seq<Seq<char>> {
    let base = seq![
        "--lib"@,
        "--quiet"@,
        "--manifest-path"@,
        manifest_path,
        "--features"@,
        spec_version_feature(binding_crate, major),
    ];
    if debug {
        base
    } else {
        base.push("--release"@)
    }
}

/// Assembles the shared argument set.
pub fn shared_build_args(binding_crate: &str, major: usize, manifest_path: &str, debug: bool) -> (r:
    Vec<String>)
    ensures
        r.deep_view() == spec_shared_args(binding_crate@, major as nat, manifest_path@, debug),
{
    let mut v: Vec<String> = Vec::new();
    v.push(String::from_str("--lib"));
    v.push(String::from_str("--quiet"));
    v.push(String::from_str("--manifest-path"));
    v.push(String::from_str(manifest_path));
    v.push(String::from_str("--features"));
    v.push(version_feature(binding_crate, major));
    if !debug {
        v.push(String::from_str("--release"));
    }
    proof {
        assert(v.deep_view() =~= spec_shared_args(binding_crate@, major as nat, manifest_path@, debug));
    }
    v
}

/// Whether a linkage report belongs to the configured binding crate.
pub open spec fn linkage_matches(l: LinkageReportView, binding_crate: Seq<char>) -> bool {
    binding_crate.is_prefix_of(l.package_id)
}

/// Whether an artifact message reports the requested library.
pub open spec fn artifact_matches(a: ArtifactMessageView, lib_name: Seq<char>) -> bool {
    a.target_name == lib_name
}

/// Whether a recognized line would change the retained state at all.
pub open spec fn relevant(m: Option<MessageView>, lib_name: Seq<char>, binding_crate: Seq<char>) -> bool {
    match m {
        Some(MessageView::Linkage(l)) => linkage_matches(l, binding_crate),
        Some(MessageView::Artifact(a)) => artifact_matches(a, lib_name),
        None => false,
    }
}

/// The retained state of a stream scan.
pub ghost struct ScanView {
    pub linkage: Option<LinkageReportView>,
    pub artifact: Option<ArtifactMessageView>,
}

/// One step of the scan: a matching message replaces the retained one of its
/// shape (last one wins); everything else leaves the state unchanged.
pub open spec fn scan_step(
    s: ScanView,
    m: Option<MessageView>,
    lib_name: Seq<char>,
    binding_crate: Seq<char>,
) -> ScanView {
    match m {
        Some(MessageView::Linkage(l)) => if linkage_matches(l, binding_crate) {
            ScanView { linkage: Some(l), artifact: s.artifact }
        } else {
            s
        },
        Some(MessageView::Artifact(a)) => if artifact_matches(a, lib_name) {
            ScanView { linkage: s.linkage, artifact: Some(a) }
        } else {
            s
        },
        None => s,
    }
}

/// The scan over a whole message sequence, first line first.
pub open spec fn scan_msgs(
    msgs: Seq<Option<MessageView>>,
    lib_name: Seq<char>,
    binding_crate: Seq<char>,
) -> ScanView
    decreases msgs.len(),
{
    if msgs.len() == 0 {
        ScanView { linkage: None, artifact: None }
    } else {
        scan_step(scan_msgs(msgs.drop_last(), lib_name, binding_crate), msgs.last(), lib_name, binding_crate)
    }
}

/// What each line of the stream means.
pub open spec fn line_messages(lines: Seq<Seq<char>>) -> Seq<Option<MessageView>> {
    lines.map_values(|l: Seq<char>| stream_message_of(l))
}

/// The scan over a whole line stream.
pub open spec fn scan_lines_spec(
    lines: Seq<Seq<char>>,
    lib_name: Seq<char>,
    binding_crate: Seq<char>,
) -> ScanView {
    scan_msgs(line_messages(lines), lib_name, binding_crate)
}

/// The retained messages after a scan of the full stream.
pub struct ScanOutcome {
    /// Last linkage report whose package identity is prefixed by the binding
    /// crate's name, if any.
    pub linkage: Option<LinkageReport>,
    /// Last artifact message whose target name equals the requested library
    /// name, if any.
    pub artifact: Option<ArtifactMessage>,
}

impl View for ScanOutcome {
    type V = ScanView;

    open spec fn view(&self) -> ScanView {
        ScanView {
            linkage: match &self.linkage {
                Some(l) => Some(l@),
                None => None,
            },
            artifact: match &self.artifact {
                Some(a) => Some(a@),
                None => None,
            },
        }
    }
}

/// Whether `prefix` starts `s`.
pub fn str_starts_with(s: &str, prefix: &str) -> (r: bool)
    ensures
        r == prefix@.is_prefix_of(s@),
{
    let n = prefix.unicode_len();
    let m = s.unicode_len();
    if n > m {
        return false;
    }
    let mut i: usize = 0;
    while i < n
        invariant
            0 <= i <= n,
            n == prefix@.len(),
            m == s@.len(),
            n <= m,
            forall|j: int| 0 <= j < i ==> s@[j] == prefix@[j],
        decreases n - i,
    {
        if s.get_char(i) != prefix.get_char(i) {
            return false;
        }
        i = i + 1;
    }
    proof {
        assert(prefix@ =~= s@.subrange(0, prefix@.len() as int));
    }
    true
}

/// Whether two string slices hold the same characters.
pub fn str_equal(a: &str, b: &str) -> (r: bool)
    ensures
        r == (a@ == b@),
{
    let n = a.unicode_len();
    let m = b.unicode_len();
    if n != m {
        return false;
    }
    let mut i: usize = 0;
    while i < n
        invariant
            0 <= i <= n,
            n == a@.len(),
            n == b@.len(),
            forall|j: int| 0 <= j < i ==> a@[j] == b@[j],
        decreases n - i,
    {
        if a.get_char(i) != b.get_char(i) {
            return false;
        }
        i = i + 1;
    }
    proof {
        assert(a@ =~= b@);
    }
    true
}

/// Scans the captured output lines of the real build, retaining the last
/// linkage report of the binding crate and the last artifact message of the
/// requested library; every other line is ignored.
pub fn scan_build_stream(lines: &Vec<String>, lib_name: &str, binding_crate: &str) -> (r: ScanOutcome)
    ensures
        r@ == scan_lines_spec(lines.deep_view(), lib_name@, binding_crate@),
{
    let ghost lv = lines.deep_view();
    let mut linkage: Option<LinkageReport> = None;
    let mut artifact: Option<ArtifactMessage> = None;
    proof {
        assert(line_messages(lv.take(0)) =~= Seq::<Option<MessageView>>::empty());
    }
    let mut i: usize = 0;
    while i < lines.len()
        invariant
            0 <= i <= lines.len(),
            lv == lines.deep_view(),
            lv.len() == lines@.len(),
            forall|j: int| 0 <= j < lines@.len() ==> lv[j] == #[trigger] lines@[j]@,
            (ScanView {
                linkage: match linkage {
                    Some(l) => Some(l@),
                    None => None,
                },
                artifact: match artifact {
                    Some(a) => Some(a@),
                    None => None,
                },
            }) == scan_msgs(line_messages(lv.take(i as int)), lib_name@, binding_crate@),
        decreases lines.len() - i,
    {
        let line = &lines[i];
        let parsed = parse_stream_line(line.as_str());
        proof {
            let prefix = line_messages(lv.take(i as int));
            let extended = line_messages(lv.take(i as int + 1));
            assert(extended =~= prefix.push(stream_message_of(lv[i as int])));
            assert(extended.drop_last() =~= prefix);
        }
        match parsed {
            Some(StreamedBuildMessage::Linkage(l)) => {
                if str_starts_with(l.package_id.as_str(), binding_crate) {
                    linkage = Some(l);
                }
            },
            Some(StreamedBuildMessage::Artifact(a)) => {
                if str_equal(a.target_name.as_str(), lib_name) {
                    artifact = Some(a);
                }
            },
            None => {},
        }
        i = i + 1;
    }
    proof {
        assert(lv.take(lines@.len() as int) =~= lv);
    }
    ScanOutcome { linkage, artifact }
}

/// The declared output kind of a shared library loadable from the managed
/// runtime.
pub open spec fn cdylib_kind() -> Seq<char> {
    "cdylib"@
}

/// Position of the first foreign-loadable kind in a declared kind list.
pub open spec fn spec_cdylib_position(kinds: Seq<Seq<char>>) -> Option<nat>
    decreases kinds.len(),
{
    if kinds.len() == 0 {
        None
    } else if kinds[0] == cdylib_kind() {
        Some(0)
    } else {
        match spec_cdylib_position(kinds.drop_first()) {
            Some(p) => Some((p + 1) as nat),
            None => None,
        }
    }
}

/// Resolution of the retained artifact message: absent is fatal; a message
/// without the foreign-loadable kind is fatal; one whose kind position names
/// no file reports the artifact as missing; otherwise the file at the kind's
/// position is the result.
pub open spec fn spec_resolve_artifact(a: Option<ArtifactMessageView>) -> Result<Seq<char>, DriverError> {
    match a {
        None => Err(DriverError::ArtifactMissing),
        Some(art) => match spec_cdylib_position(art.crate_types) {
            None => Err(DriverError::ArtifactKindMissing),
            Some(p) => if p < art.filenames.len() {
                Ok(art.filenames[p as int])
            } else {
                Err(DriverError::ArtifactMissing)
            },
        },
    }
}

proof fn lemma_cdylib_position_found(kinds: Seq<Seq<char>>, i: int)
    requires
        0 <= i < kinds.len(),
        forall|j: int| 0 <= j < i ==> kinds[j] != cdylib_kind(),
        kinds[i] == cdylib_kind(),
    ensures
        spec_cdylib_position(kinds) == Some(i as nat),
    decreases i,
{
    if i == 0 {
    } else {
        assert(kinds[0] != cdylib_kind());
        lemma_cdylib_position_found(kinds.drop_first(), i - 1);
    }
}

proof fn lemma_cdylib_position_none(kinds: Seq<Seq<char>>)
    requires
        forall|j: int| 0 <= j < kinds.len() ==> kinds[j] != cdylib_kind(),
    ensures
        spec_cdylib_position(kinds) is None,
    decreases kinds.len(),
{
    if kinds.len() > 0 {
        lemma_cdylib_position_none(kinds.drop_first());
    }
}

/// Resolves the driver's result from the retained artifact message.
pub fn resolve_artifact(artifact: &Option<ArtifactMessage>) -> (r: Result<String, DriverError>)
    ensures
        match r {
            Ok(s) => spec_resolve_artifact(
                match artifact {
                    Some(a) => Some(a@),
                    None => None,
                },
            ) == Ok::<Seq<char>, DriverError>(s@),
            Err(e) => spec_resolve_artifact(
                match artifact {
                    Some(a) => Some(a@),
                    None => None,
                },
            ) == Err::<Seq<char>, DriverError>(e),
        },
{
    let art = match artifact {
        Some(a) => a,
        None => {
            return Err(DriverError::ArtifactMissing);
        },
    };
    let cdylib = String::from_str("cdylib");
    let n = art.crate_types.len();
    let mut i: usize = 0;
    while i < n
        invariant
            0 <= i <= n,
            *artifact matches Some(inner) && inner == *art,
            n == art.crate_types@.len(),
            cdylib@ == cdylib_kind(),
            forall|j: int| 0 <= j < i ==> #[trigger] art.crate_types@[j]@ != cdylib_kind(),
        decreases n - i,
    {
        if str_equal(art.crate_types[i].as_str(), cdylib.as_str()) {
            proof {
                assert(forall|j: int|
                    0 <= j <= i ==> art@.crate_types[j] == #[trigger] art.crate_types@[j]@);
                lemma_cdylib_position_found(art@.crate_types, i as int);
            }
            if i < art.filenames.len() {
                let name = art.filenames[i].clone();
                proof {
                    assert(art@.filenames[i as int] == art.filenames@[i as int]@);
                }
                return Ok(name);
            } else {
                return Err(DriverError::ArtifactMissing);
            }
        }
        i = i + 1;
    }
    proof {
        assert(forall|j: int|
            0 <= j < art@.crate_types.len() ==> art@.crate_types[j] == #[trigger] art.crate_types@[j]@);
        lemma_cdylib_position_none(art@.crate_types);
    }
    Err(DriverError::ArtifactKindMissing)
}

/// The one observational signal the retained linkage report yields: when it
/// names exactly one linked native library, that library. Reserved for a
/// future check that the binding layer linked against the expected runtime;
/// no failure is raised from it today.
pub fn linkage_soft_signal(linkage: &Option<LinkageReport>) -> (r: Option<String>)
    ensures
        match linkage {
            Some(l) => if l@.linked_libs.len() == 1 {
                r matches Some(s) && s@ == l@.linked_libs[0]
            } else {
                r is None
            },
            None => r is None,
        },
{
    match linkage {
        Some(l) => if l.linked_libs.len() == 1 {
            Some(l.linked_libs[0].clone())
        } else {
            None
        },
        None => None,
    }
}

/// Outcome of the dry run: a failed dry run, or one whose output is not a
/// build plan, is a plan failure; otherwise the number of planned
/// compilation units, used only to size the progress indicator.
pub fn plan_tasks(plan_exit_ok: bool, plan_stdout: &str) -> (r: Result<usize, DriverError>)
    ensures
        !plan_exit_ok ==> r == Err::<usize, DriverError>(DriverError::PlanFailure),
        plan_exit_ok ==> r == (match build_plan_invocations_of(plan_stdout@) {
            Some(n) => Ok::<usize, DriverError>(n),
            None => Err::<usize, DriverError>(DriverError::PlanFailure),
        }),
{
    if !plan_exit_ok {
        return Err(DriverError::PlanFailure);
    }
    match parse_build_plan(plan_stdout) {
        Some(n) => Ok(n),
        None => Err(DriverError::PlanFailure),
    }
}

/// Final driver outcome once the stream is closed and the compiler has
/// exited: a non-zero exit is fatal; otherwise the retained artifact message
/// decides, exactly as `spec_resolve_artifact` states.
pub fn driver_result(scan: &ScanOutcome, build_succeeded: bool) -> (r: Result<String, DriverError>)
    ensures
        !build_succeeded ==> r == Err::<String, DriverError>(DriverError::BuildFailure),
        build_succeeded ==> match r {
            Ok(s) => spec_resolve_artifact(scan@.artifact) == Ok::<Seq<char>, DriverError>(s@),
            Err(e) => spec_resolve_artifact(scan@.artifact) == Err::<Seq<char>, DriverError>(e),
        },
{
    if !build_succeeded {
        return Err(DriverError::BuildFailure);
    }
    resolve_artifact(&scan.artifact)
}

/// Whether a recognized line is an artifact message for the given library.
pub open spec fn is_matching_artifact(m: Option<MessageView>, lib_name: Seq<char>) -> bool {
    match m {
        Some(MessageView::Artifact(a)) => artifact_matches(a, lib_name),
        _ => false,
    }
}

proof fn lemma_scan_no_artifact(msgs: Seq<Option<MessageView>>, lib_name: Seq<char>, binding_crate: Seq<char>)
    requires
        forall|i: int| 0 <= i < msgs.len() ==> !is_matching_artifact(#[trigger] msgs[i], lib_name),
    ensures
        scan_msgs(msgs, lib_name, binding_crate).artifact is None,
    decreases msgs.len(),
{
    if msgs.len() > 0 {
        lemma_scan_no_artifact(msgs.drop_last(), lib_name, binding_crate);
        assert(!is_matching_artifact(msgs.last(), lib_name));
    }
}

/// When no line of the build stream is an artifact message for the requested
/// library, the driver reports the artifact as missing — however many
/// unrelated messages were streamed.
pub proof fn lemma_driver_artifact_missing(lines: Seq<Seq<char>>, lib_name: Seq<char>, binding_crate: Seq<char>)
    requires
        forall|i: int|
            0 <= i < lines.len() ==> !is_matching_artifact(stream_message_of(#[trigger] lines[i]), lib_name),
    ensures
        spec_resolve_artifact(scan_lines_spec(lines, lib_name, binding_crate).artifact)
            == Err::<Seq<char>, DriverError>(DriverError::ArtifactMissing),
{
    let msgs = line_messages(lines);
    assert forall|i: int| 0 <= i < msgs.len() implies !is_matching_artifact(#[trigger] msgs[i], lib_name) by {
        assert(msgs[i] == stream_message_of(lines[i]));
    }
    lemma_scan_no_artifact(msgs, lib_name, binding_crate);
}

/// An artifact message that declares no foreign-loadable kind can only make
/// the driver fail with the targeted remediation hint — never hand back a
/// silently wrong path.
pub proof fn lemma_artifact_kind_missing(a: ArtifactMessageView)
    requires
        forall|i: int| 0 <= i < a.crate_types.len() ==> #[trigger] a.crate_types[i] != cdylib_kind(),
    ensures
        spec_resolve_artifact(Some(a)) == Err::<Seq<char>, DriverError>(DriverError::ArtifactKindMissing),
{
    lemma_cdylib_position_none(a.crate_types);
}

/// Lines that are unparseable, or parse to a message that matches neither
/// retention rule, never change what the scan retains: the scan of a stream
/// equals the scan of the same stream with those lines removed.
pub proof fn lemma_noise_lines_ignored(lines: Seq<Seq<char>>, lib_name: Seq<char>, binding_crate: Seq<char>)
    ensures
        scan_lines_spec(lines, lib_name, binding_crate) == scan_lines_spec(
            lines.filter(|l: Seq<char>| relevant(stream_message_of(l), lib_name, binding_crate)),
            lib_name,
            binding_crate,
        ),
    decreases lines.len(),
{
    let pred = |l: Seq<char>| relevant(stream_message_of(l), lib_name, binding_crate);
    reveal(Seq::filter);
    if lines.len() == 0 {
        assert(lines.filter(pred) =~= lines);
    } else {
        let last = lines.last();
        let init = lines.drop_last();
        lemma_noise_lines_ignored(init, lib_name, binding_crate);
        assert(line_messages(lines) =~= line_messages(init).push(stream_message_of(last)));
        assert(line_messages(init).push(stream_message_of(last)).drop_last() =~= line_messages(init));
        if pred(last) {
            assert(lines.filter(pred) == init.filter(pred).push(last));
            assert(line_messages(init.filter(pred).push(last)) =~= line_messages(init.filter(pred)).push(
                stream_message_of(last),
            ));
            assert(line_messages(init.filter(pred)).push(stream_message_of(last)).drop_last()
                =~= line_messages(init.filter(pred)));
        } else {
            assert(lines.filter(pred) == init.filter(pred));
            assert(scan_step(
                scan_msgs(line_messages(init), lib_name, binding_crate),
                stream_message_of(last),
                lib_name,
                binding_crate,
            ) == scan_msgs(line_messages(init), lib_name, binding_crate));
        }
    }
}

} // verus!
