//! Build information generation.
//!
//! The generator runs as a fixed pipeline: resolve the output path, open the
//! enclosing repository, extract the short form of the current revision,
//! assemble the record with a build timestamp, and write the artifact. The
//! repository lookups and the file write are performed by the caller, which
//! reports each outcome as an event; every decision the pipeline takes on
//! those events is made here, under contract. The stage types make the order
//! of the pipeline part of the types themselves: a write action exists only
//! once a repository was opened and a revision extracted.

use vstd::prelude::*;
use vstd::string::StrSliceExecFns;
use vstd::string::StringExecFns;

use crate::json::spec_build_info_json;
use crate::json::render_build_info_json;

verus! {

/// Errors that can occur while generating build information, one variant per
/// stage failure. The payload, where present, carries the underlying cause as
/// reported by the collaborator that failed.
#[derive(Debug, Clone, PartialEq, Eq)]
pub enum BuildInfoError {
    /// No repository is discoverable from the starting path up to the
    /// filesystem root.
    RepositoryNotFound,
    /// A repository was found but could not be opened.
    RepositoryOpenFailed(String),
    /// The repository exists but has no history, so there is no revision to
    /// report.
    NoCommitsYet,
    /// The `HEAD` reference could not be dereferenced.
    HeadUnresolvable(String),
    /// No unambiguous short prefix could be produced for the revision.
    ShorteningFailed(String),
    /// The resolved output path cannot be made absolute.
    OutputPathInvalid,
    /// The artifact could not be written to the destination.
    WriteFailed(String),
    /// The record could not be encoded. Unreachable with the fixed two-field
    /// record, but kept as a distinct, reportable failure.
    SerializationFailed(String),
}

impl BuildInfoError {
    /// The human-readable message for this error: the stage that failed and,
    /// where one was reported, the underlying cause.
    pub open spec fn spec_message(&self) -> Seq<char> {
        match self {
            BuildInfoError::RepositoryNotFound => "Failed to open repository: no repository found here or in any parent directory"@,
            BuildInfoError::RepositoryOpenFailed(m) => "Failed to open repository: "@ + m@,
            BuildInfoError::NoCommitsYet => "Failed to get head revision: the repository has no commits yet"@,
            BuildInfoError::HeadUnresolvable(m) => "Failed to resolve HEAD: "@ + m@,
            BuildInfoError::ShorteningFailed(m) => "Failed to get short revision: "@ + m@,
            BuildInfoError::OutputPathInvalid => "Invalid output path: it cannot be made absolute"@,
            BuildInfoError::WriteFailed(m) => "Failed to write to output file: "@ + m@,
            BuildInfoError::SerializationFailed(m) => "Failed to serialize build info: "@ + m@,
        }
    }

    /// Renders the message for this error.
    pub fn message(&self) -> (text: String)
        ensures
            text@ == self.spec_message(),
    {
        match self {
            BuildInfoError::RepositoryNotFound => String::from_str(
                "Failed to open repository: no repository found here or in any parent directory",
            ),
            BuildInfoError::RepositoryOpenFailed(m) => {
                let mut text = String::from_str("Failed to open repository: ");
                text.append(m.as_str());
                text
            },
            BuildInfoError::NoCommitsYet => String::from_str(
                "Failed to get head revision: the repository has no commits yet",
            ),
            BuildInfoError::HeadUnresolvable(m) => {
                let mut text = String::from_str("Failed to resolve HEAD: ");
                text.append(m.as_str());
                text
            },
            BuildInfoError::ShorteningFailed(m) => {
                let mut text = String::from_str("Failed to get short revision: ");
                text.append(m.as_str());
                text
            },
            BuildInfoError::OutputPathInvalid => String::from_str(
                "Invalid output path: it cannot be made absolute",
            ),
            BuildInfoError::WriteFailed(m) => {
                let mut text = String::from_str("Failed to write to output file: ");
                text.append(m.as_str());
                text
            },
            BuildInfoError::SerializationFailed(m) => {
                let mut text = String::from_str("Failed to serialize build info: ");
                text.append(m.as_str());
                text
            },
        }
    }
}

/// Build information data structure: the revision in the repository's own
/// short form, and the build timestamp in whole seconds since the Unix epoch.
#[derive(Debug, Clone, PartialEq, Eq)]
pub struct BuildInfo {
    /// The current revision of the code base, in short form.
    pub revision: String,
    /// The timestamp of the build.
    pub build_time: i64,
}

impl BuildInfo {
    /// Assembles the record: pure construction, no I/O, no failure modes.
    /// The build time is captured once, by the caller, and immutable here.
    pub fn new(revision: String, build_time: i64) -> (info: BuildInfo)
        ensures
            info.revision == revision,
            info.build_time == build_time,
    {
        BuildInfo { revision, build_time }
    }

    /// Renders this record as the artifact text.
    pub fn to_json(&self) -> (out: String)
        ensures
            out@ == spec_build_info_json(self.revision@, self.build_time as int),
    {
        render_build_info_json(self.revision.as_str(), self.build_time)
    }
}

/// What the caller observed when trying to discover and open the enclosing
/// repository.
#[derive(Debug, Clone, PartialEq, Eq)]
pub enum RepositoryEvent {
    /// A repository was found and opened.
    Opened,
    /// No repository exists here or in any ancestor directory.
    NotFound,
    /// A repository was found but opening it failed, with the reported cause.
    OpenFailed(String),
}

/// What the caller observed when resolving `HEAD` to a short revision.
#[derive(Debug, Clone, PartialEq, Eq)]
pub enum RevisionEvent {
    /// `HEAD` resolved to a commit, with the repository's own short-form
    /// rendering of its identifier.
    Resolved(String),
    /// `HEAD` points to a branch with no commits yet.
    Unborn,
    /// The `HEAD` reference could not be dereferenced, with the cause.
    HeadFailed(String),
    /// No unambiguous short prefix could be produced, with the cause.
    ShortenFailed(String),
}

/// What the caller observed when persisting the artifact.
#[derive(Debug, Clone, PartialEq, Eq)]
pub enum WriteEvent {
    /// The file was created or overwritten with the artifact bytes.
    Written,
    /// The filesystem refused the write, with the reported cause.
    Failed(String),
}

/// The default artifact name, used when no output path is supplied.
pub open spec fn spec_default_file() -> Seq<char> {
    "build_info.json"@
}

/// A relative path joined under a directory: a single `/` separates them,
/// none is added when the directory already ends in one.
pub open spec fn spec_joined_path(dir: Seq<char>, rel: Seq<char>) -> Seq<char> {
    if dir.len() > 0 && dir.last() == '/' {
        dir + rel
    } else {
        dir + seq!['/'] + rel
    }
}

/// Joins `rel` under `dir`.
fn joined_path(dir: &str, rel: &str) -> (path: String)
    requires
        dir@.len() > 0,
    ensures
        path@ == spec_joined_path(dir@, rel@),
{
    let mut path = String::from_str(dir);
    let len = dir.unicode_len();
    if dir.get_char(len - 1) != '/' {
        proof {
            reveal_strlit("/");
            assert(("/")@ =~= seq!['/']);
        }
        path.append("/");
    }
    path.append(rel);
    proof {
        assert(path@ =~= spec_joined_path(dir@, rel@));
    }
    path
}

/// The build information command: generates structured metadata about the
/// build in JSON format, holding the output file path if one was supplied.
#[derive(Debug, Clone, PartialEq, Eq)]
pub struct BuildInfoCommand {
    /// Output file. When absent, the artifact defaults to `build_info.json`
    /// inside the working directory.
    pub out: Option<String>,
}

impl BuildInfoCommand {
    /// Makes the command for an optional output path.
    pub fn new(out: Option<String>) -> (cmd: Self)
        ensures
            cmd.out == out,
    {
        BuildInfoCommand { out }
    }

    /// Whether the supplied output path can be resolved at all: only an
    /// empty path cannot be made absolute.
    pub open spec fn spec_path_valid(&self) -> bool {
        match self.out {
            Option::None => true,
            Option::Some(p) => p@.len() > 0,
        }
    }

    /// The resolved output path: the supplied path itself when it is already
    /// absolute, the supplied path under the working directory when it is
    /// relative, and the default artifact name under the working directory
    /// when none was supplied.
    pub open spec fn spec_resolved_path(&self, cwd: Seq<char>) -> Seq<char>
        recommends
            self.spec_path_valid(),
    {
        match self.out {
            Option::None => spec_joined_path(cwd, spec_default_file()),
            Option::Some(p) => if p@.len() > 0 && p@[0] == '/' {
                p@
            } else {
                spec_joined_path(cwd, p@)
            },
        }
    }

    /// Starts a run of the generator from an absolute working directory:
    /// resolves the output path, so that the written location is independent
    /// of any later directory change, and hands back the stage that awaits
    /// the repository.
    pub fn begin(&self, cwd: &str) -> (r: Result<PendingRepository, BuildInfoError>)
        requires
            cwd@.len() > 0,
            cwd@[0] == '/',
        ensures
            self.spec_path_valid() ==> (r matches Ok(pending) && pending.out_path@
                == self.spec_resolved_path(cwd@)),
            !self.spec_path_valid() ==> (r matches Err(e) && e
                == BuildInfoError::OutputPathInvalid),
    {
        match &self.out {
            Option::None => Ok(
                PendingRepository { out_path: joined_path(cwd, "build_info.json") },
            ),
            Option::Some(p) => {
                if p.as_str().is_empty() {
                    Err(BuildInfoError::OutputPathInvalid)
                } else if p.as_str().get_char(0) == '/' {
                    Ok(PendingRepository { out_path: p.clone() })
                } else {
                    Ok(PendingRepository { out_path: joined_path(cwd, p.as_str()) })
                }
            },
        }
    }
}

/// A run whose output path is resolved and that now awaits the repository.
#[derive(Debug, Clone, PartialEq, Eq)]
pub struct PendingRepository {
    /// The resolved, absolute output path of the run.
    pub out_path: String,
}

impl PendingRepository {
    /// Takes the repository outcome: a run continues only when a repository
    /// was found and opened, and each failure maps to exactly one error.
    pub fn repository(self, ev: RepositoryEvent) -> (r: Result<PendingRevision, BuildInfoError>)
        ensures
            match ev {
                RepositoryEvent::Opened => (r matches Ok(next) && next.out_path
                    == self.out_path),
                RepositoryEvent::NotFound => (r matches Err(e) && e
                    == BuildInfoError::RepositoryNotFound),
                RepositoryEvent::OpenFailed(m) => (r matches Err(e) && e
                    == BuildInfoError::RepositoryOpenFailed(m)),
            },
    {
        match ev {
            RepositoryEvent::Opened => Ok(PendingRevision { out_path: self.out_path }),
            RepositoryEvent::NotFound => Err(BuildInfoError::RepositoryNotFound),
            RepositoryEvent::OpenFailed(m) => Err(BuildInfoError::RepositoryOpenFailed(m)),
        }
    }
}

/// A run with an open repository that now awaits the revision of `HEAD`.
#[derive(Debug, Clone, PartialEq, Eq)]
pub struct PendingRevision {
    /// The resolved, absolute output path of the run.
    pub out_path: String,
}

impl PendingRevision {
    /// Takes the revision outcome together with the build timestamp:
    /// assembles the record and renders the artifact bytes. The revision in
    /// the record is exactly the repository's own short-form rendering, never
    /// empty; a repository without commits, an unresolvable `HEAD`, and a
    /// failed shortening each map to exactly one error.
    pub fn revision_at(self, ev: RevisionEvent, build_time: i64) -> (r: Result<
        PendingWrite,
        BuildInfoError,
    >)
        ensures
            match ev {
                RevisionEvent::Resolved(s) => (if s@.len() == 0 {
                    r matches Err(e) && e matches BuildInfoError::ShorteningFailed(m) && m@
                        == "the repository produced an empty short revision"@
                } else {
                    r matches Ok(w) && w.out_path == self.out_path && w.info.revision == s
                        && w.info.revision@.len() > 0 && w.info.build_time == build_time
                        && w.contents@ == spec_build_info_json(s@, build_time as int)
                }),
                RevisionEvent::Unborn => (r matches Err(e) && e == BuildInfoError::NoCommitsYet),
                RevisionEvent::HeadFailed(m) => (r matches Err(e) && e
                    == BuildInfoError::HeadUnresolvable(m)),
                RevisionEvent::ShortenFailed(m) => (r matches Err(e) && e
                    == BuildInfoError::ShorteningFailed(m)),
            },
    {
        match ev {
            RevisionEvent::Resolved(s) => {
                if s.as_str().is_empty() {
                    Err(
                        BuildInfoError::ShorteningFailed(
                            String::from_str("the repository produced an empty short revision"),
                        ),
                    )
                } else {
                    let contents = render_build_info_json(s.as_str(), build_time);
                    let info = BuildInfo::new(s, build_time);
                    Ok(PendingWrite { out_path: self.out_path, contents, info })
                }
            },
            RevisionEvent::Unborn => Err(BuildInfoError::NoCommitsYet),
            RevisionEvent::HeadFailed(m) => Err(BuildInfoError::HeadUnresolvable(m)),
            RevisionEvent::ShortenFailed(m) => Err(BuildInfoError::ShorteningFailed(m)),
        }
    }

    /// Takes the revision outcome and captures the build timestamp from the
    /// wall clock at this moment of the run. Whatever the clock returned, the
    /// record and the artifact carry that one captured value.
    pub fn revision(self, ev: RevisionEvent) -> (r: Result<PendingWrite, BuildInfoError>)
        ensures
            match ev {
                RevisionEvent::Resolved(s) => (if s@.len() == 0 {
                    r matches Err(e) && e matches BuildInfoError::ShorteningFailed(m) && m@
                        == "the repository produced an empty short revision"@
                } else {
                    r matches Ok(w) && w.out_path == self.out_path && w.info.revision == s
                        && w.info.revision@.len() > 0 && w.contents@ == spec_build_info_json(
                        s@,
                        w.info.build_time as int,
                    )
                }),
                RevisionEvent::Unborn => (r matches Err(e) && e == BuildInfoError::NoCommitsYet),
                RevisionEvent::HeadFailed(m) => (r matches Err(e) && e
                    == BuildInfoError::HeadUnresolvable(m)),
                RevisionEvent::ShortenFailed(m) => (r matches Err(e) && e
                    == BuildInfoError::ShorteningFailed(m)),
            },
    {
        let build_time = capture_build_time();
        self.revision_at(ev, build_time)
    }
}

/// A run whose artifact is assembled and rendered and that now awaits the
/// write. The caller persists `contents` at `out_path`, creating the file or
/// truncating an existing one, and reports the outcome.
#[derive(Debug, Clone, PartialEq, Eq)]
pub struct PendingWrite {
    /// The resolved, absolute output path of the run.
    pub out_path: String,
    /// The artifact bytes to persist, exactly as rendered.
    pub contents: String,
    /// The assembled record the artifact was rendered from.
    pub info: BuildInfo,
}

impl PendingWrite {
    /// Takes the write outcome: on success the run ends with the record it
    /// reported, and a refused write maps to exactly one error.
    pub fn complete(self, ev: WriteEvent) -> (r: Result<BuildInfo, BuildInfoError>)
        ensures
            match ev {
                WriteEvent::Written => (r matches Ok(info) && info == self.info),
                WriteEvent::Failed(m) => (r matches Err(e) && e == BuildInfoError::WriteFailed(
                    m,
                )),
            },
    {
        match ev {
            WriteEvent::Written => Ok(self.info),
            WriteEvent::Failed(m) => Err(BuildInfoError::WriteFailed(m)),
        }
    }
}

/// Relies on chrono's `From<std::time::SystemTime>` conversion for the host
/// wall clock, converted by chrono::DateTime::timestamp to whole seconds
/// since the Unix epoch. The conversion handles a clock before the epoch
/// without failing, where chrono::Utc::now would abort. The value depends on
/// the clock at the moment of the call, so nothing is promised of it.
#[verifier::external_body]
fn capture_build_time() -> i64 {
    chrono::DateTime::<chrono::Utc>::from(std::time::SystemTime::now()).timestamp()
}

} // verus!
