//! What is sent to a GitLab issue tracker for a failing trial: the names of
//! the uploaded artifacts, the addresses of the requests, and the issue that
//! links the artifacts.
//!
//! Nothing here touches the network. The caller uploads and posts; this
//! module says what.

use crate::text::{append_decimal, decimal_digits};
use vstd::prelude::*;
use vstd::string::StringExecFns;

verus! {

broadcast use vstd::string::group_string_axioms;

/// The view of an optional string.
pub open spec fn text_view(text: Option<String>) -> Option<Seq<char>> {
    match text {
        Some(t) => Some(t@),
        None => None,
    }
}

/// The access to one project of a GitLab instance.
#[derive(Debug)]
pub struct Gitlab {
    endpoint: String,
    token: String,
    project_id: u64,
}

/// What a `Gitlab` holds.
pub struct GitlabView {
    /// Host name of the instance.
    pub endpoint: Seq<char>,
    /// Private token sent with each request.
    pub token: Seq<char>,
    /// The project that receives uploads and issues.
    pub project_id: u64,
}

impl View for Gitlab {
    type V = GitlabView;

    closed spec fn view(&self) -> GitlabView {
        GitlabView { endpoint: self.endpoint@, token: self.token@, project_id: self.project_id }
    }
}

/// The address of a collection of a project: `kind` is `uploads` or
/// `issues`.
pub open spec fn project_url(endpoint: Seq<char>, project_id: u64, kind: Seq<char>) -> Seq<char> {
    "https://"@ + endpoint + "/api/v4/projects/"@ + decimal_digits(project_id as nat) + "/"@ + kind
}

/// The name under which the captured standard output of a trial is uploaded.
pub open spec fn stdout_artifact_name(seed: u32, now: u64) -> Seq<char> {
    "simulation_stdout_seed_"@ + decimal_digits(seed as nat) + "_"@ + decimal_digits(now as nat)
        + ".txt"@
}

/// The name under which the captured standard error of a trial is uploaded.
pub open spec fn stderr_artifact_name(seed: u32, now: u64) -> Seq<char> {
    "simulation_stderr_seed_"@ + decimal_digits(seed as nat) + "_"@ + decimal_digits(now as nat)
        + ".txt"@
}

/// The name under which the archive of the log directory is uploaded.
pub open spec fn logs_artifact_name(seed: u32, now: u64) -> Seq<char> {
    "simulation_logs_seed_"@ + decimal_digits(seed as nat) + "_"@ + decimal_digits(now as nat)
        + ".tar.gz"@
}

/// The title of the issue for a failing seed.
pub open spec fn issue_title(seed: u32) -> Seq<char> {
    "Investigate Faulty Seed #"@ + decimal_digits(seed as nat)
}

/// How the commit under test is named in an issue.
pub open spec fn commit_label(commit_id: Option<Seq<char>>) -> Seq<char> {
    match commit_id {
        Some(id) => id,
        None => "Non specified"@,
    }
}

/// The body of the issue for a failing trial: the commit, a link to each of
/// the three uploads, and the filtered log records as a fenced block.
pub open spec fn issue_description(
    commit_id: Option<Seq<char>>,
    stdout_url: Seq<char>,
    stderr_url: Seq<char>,
    logs_url: Seq<char>,
    filtered_output: Seq<char>,
) -> Seq<char> {
    "- Commit ID: "@ + commit_label(commit_id) + "\n- Output: [simulation.out]("@ + stdout_url
        + ")\n- Stderr : [simulation.err]("@ + stderr_url + ")\n- Full logs: [logs.tar.gz]("@
        + logs_url + ")\n- Layer errors:\n```json\n"@ + filtered_output + "\n```\n"@
}

/// What is printed to standard output for a failing trial where no tracker
/// is configured: a heading for each of the three parts, with what the trial
/// wrote to standard output and the filtered records below theirs. What the
/// trial wrote to standard error goes to standard error.
pub open spec fn console_output(stdout: Option<Seq<char>>, filtered_output: Seq<char>) -> Seq<
    char,
> {
    "stdout:\n\n"@ + captured_line(stdout) + "stderr:\n\n"@
        + "layer errors (filtered_output):\n\n"@ + (if filtered_output.len() > 0 {
        filtered_output + "\n"@
    } else {
        Seq::empty()
    })
}

/// A captured stream as it is printed: its text and a line feed, or nothing
/// where it was not captured.
pub open spec fn captured_line(captured: Option<Seq<char>>) -> Seq<char> {
    match captured {
        Some(text) => text + "\n"@,
        None => Seq::empty(),
    }
}

/// What is printed for a failing trial where no tracker is configured.
#[derive(Debug)]
pub struct ConsoleReport {
    /// What goes to standard output.
    pub out: String,
    /// What goes to standard error.
    pub err: String,
}

/// What a failing trial leaves behind for the report.
#[derive(Debug)]
pub struct Payload {
    /// The log records kept by the filter, pretty-printed.
    filtered_output: String,
    /// What the trial wrote to standard output, if it was captured.
    stdout: Option<String>,
    /// What the trial wrote to standard error, if it was captured.
    stderr: Option<String>,
    /// The seed of the trial.
    seed: u32,
    /// The commit of the code under test, if known.
    commit_id: Option<String>,
    /// Path of the directory that holds the trial's logs.
    logs: String,
}

/// What a `Payload` holds.
pub struct PayloadView {
    pub filtered_output: Seq<char>,
    pub stdout: Option<Seq<char>>,
    pub stderr: Option<Seq<char>>,
    pub seed: u32,
    pub commit_id: Option<Seq<char>>,
    pub logs: Seq<char>,
}

impl View for Payload {
    type V = PayloadView;

    closed spec fn view(&self) -> PayloadView {
        PayloadView {
            filtered_output: self.filtered_output@,
            stdout: text_view(self.stdout),
            stderr: text_view(self.stderr),
            seed: self.seed,
            commit_id: text_view(self.commit_id),
            logs: self.logs@,
        }
    }
}

/// The names under which the three artifacts of a trial are uploaded.
#[derive(Debug)]
pub struct ArtifactNames {
    pub stdout: String,
    pub stderr: String,
    pub logs: String,
}

/// The addresses that the tracker gave to the three uploads of a trial.
#[derive(Debug)]
pub struct UploadedArtifacts {
    pub stdout_url: String,
    pub stderr_url: String,
    pub logs_url: String,
}

/// An issue, ready to be posted.
#[derive(Debug)]
pub struct Issue {
    /// The address to post to.
    pub url: String,
    pub title: String,
    pub description: String,
}

/// Appends `"_" + now + suffix` after `prefix + seed`.
fn artifact_name(prefix: &str, seed: u32, now: u64, suffix: &str) -> (name: String)
    ensures
        name@ == prefix@ + decimal_digits(seed as nat) + "_"@ + decimal_digits(now as nat)
            + suffix@,
{
    let mut name = String::from_str(prefix);
    append_decimal(&mut name, seed as u64);
    name.append("_");
    append_decimal(&mut name, now);
    name.append(suffix);
    name
}

impl Payload {
    /// Gathers what a failing trial leaves behind.
    pub fn new(
        logs: String,
        filtered_output: String,
        stdout: Option<String>,
        stderr: Option<String>,
        seed: u32,
        commit_id: Option<String>,
    ) -> (payload: Payload)
        ensures
            payload@ == (PayloadView {
                filtered_output: filtered_output@,
                stdout: text_view(stdout),
                stderr: text_view(stderr),
                seed,
                commit_id: text_view(commit_id),
                logs: logs@,
            }),
    {
        Payload { filtered_output, stdout, stderr, seed, commit_id, logs }
    }

    /// The seed of the trial.
    pub fn seed(&self) -> (seed: u32)
        ensures
            seed == self@.seed,
    {
        self.seed
    }

    /// Path of the directory that holds the trial's logs.
    pub fn logs(&self) -> (logs: &str)
        ensures
            logs@ == self@.logs,
    {
        self.logs.as_str()
    }

    /// The log records kept by the filter.
    pub fn filtered_output(&self) -> (text: &str)
        ensures
            text@ == self@.filtered_output,
    {
        self.filtered_output.as_str()
    }

    /// What is uploaded as the trial's standard output: what was captured,
    /// or nothing.
    pub fn stdout_text(&self) -> (text: &str)
        ensures
            text@ == match self@.stdout {
                Some(t) => t,
                None => Seq::empty(),
            },
    {
        match &self.stdout {
            Some(t) => t.as_str(),
            None => {
                proof {
                    reveal_strlit("");
                }
                ""
            },
        }
    }

    /// What is uploaded as the trial's standard error: what was captured,
    /// or nothing.
    pub fn stderr_text(&self) -> (text: &str)
        ensures
            text@ == match self@.stderr {
                Some(t) => t,
                None => Seq::empty(),
            },
    {
        match &self.stderr {
            Some(t) => t.as_str(),
            None => {
                proof {
                    reveal_strlit("");
                }
                ""
            },
        }
    }

    /// What is printed for this trial where no tracker is configured.
    pub fn console_report(&self) -> (report: ConsoleReport)
        ensures
            report.out@ == console_output(self@.stdout, self@.filtered_output),
            report.err@ == captured_line(self@.stderr),
    {
        let mut out = String::from_str("stdout:\n\n");
        if let Some(text) = &self.stdout {
            out.append(text.as_str());
            out.append("\n");
        }
        out.append("stderr:\n\n");
        out.append("layer errors (filtered_output):\n\n");
        if !self.filtered_output.as_str().is_empty() {
            out.append(self.filtered_output.as_str());
            out.append("\n");
        }
        let mut err = String::new();
        if let Some(text) = &self.stderr {
            err.append(text.as_str());
            err.append("\n");
        }
        proof {
            let empty = Seq::<char>::empty();
            assert("stdout:\n\n"@ + empty =~= "stdout:\n\n"@);
            assert(out@ =~= console_output(self@.stdout, self@.filtered_output));
            assert(err@ =~= captured_line(self@.stderr));
        }
        ConsoleReport { out, err }
    }

    /// The names of the three uploads of this trial, made at the time `now`,
    /// given in seconds since the Unix epoch.
    pub fn artifact_names(&self, now: u64) -> (names: ArtifactNames)
        ensures
            names.stdout@ == stdout_artifact_name(self@.seed, now),
            names.stderr@ == stderr_artifact_name(self@.seed, now),
            names.logs@ == logs_artifact_name(self@.seed, now),
    {
        ArtifactNames {
            stdout: artifact_name("simulation_stdout_seed_", self.seed, now, ".txt"),
            stderr: artifact_name("simulation_stderr_seed_", self.seed, now, ".txt"),
            logs: artifact_name("simulation_logs_seed_", self.seed, now, ".tar.gz"),
        }
    }
}

impl Gitlab {
    /// The access to project `project_id` of the instance at `endpoint`.
    pub fn new(endpoint: String, token: String, project_id: u64) -> (api: Gitlab)
        ensures
            api@ == (GitlabView { endpoint: endpoint@, token: token@, project_id }),
    {
        Gitlab { endpoint, token, project_id }
    }

    /// The tracker that a run reports to, if any: reporting needs both a
    /// token and a project.
    pub fn from_settings(
        token: Option<String>,
        endpoint: String,
        project_id: Option<u64>,
    ) -> (api: Option<Gitlab>)
        ensures
            match (token, project_id) {
                (Some(t), Some(id)) => api matches Some(a) && a@ == (GitlabView {
                    endpoint: endpoint@,
                    token: t@,
                    project_id: id,
                }),
                _ => api is None,
            },
    {
        match (token, project_id) {
            (Some(t), Some(id)) => Some(Gitlab::new(endpoint, t, id)),
            _ => None,
        }
    }

    /// Host name of the instance.
    pub fn endpoint(&self) -> (endpoint: &str)
        ensures
            endpoint@ == self@.endpoint,
    {
        self.endpoint.as_str()
    }

    /// The private token to send with each request.
    pub fn token(&self) -> (token: &str)
        ensures
            token@ == self@.token,
    {
        self.token.as_str()
    }

    /// The project that receives uploads and issues.
    pub fn project_id(&self) -> (id: u64)
        ensures
            id == self@.project_id,
    {
        self.project_id
    }

    /// The address of the project's collection `kind`.
    fn url_of(&self, kind: &str) -> (url: String)
        ensures
            url@ == project_url(self@.endpoint, self@.project_id, kind@),
    {
        let mut url = String::from_str("https://");
        url.append(self.endpoint.as_str());
        url.append("/api/v4/projects/");
        append_decimal(&mut url, self.project_id);
        url.append("/");
        url.append(kind);
        url
    }

    /// The address that files are uploaded to.
    pub fn uploads_url(&self) -> (url: String)
        ensures
            url@ == project_url(self@.endpoint, self@.project_id, "uploads"@),
    {
        self.url_of("uploads")
    }

    /// The address that issues are posted to.
    pub fn issues_url(&self) -> (url: String)
        ensures
            url@ == project_url(self@.endpoint, self@.project_id, "issues"@),
    {
        self.url_of("issues")
    }

    /// The issue that reports the failing trial `payload`, once its three
    /// artifacts have been uploaded.
    pub fn create_issue(&self, payload: &Payload, uploads: &UploadedArtifacts) -> (issue: Issue)
        ensures
            issue.url@ == project_url(self@.endpoint, self@.project_id, "issues"@),
            issue.title@ == issue_title(payload@.seed),
            issue.description@ == issue_description(
                payload@.commit_id,
                uploads.stdout_url@,
                uploads.stderr_url@,
                uploads.logs_url@,
                payload@.filtered_output,
            ),
    {
        let mut title = String::from_str("Investigate Faulty Seed #");
        append_decimal(&mut title, payload.seed as u64);

        let mut description = String::from_str("- Commit ID: ");
        match &payload.commit_id {
            Some(id) => description.append(id.as_str()),
            None => description.append("Non specified"),
        }
        description.append("\n- Output: [simulation.out](");
        description.append(uploads.stdout_url.as_str());
        description.append(")\n- Stderr : [simulation.err](");
        description.append(uploads.stderr_url.as_str());
        description.append(")\n- Full logs: [logs.tar.gz](");
        description.append(uploads.logs_url.as_str());
        description.append(")\n- Layer errors:\n```json\n");
        description.append(payload.filtered_output.as_str());
        description.append("\n```\n");

        Issue { url: self.issues_url(), title, description }
    }
}

} // verus!
