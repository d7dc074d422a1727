//! A pipeline run: refresh the mirror, download the title, validate its
//! sources; every stage is best-effort, and the run keeps the log and the
//! status message that shows it.

use vstd::prelude::*;
use crate::decimal::{i32_text, int_text};

verus! {

/// Who started a run: an operator by command, or the poller on an update.
#[derive(Debug, PartialEq, Eq)]
pub enum RunContext {
    Manual { requester: String },
    Automatic { title: String },
}

/// The rendered status message: its title, footer, body and one field per
/// failed source (descriptor, message).
#[derive(Debug, PartialEq, Eq)]
pub struct StatusView {
    pub title: String,
    pub footer: Option<String>,
    pub description: String,
    pub fields: Vec<(String, String)>,
}

/// The status message as values.
pub struct StatusModel {
    pub title: Seq<char>,
    pub footer: Option<Seq<char>>,
    pub description: Seq<char>,
    pub fields: Seq<(Seq<char>, Seq<char>)>,
}

/// How refreshing the local mirror went.
#[derive(Debug, PartialEq, Eq)]
pub enum RefreshOutcome {
    Success,
    /// The refresh process could not be started.
    LaunchFailed(String),
    /// The refresh process ended badly; the text says how.
    ExitFailed(String),
}

/// How downloading the title went.
#[derive(Debug, PartialEq, Eq)]
pub enum DownloadOutcome {
    Success,
    /// The download ended with a status other than success; its text.
    Status(String),
    /// The download could not be carried out; the error's text.
    Error(String),
}

/// The validation outcome of one source: `failure` holds the message of a
/// failed validation.
#[derive(Debug, PartialEq, Eq)]
pub struct SourceOutcome {
    pub descriptor: String,
    pub failure: Option<String>,
}

pub open spec fn checker_title() -> Seq<char> {
    "Gamedata Checker"@
}

pub open spec fn requested_by(requester: Seq<char>) -> Seq<char> {
    "Requested by: "@ + requester
}

pub open spec fn update_title(title: Seq<char>) -> Seq<char> {
    title + " update detected"@
}

/// The lines of a log joined by newlines.
pub open spec fn join_lines(log: Seq<Seq<char>>) -> Seq<char>
    decreases log.len(),
{
    if log.len() == 0 {
        Seq::empty()
    } else if log.len() == 1 {
        log[0]
    } else {
        join_lines(log.drop_last()) + "\n"@ + log.last()
    }
}

/// Text set in a code block.
pub open spec fn code_block(text: Seq<char>) -> Seq<char> {
    "```\n"@ + text + "\n```"@
}

/// The status message of a run with this context, log and failure fields.
pub open spec fn render_model(
    context: &RunContext,
    log: Seq<Seq<char>>,
    fields: Seq<(Seq<char>, Seq<char>)>,
) -> StatusModel {
    StatusModel {
        title: match context {
            RunContext::Manual { .. } => checker_title(),
            RunContext::Automatic { title } => update_title(title@),
        },
        footer: match context {
            RunContext::Manual { requester } => Some(requested_by(requester@)),
            RunContext::Automatic { .. } => None,
        },
        description: code_block(join_lines(log)),
        fields,
    }
}

pub open spec fn first_line() -> Seq<char> {
    "Pulling latest sourcemod..."@
}

pub open spec fn downloading_line(appid: i32) -> Seq<char> {
    "Downloading appid '"@ + int_text(appid as int) + "'"@
}

pub open spec fn downloaded_line() -> Seq<char> {
    "Download completed. Running gdc..."@
}

pub open spec fn completed_line() -> Seq<char> {
    "Execution completed."@
}

/// The warning that a refresh outcome leaves in the log, if any.
pub open spec fn refresh_warning(o: &RefreshOutcome) -> Option<Seq<char>> {
    match o {
        RefreshOutcome::Success => None,
        RefreshOutcome::LaunchFailed(e) => Some("SourceMod pull failed: "@ + e@),
        RefreshOutcome::ExitFailed(e) => Some("SourceMod pull failed! (git exited with "@ + e@ + ")"@),
    }
}

/// The warning that a download outcome leaves in the log, if any.
pub open spec fn download_warning(o: &DownloadOutcome) -> Option<Seq<char>> {
    match o {
        DownloadOutcome::Success => None,
        DownloadOutcome::Status(t) => Some("Exited with status code "@ + t@),
        DownloadOutcome::Error(e) => Some("Fatal error: "@ + e@),
    }
}

pub open spec fn warning_lines(w: Option<Seq<char>>) -> Seq<Seq<char>> {
    match w {
        Some(line) => seq![line],
        None => Seq::empty(),
    }
}

/// One report field per failed source, in the order of the outcomes.
pub open spec fn failure_fields(results: Seq<SourceOutcome>) -> Seq<(Seq<char>, Seq<char>)>
    decreases results.len(),
{
    if results.len() == 0 {
        Seq::empty()
    } else {
        let before = failure_fields(results.drop_last());
        match results.last().failure {
            Some(m) => before.push((results.last().descriptor@, code_block(m@))),
            None => before,
        }
    }
}

impl StatusView {
    pub open spec fn model(&self) -> StatusModel {
        StatusModel {
            title: self.title@,
            footer: match self.footer {
                Some(f) => Some(f@),
                None => None,
            },
            description: self.description@,
            fields: self.fields@.map_values(|f: (String, String)| (f.0@, f.1@)),
        }
    }
}

/// Joins the lines of a log by newlines.
fn join_log(log: &Vec<String>) -> (r: String)
    ensures
        r@ == join_lines(log@.map_values(|s: String| s@)),
{
    let ghost lines = log@.map_values(|s: String| s@);
    let mut r = String::new();
    let mut i: usize = 0;
    proof {
        reveal_strlit("\n");
    }
    while i < log.len()
        invariant
            i <= log@.len(),
            lines == log@.map_values(|s: String| s@),
            r@ == join_lines(lines.take(i as int)),
        decreases log@.len() - i,
    {
        assert(lines.take(i + 1).drop_last() =~= lines.take(i as int));
        if i > 0 {
            r.append("\n");
        } else {
            assert(join_lines(lines.take(0)) == Seq::<char>::empty());
            assert(r@ + log[0]@ =~= log[0]@);
        }
        r.append(log[i].as_str());
        i = i + 1;
    }
    assert(lines.take(log@.len() as int) =~= lines);
    r
}

/// Sets text in a code block.
fn code_block_text(text: &str) -> (r: String)
    ensures
        r@ == code_block(text@),
{
    let mut r = String::from_str("```\n");
    r.append(text);
    r.append("\n```");
    r
}

/// A run in progress: its context, the title it checks and its log.
#[derive(Debug)]
pub struct PipelineRun {
    context: RunContext,
    appid: i32,
    log: Vec<String>,
}

impl PipelineRun {
    /// Who started the run.
    pub closed spec fn run_context(&self) -> RunContext {
        self.context
    }

    /// The title that the run checks.
    pub closed spec fn title_id(&self) -> i32 {
        self.appid
    }

    /// The run's log, one line per entry.
    pub closed spec fn lines(&self) -> Seq<Seq<char>> {
        self.log@.map_values(|s: String| s@)
    }

    /// A new run; its log says that the mirror is being refreshed.
    pub fn start(context: RunContext, appid: i32) -> (r: Self)
        ensures
            r.run_context() == context,
            r.title_id() == appid,
            r.lines() == seq![first_line()],
    {
        let log = vec![String::from_str("Pulling latest sourcemod...")];
        let r = PipelineRun { context, appid, log };
        assert(r.lines() =~= seq![first_line()]);
        r
    }

    /// Who started the run.
    pub fn context(&self) -> (r: &RunContext)
        ensures
            *r == self.run_context(),
    {
        &self.context
    }

    /// The title that the run checks.
    pub fn appid(&self) -> (r: i32)
        ensures
            r == self.title_id(),
    {
        self.appid
    }

    /// The log's lines.
    pub fn log(&self) -> (r: Vec<String>)
        ensures
            r@.map_values(|s: String| s@) == self.lines(),
    {
        let mut r: Vec<String> = Vec::new();
        let mut i: usize = 0;
        while i < self.log.len()
            invariant
                i <= self.log@.len(),
                r@.map_values(|s: String| s@) == self.lines().take(i as int),
            decreases self.log@.len() - i,
        {
            let ghost before = r@;
            let line = self.log[i].clone();
            assert(line@ == self.lines()[i as int]);
            r.push(line);
            assert(r@.map_values(|s: String| s@) =~= before.map_values(|s: String| s@).push(line@));
            i = i + 1;
            assert(r@.map_values(|s: String| s@) =~= self.lines().take(i as int));
        }
        assert(self.lines().take(self.log@.len() as int) =~= self.lines());
        r
    }

    /// Renders the status message from the context and the whole log, with
    /// the given failure fields.
    fn render(&self, fields: Vec<(String, String)>) -> (r: StatusView)
        ensures
            r.model() == render_model(&self.context, self.lines(), fields@.map_values(
                |f: (String, String)| (f.0@, f.1@),
            )),
    {
        let description = code_block_text(join_log(&self.log).as_str());
        let (title, footer) = match &self.context {
            RunContext::Manual { requester } => {
                let mut footer = String::from_str("Requested by: ");
                footer.append(requester.as_str());
                (String::from_str("Gamedata Checker"), Some(footer))
            },
            RunContext::Automatic { title } => {
                let mut t = title.clone();
                t.append(" update detected");
                (t, None)
            },
        };
        StatusView { title, footer, description, fields }
    }

    /// The status message as it stands: rendered afresh from the whole log,
    /// so that rendering twice gives the same message.
    pub fn status(&self) -> (r: StatusView)
        ensures
            r.model() == render_model(&self.run_context(), self.lines(), Seq::empty()),
    {
        let none: Vec<(String, String)> = Vec::new();
        assert(none@.map_values(|f: (String, String)| (f.0@, f.1@)) =~= Seq::empty());
        self.render(none)
    }

    fn push_line(&mut self, line: String)
        ensures
            final(self).run_context() == old(self).run_context(),
            final(self).title_id() == old(self).title_id(),
            final(self).lines() == old(self).lines().push(line@),
    {
        self.log.push(line);
        assert(self.lines() =~= old(self).lines().push(line@));
    }

    /// Records the mirror refresh: its warning if it failed, then that the
    /// download starts. Returns the message to show.
    pub fn refresh_done(&mut self, outcome: RefreshOutcome) -> (r: StatusView)
        ensures
            final(self).run_context() == old(self).run_context(),
            final(self).title_id() == old(self).title_id(),
            final(self).lines() == old(self).lines() + warning_lines(refresh_warning(&outcome))
                + seq![downloading_line(old(self).title_id())],
            r.model() == render_model(&final(self).run_context(), final(self).lines(), Seq::empty()),
    {
        let ghost before = self.lines();
        match &outcome {
            RefreshOutcome::Success => {},
            RefreshOutcome::LaunchFailed(e) => {
                let mut w = String::from_str("SourceMod pull failed: ");
                w.append(e.as_str());
                self.push_line(w);
            },
            RefreshOutcome::ExitFailed(e) => {
                let mut w = String::from_str("SourceMod pull failed! (git exited with ");
                w.append(e.as_str());
                w.append(")");
                self.push_line(w);
            },
        }
        assert(self.lines() =~= before + warning_lines(refresh_warning(&outcome)));
        let mut line = String::from_str("Downloading appid '");
        line.append(i32_text(self.appid).as_str());
        line.append("'");
        self.push_line(line);
        assert(self.lines() =~= before + warning_lines(refresh_warning(&outcome)) + seq![
            downloading_line(self.appid),
        ]);
        self.status()
    }

    /// Records the download: its warning if it failed, then that validation
    /// starts. Returns the message to show.
    pub fn download_done(&mut self, outcome: DownloadOutcome) -> (r: StatusView)
        ensures
            final(self).run_context() == old(self).run_context(),
            final(self).title_id() == old(self).title_id(),
            final(self).lines() == old(self).lines() + warning_lines(download_warning(&outcome))
                + seq![downloaded_line()],
            r.model() == render_model(&final(self).run_context(), final(self).lines(), Seq::empty()),
    {
        let ghost before = self.lines();
        match &outcome {
            DownloadOutcome::Success => {},
            DownloadOutcome::Status(t) => {
                let mut w = String::from_str("Exited with status code ");
                w.append(t.as_str());
                self.push_line(w);
            },
            DownloadOutcome::Error(e) => {
                let mut w = String::from_str("Fatal error: ");
                w.append(e.as_str());
                self.push_line(w);
            },
        }
        assert(self.lines() =~= before + warning_lines(download_warning(&outcome)));
        self.push_line(String::from_str("Download completed. Running gdc..."));
        assert(self.lines() =~= before + warning_lines(download_warning(&outcome)) + seq![
            downloaded_line(),
        ]);
        self.status()
    }

    /// Records the validation results and completes the run. Returns the
    /// final report: one field per failed source, the whole log as its body.
    pub fn validation_done(&mut self, results: &Vec<SourceOutcome>) -> (r: StatusView)
        ensures
            final(self).run_context() == old(self).run_context(),
            final(self).title_id() == old(self).title_id(),
            final(self).lines() == old(self).lines().push(completed_line()),
            r.model() == render_model(
                &final(self).run_context(),
                final(self).lines(),
                failure_fields(results@),
            ),
    {
        let mut fields: Vec<(String, String)> = Vec::new();
        let mut i: usize = 0;
        while i < results.len()
            invariant
                i <= results@.len(),
                fields@.map_values(|f: (String, String)| (f.0@, f.1@)) == failure_fields(
                    results@.take(i as int),
                ),
            decreases results@.len() - i,
        {
            assert(results@.take(i + 1).drop_last() =~= results@.take(i as int));
            let ghost before = fields@;
            match &results[i].failure {
                Some(m) => {
                    fields.push((results[i].descriptor.clone(), code_block_text(m.as_str())));
                    assert(fields@.map_values(|f: (String, String)| (f.0@, f.1@)) =~= before.map_values(
                        |f: (String, String)| (f.0@, f.1@),
                    ).push((results@[i as int].descriptor@, code_block(m@))));
                },
                None => {},
            }
            i = i + 1;
        }
        assert(results@.take(results@.len() as int) =~= results@);
        self.push_line(String::from_str("Execution completed."));
        self.render(fields)
    }
}

/// The log of a run once all three stages are done, from the outcomes of
/// its refresh and download.
pub open spec fn completed_log(appid: i32, refresh: &RefreshOutcome, download: &DownloadOutcome) -> Seq<Seq<char>> {
    seq![first_line()] + warning_lines(refresh_warning(refresh)) + seq![downloading_line(appid)]
        + warning_lines(download_warning(download)) + seq![downloaded_line(), completed_line()]
}

/// The status message depends on the run's context and log alone: rendering
/// twice with an unchanged log gives the same message.
pub proof fn lemma_render_is_stable(a: &PipelineRun, b: &PipelineRun)
    requires
        a.run_context() == b.run_context(),
        a.lines() == b.lines(),
    ensures
        render_model(&a.run_context(), a.lines(), Seq::empty()) == render_model(
            &b.run_context(),
            b.lines(),
            Seq::empty(),
        ),
{
}

/// Every field of the final report is keyed by the descriptor of a failed
/// source, and every failed source has a field.
pub proof fn lemma_fields_come_from_failures(results: Seq<SourceOutcome>)
    ensures
        forall|j: int|
            #![trigger failure_fields(results)[j]]
            0 <= j < failure_fields(results).len() ==> exists|i: int|
                0 <= i < results.len() && (#[trigger] results[i]).failure is Some
                    && failure_fields(results)[j].0 == results[i].descriptor@,
        forall|i: int|
            0 <= i < results.len() && (#[trigger] results[i]).failure is Some ==> exists|j: int|
                0 <= j < failure_fields(results).len() && failure_fields(results)[j].0
                    == results[i].descriptor@,
    decreases results.len(),
{
    if results.len() > 0 {
        let init = results.drop_last();
        lemma_fields_come_from_failures(init);
        let f = failure_fields(results);
        let g = failure_fields(init);
        assert forall|j: int| #![trigger f[j]] 0 <= j < f.len() implies exists|i: int|
            0 <= i < results.len() && (#[trigger] results[i]).failure is Some && f[j].0
                == results[i].descriptor@ by {
            if j < g.len() {
                assert(f[j] == g[j]);
                let i = choose|i: int|
                    0 <= i < init.len() && (#[trigger] init[i]).failure is Some && g[j].0
                        == init[i].descriptor@;
                assert(results[i] == init[i]);
            } else {
                assert(results[results.len() - 1].failure is Some);
            }
        }
        assert forall|i: int|
            0 <= i < results.len() && (#[trigger] results[i]).failure is Some implies exists|j: int|
            0 <= j < f.len() && f[j].0 == results[i].descriptor@ by {
            if i < init.len() {
                assert(init[i] == results[i]);
                let j = choose|j: int| 0 <= j < g.len() && g[j].0 == init[i].descriptor@;
                assert(f[j] == g[j]);
            } else {
                assert(f[f.len() - 1].0 == results[i].descriptor@);
            }
        }
    }
}

/// Where sources have distinct descriptors, the final report holds a field
/// for a source exactly when its validation failed.
pub proof fn lemma_report_lists_exactly_failures(results: Seq<SourceOutcome>)
    requires
        forall|i: int, j: int|
            0 <= i < results.len() && 0 <= j < results.len() && i != j ==> results[i].descriptor@
                != results[j].descriptor@,
    ensures
        forall|i: int|
            0 <= i < results.len() ==> ((exists|j: int|
                0 <= j < failure_fields(results).len() && failure_fields(results)[j].0
                    == (#[trigger] results[i]).descriptor@) <==> results[i].failure is Some),
{
    lemma_fields_come_from_failures(results);
    let f = failure_fields(results);
    assert forall|i: int| 0 <= i < results.len() implies ((exists|j: int|
        0 <= j < f.len() && f[j].0 == (#[trigger] results[i]).descriptor@) <==> results[i].failure is Some) by {
        if results[i].failure is Some {
            assert(results[i].failure is Some);
        } else {
            if exists|j: int| 0 <= j < f.len() && f[j].0 == results[i].descriptor@ {
                let j = choose|j: int| 0 <= j < f.len() && f[j].0 == results[i].descriptor@;
                let k = choose|k: int|
                    0 <= k < results.len() && (#[trigger] results[k]).failure is Some && f[j].0
                        == results[k].descriptor@;
                assert(k != i);
            }
        }
    }
}

/// No stage failure aborts a run: a failed refresh followed by a successful
/// download and validation leaves the refresh warning in the final log and
/// no failure field in the report.
pub proof fn lemma_refresh_failure_does_not_abort(
    appid: i32,
    refresh: RefreshOutcome,
    results: Seq<SourceOutcome>,
)
    requires
        refresh_warning(&refresh) is Some,
        forall|i: int| 0 <= i < results.len() ==> (#[trigger] results[i]).failure is None,
    ensures
        completed_log(appid, &refresh, &DownloadOutcome::Success).contains(
            refresh_warning(&refresh)->Some_0,
        ),
        failure_fields(results).len() == 0,
    decreases results.len(),
{
    let log = completed_log(appid, &refresh, &DownloadOutcome::Success);
    assert(log[1] == refresh_warning(&refresh)->Some_0);
    if results.len() > 0 {
        let init = results.drop_last();
        assert forall|i: int| 0 <= i < init.len() implies (#[trigger] init[i]).failure is None by {
            assert(init[i] == results[i]);
        }
        lemma_refresh_failure_does_not_abort(appid, refresh, init);
        assert(results.last().failure is None);
    }
}

} // verus!
