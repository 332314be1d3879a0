//! The definition of a workflow: its jobs, their steps, and the events
//! that start it.

pub mod step;

use crate::actions::workflow::definition::step::Argument;
use crate::actions::workflow::definition::step::ArgumentView;
use crate::actions::workflow::definition::step::text_of;
use crate::actions::workflow::definition::step::texts;
use crate::dict::Dict;
use crate::platform::OS;
use crate::platform::os_name;
use crate::text::concat2;
use crate::text::concat3;
use crate::text::holds_text;
use crate::text::list_contains;
use vstd::prelude::*;
use vstd::string::*;

verus! {

/// What `heck::ToKebabCase::to_kebab_case` makes of a text.
pub uninterp spec fn kebab_case(text: Seq<char>) -> Seq<char>;

/// Calls `heck::ToKebabCase::to_kebab_case`, which splits the text into
/// words and joins them, in lower case, with hyphens.
#[verifier::external_body]
fn to_kebab_case(text: &str) -> (kebab: String)
    ensures
        kebab@ == kebab_case(text@),
{
    heck::ToKebabCase::to_kebab_case(text)
}

/// An expression in the provider's syntax for values that are filled in
/// when the workflow runs.
pub open spec fn wrapped(expression: Seq<char>) -> Seq<char> {
    "${{ "@ + expression + " }}"@
}

/// Wraps an expression so that it is evaluated when the workflow runs.
pub fn wrap_expression(expression: &str) -> (wrapped: String)
    ensures
        wrapped@ == self::wrapped(expression@),
{
    concat3("${{ ", expression, " }}")
}

/// The expression for the value of an environment variable.
pub fn env_expression(environment_variable: &str) -> (expression: String)
    ensures
        expression@ == wrapped("env."@ + environment_variable@),
{
    wrap_expression(concat2("env.", environment_variable).as_str())
}

/// The condition under which a step runs on a runner that the provider
/// hosts.
pub open spec fn github_hosted() -> Seq<char> {
    "startsWith(runner.name, 'GitHub Actions') || startsWith(runner.name, 'Hosted Agent')"@
}

/// The condition under which a step runs on a runner that the provider
/// hosts.
pub fn is_github_hosted() -> (condition: String)
    ensures
        condition@ == github_hosted(),
{
    String::from_str(
        "startsWith(runner.name, 'GitHub Actions') || startsWith(runner.name, 'Hosted Agent')",
    )
}

/// The shell that runs the commands of a step.
#[derive(Debug, Clone, Copy, PartialEq, Eq, Structural)]
pub enum Shell {
    /// Command Prompt.
    Cmd,
    Bash,
    /// Power Shell.
    Pwsh,
}

/// One step of a job.
#[derive(Debug)]
pub struct Step {
    pub id: Option<String>,
    pub name: Option<String>,
    pub uses: Option<String>,
    pub run: Option<String>,
    /// The condition under which the step runs (`if` in the provider's
    /// files).
    pub condition: Option<String>,
    pub with: Option<Argument>,
    pub env: Dict<String>,
    pub shell: Option<Shell>,
}

/// A step as plain values.
pub struct StepView {
    pub id: Option<Seq<char>>,
    pub name: Option<Seq<char>>,
    pub uses: Option<Seq<char>>,
    pub run: Option<Seq<char>>,
    pub condition: Option<Seq<char>>,
    pub with: Option<ArgumentView>,
    pub env: Map<Seq<char>, Seq<char>>,
    pub shell: Option<Shell>,
}

/// The step that has nothing set.
pub open spec fn empty_step() -> StepView {
    StepView {
        id: None,
        name: None,
        uses: None,
        run: None,
        condition: None,
        with: None,
        env: Map::empty(),
        shell: None,
    }
}

impl View for Step {
    type V = StepView;

    open spec fn view(&self) -> StepView {
        StepView {
            id: text_of(self.id),
            name: text_of(self.name),
            uses: text_of(self.uses),
            run: text_of(self.run),
            condition: text_of(self.condition),
            with: match self.with {
                Some(argument) => Some(argument@),
                None => None,
            },
            env: texts(self.env),
            shell: self.shell,
        }
    }
}

impl Default for Step {
    fn default() -> (step: Self)
        ensures
            step@ == empty_step(),
    {
        let step = Step {
            id: None,
            name: None,
            uses: None,
            run: None,
            condition: None,
            with: None,
            env: Dict::new(),
            shell: None,
        };
        assert(texts(step.env) =~= Map::<Seq<char>, Seq<char>>::empty());
        step
    }
}

/// The variable that hands the provider's token to a step, with its value.
pub open spec fn token_env() -> Map<Seq<char>, Seq<char>> {
    map!["GITHUB_TOKEN"@ => "${{ secrets.GITHUB_TOKEN }}"@]
}

/// The variable that hands the provider's token to a step, with its value.
pub fn github_token_env() -> (variable: (String, String))
    ensures
        variable.0@ == "GITHUB_TOKEN"@,
        variable.1@ == "${{ secrets.GITHUB_TOKEN }}"@,
{
    (String::from_str("GITHUB_TOKEN"), String::from_str("${{ secrets.GITHUB_TOKEN }}"))
}

/// An environment with the provider's token alone.
fn token_environment() -> (env: Dict<String>)
    ensures
        texts(env) == token_env(),
{
    let mut env: Dict<String> = Dict::new();
    let (name, value) = github_token_env();
    env.insert(name, value);
    assert(texts(env) =~= token_env());
    env
}

/// The step that sets conda up, on runners that the provider hosts.
pub fn setup_conda() -> (step: Step)
    ensures
        step@ == (StepView {
            name: Some("Setup conda (GH runners only)"@),
            uses: Some("s-weigand/setup-conda@v1.0.5"@),
            condition: Some(github_hosted()),
            with: Some(
                ArgumentView::SetupConda {
                    update_conda: Some(false),
                    conda_channels: Some("anaconda, conda-forge"@),
                },
            ),
            ..empty_step()
        }),
{
    let mut step = Step::default();
    step.name = Some(String::from_str("Setup conda (GH runners only)"));
    step.uses = Some(String::from_str("s-weigand/setup-conda@v1.0.5"));
    step.condition = Some(is_github_hosted());
    step.with = Some(
        Argument::SetupConda {
            update_conda: Some(false),
            conda_channels: Some(String::from_str("anaconda, conda-forge")),
        },
    );
    step
}

/// The step that installs wasm-pack, on runners that the provider hosts.
pub fn setup_wasm_pack_step() -> (step: Step)
    ensures
        step@ == (StepView {
            name: Some("Installing wasm-pack"@),
            uses: Some("jetli/wasm-pack-action@v0.3.0"@),
            with: Some(ArgumentView::Other(map!["version"@ => "v0.10.2"@])),
            condition: Some(github_hosted()),
            ..empty_step()
        }),
{
    let mut step = Step::default();
    step.name = Some(String::from_str("Installing wasm-pack"));
    step.uses = Some(String::from_str("jetli/wasm-pack-action@v0.3.0"));
    step.with = Some(Argument::new_other("version", "v0.10.2"));
    step.condition = Some(is_github_hosted());
    step
}

/// The script that hands the variables of the artifact store on to later
/// steps: one line for each of the three variables.
pub open spec fn artifact_api_script() -> Seq<char> {
    "core.exportVariable(\"ACTIONS_RUNTIME_TOKEN\", process.env[\"ACTIONS_RUNTIME_TOKEN\"])"@
        + "\n"@
        + "core.exportVariable(\"ACTIONS_RUNTIME_URL\", process.env[\"ACTIONS_RUNTIME_URL\"])"@
        + "\n"@
        + "core.exportVariable(\"GITHUB_RETENTION_DAYS\", process.env[\"GITHUB_RETENTION_DAYS\"])"@
}

/// The step that makes the artifact store reachable from later steps.
pub fn setup_artifact_api() -> (step: Step)
    ensures
        step@ == (StepView {
            name: Some("Setup the Artifact API environment"@),
            uses: Some("actions/github-script@v6"@),
            with: Some(ArgumentView::GitHubScript { script: artifact_api_script() }),
            ..empty_step()
        }),
{
    let mut script = String::from_str(
        "core.exportVariable(\"ACTIONS_RUNTIME_TOKEN\", process.env[\"ACTIONS_RUNTIME_TOKEN\"])",
    );
    script.append("\n");
    script.append(
        "core.exportVariable(\"ACTIONS_RUNTIME_URL\", process.env[\"ACTIONS_RUNTIME_URL\"])",
    );
    script.append("\n");
    script.append(
        "core.exportVariable(\"GITHUB_RETENTION_DAYS\", process.env[\"GITHUB_RETENTION_DAYS\"])",
    );
    let mut step = Step::default();
    step.name = Some(String::from_str("Setup the Artifact API environment"));
    step.uses = Some(String::from_str("actions/github-script@v6"));
    step.with = Some(Argument::GitHubScript { script });
    step
}

/// The condition that holds on Windows runners, or on all others.
pub open spec fn os_condition(os: OS) -> Seq<char> {
    if os == OS::Windows {
        "runner.os == 'Windows'"@
    } else {
        "runner.os != 'Windows'"@
    }
}

/// A step that runs a command line in the shell of one kind of system, and
/// only on runners of that kind: PowerShell on Windows, Bash elsewhere.
pub fn shell_os(os: OS, command_line: &str) -> (step: Step)
    ensures
        step@ == (StepView {
            run: Some(command_line@),
            env: token_env(),
            condition: Some(os_condition(os)),
            shell: Some(
                if os == OS::Windows {
                    Shell::Pwsh
                } else {
                    Shell::Bash
                },
            ),
            ..empty_step()
        }),
{
    let mut step = Step::default();
    step.run = Some(String::from_str(command_line));
    step.env = token_environment();
    step.condition = Some(
        String::from_str(
            if os.is_windows() {
                "runner.os == 'Windows'"
            } else {
                "runner.os != 'Windows'"
            },
        ),
    );
    step.shell = Some(
        if os.is_windows() {
            Shell::Pwsh
        } else {
            Shell::Bash
        },
    );
    step
}

/// A step that runs a command line in the default shell.
pub fn shell(command_line: &str) -> (step: Step)
    ensures
        step@ == (StepView { run: Some(command_line@), env: token_env(), ..empty_step() }),
{
    let mut step = Step::default();
    step.run = Some(String::from_str(command_line));
    step.env = token_environment();
    step
}

/// A step that calls the build script with the given arguments.
pub fn run(run_args: &str) -> (step: Step)
    ensures
        step@ == (StepView {
            run: Some("./run "@ + run_args@),
            env: token_env(),
            ..empty_step()
        }),
{
    shell(concat2("./run ", run_args).as_str())
}

/// The step that cancels earlier runs of the workflow.
pub fn cancel_workflow_action() -> (step: Step)
    ensures
        step@ == (StepView {
            name: Some("Cancel Previous Runs"@),
            uses: Some("styfle/cancel-workflow-action@0.9.1"@),
            with: Some(ArgumentView::Other(map!["access_token"@ => "${{ github.token }}"@])),
            ..empty_step()
        }),
{
    let mut step = Step::default();
    step.name = Some(String::from_str("Cancel Previous Runs"));
    step.uses = Some(String::from_str("styfle/cancel-workflow-action@0.9.1"));
    step.with = Some(Argument::new_other("access_token", "${{ github.token }}"));
    step
}

/// The step that checks the repository out.
pub fn checkout_repo_step() -> (step: Step)
    ensures
        step@ == (StepView {
            name: Some("Checking out the repository"@),
            uses: Some("actions/checkout@v2"@),
            with: Some(ArgumentView::Checkout { clean: Some(false) }),
            ..empty_step()
        }),
{
    let mut step = Step::default();
    step.name = Some(String::from_str("Checking out the repository"));
    step.uses = Some(String::from_str("actions/checkout@v2"));
    step.with = Some(Argument::Checkout { clean: Some(false) });
    step
}

impl Step {
    /// The step with the given identifier.
    pub fn with_id(self, id: &str) -> (step: Self)
        ensures
            step@ == (StepView { id: Some(id@), ..self@ }),
    {
        let mut step = self;
        step.id = Some(String::from_str(id));
        step
    }

    /// The step with the given name.
    pub fn with_name(self, name: &str) -> (step: Self)
        ensures
            step@ == (StepView { name: Some(name@), ..self@ }),
    {
        let mut step = self;
        step.name = Some(String::from_str(name));
        step
    }

    /// The step with one more argument for an action that this module
    /// knows nothing of. Arguments of such an action that are there are
    /// kept; arguments of any other form are dropped.
    pub fn with_custom_argument(self, name: &str, value: &str) -> (step: Self)
        ensures
            step@ == (StepView {
                with: Some(
                    ArgumentView::Other(
                        match self@.with {
                            Some(ArgumentView::Other(map)) => map.insert(name@, value@),
                            _ => map![name@ => value@],
                        },
                    ),
                ),
                ..self@
            }),
    {
        let mut step = self;
        let with = step.with;
        step.with = None;
        let with = match with {
            Some(Argument::Other(map)) => {
                let mut map = map;
                map.insert(String::from_str(name), String::from_str(value));
                assert(texts(map) =~= texts(self.with->Some_0->Other_0).insert(name@, value@));
                Argument::Other(map)
            },
            _ => Argument::new_other(name, value),
        };
        step.with = Some(with);
        step
    }
}

/// The identifier of a job.
#[derive(Debug)]
pub struct JobId(pub String);

/// What keeps runs of a workflow from running side by side.
#[derive(Debug)]
pub enum Concurrency {
    Plain(String),
    Grouped { group: String, cancel_in_progress: bool },
}

impl Concurrency {
    /// Runs of the same group wait for each other.
    pub fn new(group_name: &str) -> (concurrency: Self)
        ensures
            concurrency matches Concurrency::Plain(group) && group@ == group_name@,
    {
        Concurrency::Plain(String::from_str(group_name))
    }
}

/// Pushes that start a workflow.
#[derive(Debug)]
pub struct Push {
    pub branches: Vec<String>,
    pub tags: Vec<String>,
    pub branches_ignore: Vec<String>,
    pub tags_ignore: Vec<String>,
    pub paths: Vec<String>,
    pub paths_ignore: Vec<String>,
}

impl Default for Push {
    fn default() -> (push: Self)
        ensures
            push.branches@.len() == 0,
            push.tags@.len() == 0,
            push.branches_ignore@.len() == 0,
            push.tags_ignore@.len() == 0,
            push.paths@.len() == 0,
            push.paths_ignore@.len() == 0,
    {
        Push {
            branches: Vec::new(),
            tags: Vec::new(),
            branches_ignore: Vec::new(),
            tags_ignore: Vec::new(),
            paths: Vec::new(),
            paths_ignore: Vec::new(),
        }
    }
}

/// Pull requests start the workflow.
#[derive(Debug, Clone, Copy, PartialEq, Eq, Structural)]
pub struct PullRequest {}

/// A time table that starts a workflow.
#[derive(Debug)]
pub struct Schedule {
    pub cron: String,
}

impl Schedule {
    /// A time table from a cron expression, which is taken as it is.
    pub fn new(cron_text: &str) -> (schedule: Result<Self, ()>)
        ensures
            schedule matches Ok(schedule) && schedule.cron@ == cron_text@,
    {
        Ok(Schedule { cron: String::from_str(cron_text) })
    }
}

/// The workflow can be started by hand.
#[derive(Debug, Clone, Copy, PartialEq, Eq, Structural)]
pub struct WorkflowDispatch {}

/// The events that start a workflow.
#[derive(Debug)]
pub struct Event {
    pub push: Option<Push>,
    pub pull_request: Option<PullRequest>,
    pub schedule: Vec<Schedule>,
    pub workflow_dispatch: Option<WorkflowDispatch>,
}

impl Default for Event {
    fn default() -> (event: Self)
        ensures
            event.push is None,
            event.pull_request is None,
            event.schedule@.len() == 0,
            event.workflow_dispatch is None,
    {
        Event { push: None, pull_request: None, schedule: Vec::new(), workflow_dispatch: None }
    }
}

/// A label that selects the runners of a job.
#[derive(Debug, Clone, Copy, PartialEq, Eq, Structural)]
pub enum RunnerLabel {
    SelfHosted,
    MacOS,
    Linux,
    Windows,
    Engine,
    MacOSLatest,
    LinuxLatest,
    WindowsLatest,
    X64,
    MwuDeluxe,
    MatrixOs,
}

impl RunnerLabel {
    /// The label as the provider writes it.
    pub open spec fn text_of(self) -> Seq<char> {
        match self {
            RunnerLabel::SelfHosted => "self-hosted"@,
            RunnerLabel::MacOS => "macOS"@,
            RunnerLabel::Linux => "Linux"@,
            RunnerLabel::Windows => "Windows"@,
            RunnerLabel::Engine => "engine"@,
            RunnerLabel::MacOSLatest => "macos-latest"@,
            RunnerLabel::LinuxLatest => "linux-latest"@,
            RunnerLabel::WindowsLatest => "windows-latest"@,
            RunnerLabel::X64 => "X64"@,
            RunnerLabel::MwuDeluxe => "mwu-deluxe"@,
            RunnerLabel::MatrixOs => "${{ matrix.os }}"@,
        }
    }

    /// Writes the label as the provider writes it.
    pub fn text(self) -> (text: String)
        ensures
            text@ == self.text_of(),
    {
        String::from_str(
            match self {
                RunnerLabel::SelfHosted => "self-hosted",
                RunnerLabel::MacOS => "macOS",
                RunnerLabel::Linux => "Linux",
                RunnerLabel::Windows => "Windows",
                RunnerLabel::Engine => "engine",
                RunnerLabel::MacOSLatest => "macos-latest",
                RunnerLabel::LinuxLatest => "linux-latest",
                RunnerLabel::WindowsLatest => "windows-latest",
                RunnerLabel::X64 => "X64",
                RunnerLabel::MwuDeluxe => "mwu-deluxe",
                RunnerLabel::MatrixOs => "${{ matrix.os }}",
            },
        )
    }
}

/// How a job is multiplied over a matrix of values.
#[derive(Debug)]
pub struct Strategy {
    /// The values of each variable of the matrix; each value is a list of
    /// runner labels.
    pub matrix: Dict<Vec<Vec<RunnerLabel>>>,
    pub fail_fast: Option<bool>,
}

impl Strategy {
    /// A job for each of the given sets of runner labels, under the
    /// variable `os`; a failure of one does not stop the others.
    pub fn new_os(labels: Vec<Vec<RunnerLabel>>) -> (strategy: Strategy)
        ensures
            strategy.fail_fast == Some(false),
            strategy.matrix@ == map!["os"@ => labels],
    {
        let mut matrix: Dict<Vec<Vec<RunnerLabel>>> = Dict::new();
        matrix.insert(String::from_str("os"), labels);
        Strategy { fail_fast: Some(false), matrix }
    }
}

/// A job of a workflow.
#[derive(Debug)]
pub struct Job {
    pub name: String,
    /// The jobs that have to end before this one starts; none occurs
    /// twice.
    pub needs: Vec<String>,
    pub runs_on: Vec<RunnerLabel>,
    pub steps: Vec<Step>,
    pub outputs: Dict<String>,
    pub strategy: Option<Strategy>,
    pub env: Dict<String>,
}

impl Default for Job {
    fn default() -> (job: Self)
        ensures
            job.name@.len() == 0,
            job.needs@.len() == 0,
            job.runs_on@.len() == 0,
            job.steps@.len() == 0,
            job.outputs.entries@.len() == 0,
            job.strategy is None,
            job.env.entries@.len() == 0,
    {
        Job {
            name: String::new(),
            needs: Vec::new(),
            runs_on: Vec::new(),
            steps: Vec::new(),
            outputs: Dict::new(),
            strategy: None,
            env: Dict::new(),
        }
    }
}

/// The expression for an output of a step.
pub open spec fn step_output(step: Seq<char>, output: Seq<char>) -> Seq<char> {
    "${{ steps."@ + step + ".outputs."@ + output + " }}"@
}

/// The expression for a secret.
pub open spec fn secret(name: Seq<char>) -> Seq<char> {
    "${{ secrets."@ + name + " }}"@
}

/// The expression for an output of a job that this one needs.
pub open spec fn needed_output(job_id: Seq<char>, output: Seq<char>) -> Seq<char> {
    "${{needs."@ + job_id + ".outputs."@ + output + "}}"@
}

/// The needs of a job after one more job is needed.
pub open spec fn needing(needs: Seq<String>, job_id: Seq<char>, after: Seq<String>) -> bool {
    if holds_text(needs, job_id) {
        after == needs
    } else {
        after.len() == needs.len() + 1 && after.subrange(0, needs.len() as int) == needs
            && after[needs.len() as int]@ == job_id
    }
}

impl Job {
    /// Makes an output of a step an output of the job, under the same
    /// name.
    pub fn expose_output(&mut self, step_id: &str, output_name: &str)
        ensures
            texts(final(self).outputs) == texts(old(self).outputs).insert(
                output_name@,
                step_output(step_id@, output_name@),
            ),
            final(self).outputs.keys() == if old(self).outputs@.contains_key(output_name@) {
                old(self).outputs.keys()
            } else {
                old(self).outputs.keys().push(output_name@)
            },
            final(self).name == old(self).name,
            final(self).needs == old(self).needs,
            final(self).runs_on == old(self).runs_on,
            final(self).steps == old(self).steps,
            final(self).strategy == old(self).strategy,
            final(self).env == old(self).env,
    {
        let mut value = concat3("${{ steps.", step_id, ".outputs.");
        value.append(output_name);
        value.append(" }}");
        self.outputs.insert(String::from_str(output_name), value);
        assert(texts(self.outputs) =~= texts(old(self).outputs).insert(
            output_name@,
            step_output(step_id@, output_name@),
        ));
    }

    /// Sets a variable in the environment of the job.
    pub fn env(&mut self, name: &str, value: &str)
        ensures
            texts(final(self).env) == texts(old(self).env).insert(name@, value@),
            final(self).env.keys() == if old(self).env@.contains_key(name@) {
                old(self).env.keys()
            } else {
                old(self).env.keys().push(name@)
            },
            final(self).name == old(self).name,
            final(self).needs == old(self).needs,
            final(self).runs_on == old(self).runs_on,
            final(self).steps == old(self).steps,
            final(self).strategy == old(self).strategy,
            final(self).outputs == old(self).outputs,
    {
        self.env.insert(String::from_str(name), String::from_str(value));
        assert(texts(self.env) =~= texts(old(self).env).insert(name@, value@));
    }

    /// Hands a secret to the job as a variable of the given name.
    pub fn expose_secret_as(&mut self, secret: &str, given_name: &str)
        ensures
            texts(final(self).env) == texts(old(self).env).insert(
                given_name@,
                self::secret(secret@),
            ),
            final(self).name == old(self).name,
            final(self).needs == old(self).needs,
            final(self).runs_on == old(self).runs_on,
            final(self).steps == old(self).steps,
            final(self).strategy == old(self).strategy,
            final(self).outputs == old(self).outputs,
    {
        self.env(given_name, concat3("${{ secrets.", secret, " }}").as_str());
    }

    /// Makes the job wait for another one.
    pub fn needs(&mut self, job_id: &str)
        ensures
            needing(old(self).needs@, job_id@, final(self).needs@),
            final(self).name == old(self).name,
            final(self).env == old(self).env,
            final(self).runs_on == old(self).runs_on,
            final(self).steps == old(self).steps,
            final(self).strategy == old(self).strategy,
            final(self).outputs == old(self).outputs,
    {
        if !list_contains(&self.needs, job_id) {
            self.needs.push(String::from_str(job_id));
            assert(self.needs@.subrange(0, old(self).needs@.len() as int) =~= old(self).needs@);
        }
    }

    /// The environment after the first `upto` outputs of a job were made
    /// variables of the same name.
    pub open spec fn with_outputs(
        env: Map<Seq<char>, Seq<char>>,
        job_id: Seq<char>,
        outputs: Seq<Seq<char>>,
        upto: int,
    ) -> Map<Seq<char>, Seq<char>>
        decreases upto,
    {
        if upto <= 0 {
            env
        } else {
            Self::with_outputs(env, job_id, outputs, upto - 1).insert(
                outputs[upto - 1],
                needed_output(job_id, outputs[upto - 1]),
            )
        }
    }

    /// Makes the job wait for another one and hands each of that job's
    /// outputs to this one as a variable of the same name.
    pub fn use_job_outputs(&mut self, job_id: &str, job: &Job)
        ensures
            texts(final(self).env) == Self::with_outputs(
                texts(old(self).env),
                job_id@,
                job.outputs.keys(),
                job.outputs.keys().len() as int,
            ),
            needing(old(self).needs@, job_id@, final(self).needs@),
            final(self).name == old(self).name,
            final(self).runs_on == old(self).runs_on,
            final(self).steps == old(self).steps,
            final(self).strategy == old(self).strategy,
            final(self).outputs == old(self).outputs,
    {
        let mut i: usize = 0;
        while i < job.outputs.entries.len()
            invariant
                i <= job.outputs.entries@.len(),
                texts(self.env) == Self::with_outputs(
                    texts(old(self).env),
                    job_id@,
                    job.outputs.keys(),
                    i as int,
                ),
                self.name == old(self).name,
                self.needs == old(self).needs,
                self.runs_on == old(self).runs_on,
                self.steps == old(self).steps,
                self.strategy == old(self).strategy,
                self.outputs == old(self).outputs,
            decreases job.outputs.entries.len() - i,
        {
            let output_name = job.outputs.entries[i].0.as_str();
            let mut reference = concat3("${{needs.", job_id, ".outputs.");
            reference.append(output_name);
            reference.append("}}");
            assert(job.outputs.keys()[i as int] == output_name@);
            self.env(output_name, reference.as_str());
            i += 1;
        }
        self.needs(job_id);
    }
}

/// A workflow.
#[derive(Debug)]
pub struct Workflow {
    pub name: String,
    pub description: Option<String>,
    pub on: Event,
    pub jobs: Dict<Job>,
    pub env: Dict<String>,
    pub concurrency: Option<Concurrency>,
}

impl Default for Workflow {
    fn default() -> (workflow: Self)
        ensures
            workflow.name@.len() == 0,
            workflow.description is None,
            workflow.jobs.entries@.len() == 0,
            workflow.env.entries@.len() == 0,
            workflow.concurrency is None,
    {
        Workflow {
            name: String::new(),
            description: None,
            on: Event::default(),
            jobs: Dict::new(),
            env: Dict::new(),
            concurrency: None,
        }
    }
}

/// A kind of job that can be made for each system.
pub trait JobArchetype {
    /// The text that the keys of the jobs of this kind start with.
    fn id_key_base() -> String;

    /// The job for a system.
    fn job(os: OS) -> Job;

    /// The outputs that the jobs of this kind expose: for each step, by its
    /// identifier, the names of the outputs.
    fn outputs() -> Dict<Vec<String>>;
}

/// The key of a job: its base, a hyphen and the name of the system.
pub open spec fn job_key(base: Seq<char>, os: OS) -> Seq<char> {
    base + "-"@ + os_name(os)
}

/// Writes the key of the job of a kind for a system.
pub fn key_for(base: &str, os: OS) -> (key: String)
    ensures
        key@ == job_key(base@, os),
{
    concat3(base, "-", os.name().as_str())
}

/// The key of the job of a kind for a system.
pub fn key<J: JobArchetype>(os: OS) -> (key: String)
    ensures
        exists|base: Seq<char>| key@ == #[trigger] job_key(base, os),
{
    let base = J::id_key_base();
    let key = key_for(base.as_str(), os);
    assert(key@ == job_key(base@, os));
    key
}

/// The job of a kind for a system, with its key.
pub fn entry<J: JobArchetype>(os: OS) -> (entry: (String, Job))
    ensures
        exists|base: Seq<char>| entry.0@ == #[trigger] job_key(base, os),
{
    (key::<J>(os), J::job(os))
}

/// The outputs of a job after the first `upto` of the given outputs of a
/// step were made outputs of the job.
pub open spec fn with_step_outputs(
    outputs: Map<Seq<char>, Seq<char>>,
    step: Seq<char>,
    names: Seq<String>,
    upto: int,
) -> Map<Seq<char>, Seq<char>>
    decreases upto,
{
    if upto <= 0 {
        outputs
    } else {
        with_step_outputs(outputs, step, names, upto - 1).insert(
            names[upto - 1]@,
            step_output(step, names[upto - 1]@),
        )
    }
}

/// The outputs of a job after the outputs of the first `upto` steps of a
/// list were made outputs of the job.
pub open spec fn with_exposed(
    outputs: Map<Seq<char>, Seq<char>>,
    steps: Seq<(String, Vec<String>)>,
    upto: int,
) -> Map<Seq<char>, Seq<char>>
    decreases upto,
{
    if upto <= 0 {
        outputs
    } else {
        with_step_outputs(
            with_exposed(outputs, steps, upto - 1),
            steps[upto - 1].0@,
            steps[upto - 1].1@,
            steps[upto - 1].1@.len() as int,
        )
    }
}

/// Makes outputs of steps outputs of a job: for each step of the list, by
/// its identifier, each of the named outputs, in the order of the list.
pub fn expose_all(job: &mut Job, outputs: &Dict<Vec<String>>)
    ensures
        texts(final(job).outputs) == with_exposed(
            texts(old(job).outputs),
            outputs.entries@,
            outputs.entries@.len() as int,
        ),
        final(job).name == old(job).name,
        final(job).needs == old(job).needs,
        final(job).runs_on == old(job).runs_on,
        final(job).steps == old(job).steps,
        final(job).strategy == old(job).strategy,
        final(job).env == old(job).env,
{
    let mut i: usize = 0;
    while i < outputs.entries.len()
        invariant
            i <= outputs.entries@.len(),
            texts(job.outputs) == with_exposed(texts(old(job).outputs), outputs.entries@, i as int),
            job.name == old(job).name,
            job.needs == old(job).needs,
            job.runs_on == old(job).runs_on,
            job.steps == old(job).steps,
            job.strategy == old(job).strategy,
            job.env == old(job).env,
        decreases outputs.entries.len() - i,
    {
        let step_id = outputs.entries[i].0.as_str();
        let names = &outputs.entries[i].1;
        let ghost before = texts(job.outputs);
        let mut k: usize = 0;
        while k < names.len()
            invariant
                k <= names@.len(),
                texts(job.outputs) == with_step_outputs(before, step_id@, names@, k as int),
                job.name == old(job).name,
                job.needs == old(job).needs,
                job.runs_on == old(job).runs_on,
                job.steps == old(job).steps,
                job.strategy == old(job).strategy,
                job.env == old(job).env,
            decreases names.len() - k,
        {
            job.expose_output(step_id, names[k].as_str());
            k += 1;
        }
        i += 1;
    }
}

/// Makes the outputs that the jobs of a kind expose outputs of a job.
pub fn expose_outputs<J: JobArchetype>(job: &mut Job)
    ensures
        exists|outputs: Dict<Vec<String>>| #[trigger]
            texts(final(job).outputs) == with_exposed(
                texts(old(job).outputs),
                outputs.entries@,
                outputs.entries@.len() as int,
            ),
        final(job).name == old(job).name,
        final(job).needs == old(job).needs,
        final(job).runs_on == old(job).runs_on,
        final(job).steps == old(job).steps,
        final(job).strategy == old(job).strategy,
        final(job).env == old(job).env,
{
    let outputs = J::outputs();
    expose_all(job, &outputs);
    assert(texts(job.outputs) == with_exposed(
        texts(old(job).outputs),
        outputs.entries@,
        outputs.entries@.len() as int,
    ));
}

impl Workflow {
    /// Hands the outputs of a job of the workflow to another job, which
    /// then waits for it. Where the workflow has no job under the given
    /// key, the other job is left as it is.
    pub fn expose_outputs(&self, source_job_id: &str, consumer_job: &mut Job) -> (exposed: bool)
        ensures
            exposed == self.jobs@.contains_key(source_job_id@),
            !exposed ==> *final(consumer_job) == *old(consumer_job),
            exposed ==> {
                &&& texts(final(consumer_job).env) == Job::with_outputs(
                    texts(old(consumer_job).env),
                    source_job_id@,
                    self.jobs@[source_job_id@].outputs.keys(),
                    self.jobs@[source_job_id@].outputs.keys().len() as int,
                )
                &&& needing(old(consumer_job).needs@, source_job_id@, final(consumer_job).needs@)
                &&& final(consumer_job).name == old(consumer_job).name
                &&& final(consumer_job).runs_on == old(consumer_job).runs_on
                &&& final(consumer_job).steps == old(consumer_job).steps
                &&& final(consumer_job).strategy == old(consumer_job).strategy
                &&& final(consumer_job).outputs == old(consumer_job).outputs
            },
    {
        match self.jobs.get(source_job_id) {
            Some(source_job) => {
                consumer_job.use_job_outputs(source_job_id, source_job);
                true
            },
            None => false,
        }
    }

    /// Adds a job under a key, in place of a job that may be there under
    /// that key, and gives the key back.
    pub fn add_entry(&mut self, key: String, job: Job) -> (added: String)
        ensures
            added@ == key@,
            final(self).jobs@ == old(self).jobs@.insert(key@, job),
            final(self).jobs.keys() == if old(self).jobs@.contains_key(key@) {
                old(self).jobs.keys()
            } else {
                old(self).jobs.keys().push(key@)
            },
            final(self).name == old(self).name,
            final(self).description == old(self).description,
            final(self).on == old(self).on,
            final(self).env == old(self).env,
            final(self).concurrency == old(self).concurrency,
    {
        let added = key.clone();
        self.jobs.insert(key, job);
        added
    }

    /// Adds a job under the key that its name gives, and gives the key
    /// back.
    pub fn add_job(&mut self, job: Job) -> (key: String)
        ensures
            key@ == kebab_case(job.name@),
            final(self).jobs@ == old(self).jobs@.insert(key@, job),
            final(self).name == old(self).name,
            final(self).description == old(self).description,
            final(self).on == old(self).on,
            final(self).env == old(self).env,
            final(self).concurrency == old(self).concurrency,
    {
        let key = to_kebab_case(job.name.as_str());
        self.add_entry(key, job)
    }

    /// Adds the job of a kind for a system, and gives its key back.
    pub fn add<J: JobArchetype>(&mut self, os: OS) -> (key: String)
        ensures
            exists|base: Seq<char>| key@ == #[trigger] job_key(base, os),
            final(self).jobs@.dom() == old(self).jobs@.dom().insert(key@),
            forall|other: Seq<char>|
                other != key@ && old(self).jobs@.contains_key(other) ==> final(self).jobs@[other]
                    == old(self).jobs@[other],
            final(self).name == old(self).name,
            final(self).description == old(self).description,
            final(self).on == old(self).on,
            final(self).env == old(self).env,
            final(self).concurrency == old(self).concurrency,
    {
        let (key, job) = entry::<J>(os);
        let added = self.add_entry(key, job);
        assert(self.jobs@.dom() =~= old(self).jobs@.dom().insert(added@));
        added
    }

    /// Adds the job of a kind for a system after `f` has changed it to
    /// taste, and gives its key back.
    pub fn add_customized<J: JobArchetype, F: FnOnce(Job) -> Job>(&mut self, os: OS, f: F) -> (key:
        String)
        requires
            forall|job: Job| f.requires((job,)),
        ensures
            exists|base: Seq<char>| key@ == #[trigger] job_key(base, os),
            exists|made: Job, customized: Job|
                f.ensures((made,), customized) && #[trigger] final(self).jobs@ == old(
                    self,
                ).jobs@.insert(key@, customized),
            final(self).name == old(self).name,
            final(self).description == old(self).description,
            final(self).on == old(self).on,
            final(self).env == old(self).env,
            final(self).concurrency == old(self).concurrency,
    {
        let (key, job) = entry::<J>(os);
        let ghost made = job;
        let job = f(job);
        let ghost customized = job;
        let added = self.add_entry(key, job);
        assert(f.ensures((made,), customized) && self.jobs@ == old(self).jobs@.insert(
            added@,
            customized,
        ));
        added
    }

    /// Adds the job of a kind for a system, which waits for the given jobs
    /// of the workflow and takes their outputs, and gives its key back.
    /// Keys under which the workflow has no job are passed over.
    pub fn add_dependent<J: JobArchetype>(&mut self, os: OS, needed: &Vec<String>) -> (key: String)
        ensures
            exists|base: Seq<char>| key@ == #[trigger] job_key(base, os),
            final(self).jobs@.dom() == old(self).jobs@.dom().insert(key@),
            forall|other: Seq<char>|
                other != key@ && old(self).jobs@.contains_key(other) ==> final(self).jobs@[other]
                    == old(self).jobs@[other],
            final(self).name == old(self).name,
            final(self).description == old(self).description,
            final(self).on == old(self).on,
            final(self).env == old(self).env,
            final(self).concurrency == old(self).concurrency,
    {
        let (key, mut job) = entry::<J>(os);
        let mut i: usize = 0;
        while i < needed.len()
            invariant
                i <= needed.len(),
                *self == *old(self),
            decreases needed.len() - i,
        {
            self.expose_outputs(needed[i].as_str(), &mut job);
            i += 1;
        }
        let added = self.add_entry(key, job);
        assert(self.jobs@.dom() =~= old(self).jobs@.dom().insert(added@));
        added
    }

    /// Sets a variable in the environment of the workflow.
    pub fn env(&mut self, var_name: &str, var_value: &str)
        ensures
            texts(final(self).env) == texts(old(self).env).insert(var_name@, var_value@),
            final(self).name == old(self).name,
            final(self).description == old(self).description,
            final(self).on == old(self).on,
            final(self).jobs == old(self).jobs,
            final(self).concurrency == old(self).concurrency,
    {
        self.env.insert(String::from_str(var_name), String::from_str(var_value));
        assert(texts(self.env) =~= texts(old(self).env).insert(var_name@, var_value@));
    }
}

} // verus!
