use enso_build::actions::workflow::definition::cancel_workflow_action;
use enso_build::actions::workflow::definition::checkout_repo_step;
use enso_build::actions::workflow::definition::Concurrency;
use enso_build::actions::workflow::definition::entry;
use enso_build::actions::workflow::definition::env_expression;
use enso_build::actions::workflow::definition::Event;
use enso_build::actions::workflow::definition::expose_all;
use enso_build::actions::workflow::definition::expose_outputs;
use enso_build::actions::workflow::definition::github_token_env;
use enso_build::actions::workflow::definition::is_github_hosted;
use enso_build::actions::workflow::definition::Job;
use enso_build::actions::workflow::definition::JobArchetype;
use enso_build::actions::workflow::definition::JobId;
use enso_build::actions::workflow::definition::key;
use enso_build::actions::workflow::definition::key_for;
use enso_build::actions::workflow::definition::PullRequest;
use enso_build::actions::workflow::definition::Push;
use enso_build::actions::workflow::definition::run;
use enso_build::actions::workflow::definition::RunnerLabel;
use enso_build::actions::workflow::definition::Schedule;
use enso_build::actions::workflow::definition::setup_artifact_api;
use enso_build::actions::workflow::definition::setup_conda;
use enso_build::actions::workflow::definition::setup_wasm_pack_step;
use enso_build::actions::workflow::definition::Shell;
use enso_build::actions::workflow::definition::shell;
use enso_build::actions::workflow::definition::shell_os;
use enso_build::actions::workflow::definition::Step;
use enso_build::actions::workflow::definition::step::Argument;
use enso_build::actions::workflow::definition::Strategy;
use enso_build::actions::workflow::definition::Workflow;
use enso_build::actions::workflow::definition::WorkflowDispatch;
use enso_build::actions::workflow::definition::wrap_expression;
use enso_build::dict::Dict;
use enso_build::platform::OS;

fn pairs(dict: &Dict<String>) -> Vec<(&str, &str)> {
    dict.entries.iter().map(|(k, v)| (k.as_str(), v.as_str())).collect()
}

fn other(step: &Step) -> Vec<(&str, &str)> {
    match &step.with {
        Some(Argument::Other(map)) => pairs(map),
        other => panic!("no free arguments: {:?}", other),
    }
}

#[test]
fn expressions() {
    assert_eq!(wrap_expression("github.token"), "${{ github.token }}");
    assert_eq!(env_expression("ENSO_VERSION"), "${{ env.ENSO_VERSION }}");
    assert_eq!(
        is_github_hosted(),
        "startsWith(runner.name, 'GitHub Actions') || startsWith(runner.name, 'Hosted Agent')"
    );
    assert_eq!(
        github_token_env(),
        ("GITHUB_TOKEN".to_string(), "${{ secrets.GITHUB_TOKEN }}".to_string())
    );
}

#[test]
fn default_step_is_empty() {
    let step = Step::default();
    assert!(step.id.is_none() && step.name.is_none() && step.uses.is_none());
    assert!(step.run.is_none() && step.condition.is_none() && step.with.is_none());
    assert!(step.env.is_empty() && step.shell.is_none());
}

#[test]
fn setup_steps() {
    let conda = setup_conda();
    assert_eq!(conda.name.as_deref(), Some("Setup conda (GH runners only)"));
    assert_eq!(conda.uses.as_deref(), Some("s-weigand/setup-conda@v1.0.5"));
    assert_eq!(conda.condition, Some(is_github_hosted()));
    match &conda.with {
        Some(Argument::SetupConda { update_conda, conda_channels }) => {
            assert_eq!(*update_conda, Some(false));
            assert_eq!(conda_channels.as_deref(), Some("anaconda, conda-forge"));
        }
        other => panic!("not conda: {:?}", other),
    }
    assert!(conda.id.is_none() && conda.run.is_none() && conda.env.is_empty());

    let wasm_pack = setup_wasm_pack_step();
    assert_eq!(wasm_pack.name.as_deref(), Some("Installing wasm-pack"));
    assert_eq!(wasm_pack.uses.as_deref(), Some("jetli/wasm-pack-action@v0.3.0"));
    assert_eq!(other(&wasm_pack), vec![("version", "v0.10.2")]);
    assert_eq!(wasm_pack.condition, Some(is_github_hosted()));

    let api = setup_artifact_api();
    assert_eq!(api.name.as_deref(), Some("Setup the Artifact API environment"));
    assert_eq!(api.uses.as_deref(), Some("actions/github-script@v6"));
    match &api.with {
        Some(Argument::GitHubScript { script }) => {
            let lines: Vec<&str> = script.split('\n').collect();
            assert_eq!(
                lines,
                vec![
                    r#"core.exportVariable("ACTIONS_RUNTIME_TOKEN", process.env["ACTIONS_RUNTIME_TOKEN"])"#,
                    r#"core.exportVariable("ACTIONS_RUNTIME_URL", process.env["ACTIONS_RUNTIME_URL"])"#,
                    r#"core.exportVariable("GITHUB_RETENTION_DAYS", process.env["GITHUB_RETENTION_DAYS"])"#,
                ]
            );
        }
        other => panic!("not a script: {:?}", other),
    }
    assert!(api.condition.is_none());

    let cancel = cancel_workflow_action();
    assert_eq!(cancel.name.as_deref(), Some("Cancel Previous Runs"));
    assert_eq!(cancel.uses.as_deref(), Some("styfle/cancel-workflow-action@0.9.1"));
    assert_eq!(other(&cancel), vec![("access_token", "${{ github.token }}")]);

    let checkout = checkout_repo_step();
    assert_eq!(checkout.name.as_deref(), Some("Checking out the repository"));
    assert_eq!(checkout.uses.as_deref(), Some("actions/checkout@v2"));
    assert!(matches!(checkout.with, Some(Argument::Checkout { clean: Some(false) })));
}

#[test]
fn shell_steps() {
    let windows = shell_os(OS::Windows, "dir");
    assert_eq!(windows.run.as_deref(), Some("dir"));
    assert_eq!(windows.condition.as_deref(), Some("runner.os == 'Windows'"));
    assert_eq!(windows.shell, Some(Shell::Pwsh));
    assert_eq!(pairs(&windows.env), vec![("GITHUB_TOKEN", "${{ secrets.GITHUB_TOKEN }}")]);
    for os in [OS::Linux, OS::MacOS] {
        let unix = shell_os(os, "ls");
        assert_eq!(unix.condition.as_deref(), Some("runner.os != 'Windows'"));
        assert_eq!(unix.shell, Some(Shell::Bash));
    }
    let plain = shell("make");
    assert_eq!(plain.run.as_deref(), Some("make"));
    assert!(plain.condition.is_none() && plain.shell.is_none() && plain.name.is_none());
    assert_eq!(pairs(&plain.env), vec![("GITHUB_TOKEN", "${{ secrets.GITHUB_TOKEN }}")]);
    let run = run("wasm build");
    assert_eq!(run.run.as_deref(), Some("./run wasm build"));
    assert_eq!(pairs(&run.env), vec![("GITHUB_TOKEN", "${{ secrets.GITHUB_TOKEN }}")]);
}

#[test]
fn step_builders() {
    let step = shell("make").with_id("build").with_name("Build");
    assert_eq!(step.id.as_deref(), Some("build"));
    assert_eq!(step.name.as_deref(), Some("Build"));
    assert_eq!(step.run.as_deref(), Some("make"));
    let step = step.with_custom_argument("a", "1").with_custom_argument("b", "2");
    assert_eq!(other(&step), vec![("a", "1"), ("b", "2")]);
    let step = step.with_custom_argument("a", "3");
    assert_eq!(other(&step), vec![("a", "3"), ("b", "2")]);
    assert_eq!(step.id.as_deref(), Some("build"));
    // Arguments of another form are dropped.
    let step = checkout_repo_step().with_custom_argument("ref", "main");
    assert_eq!(other(&step), vec![("ref", "main")]);
    assert_eq!(step.uses.as_deref(), Some("actions/checkout@v2"));
    let argument = Argument::new_other("k", "v");
    assert!(matches!(&argument, Argument::Other(map) if pairs(map) == vec![("k", "v")]));
}

#[test]
fn plain_definitions() {
    assert!(matches!(Concurrency::new("group"), Concurrency::Plain(group) if group == "group"));
    assert_eq!(Schedule::new("0 5 * * 2-6").unwrap().cron, "0 5 * * 2-6");
    let push = Push::default();
    assert!(push.branches.is_empty() && push.tags.is_empty() && push.paths_ignore.is_empty());
    let event = Event::default();
    assert!(event.push.is_none() && event.schedule.is_empty());
    assert!(event.pull_request.is_none() && event.workflow_dispatch.is_none());
    let event = Event {
        pull_request: Some(PullRequest {}),
        workflow_dispatch: Some(WorkflowDispatch {}),
        ..Event::default()
    };
    assert!(event.pull_request.is_some());
    assert_eq!(JobId("a".to_string()).0, "a");
}

#[test]
fn runner_labels() {
    let labels = [
        (RunnerLabel::SelfHosted, "self-hosted"),
        (RunnerLabel::MacOS, "macOS"),
        (RunnerLabel::Linux, "Linux"),
        (RunnerLabel::Windows, "Windows"),
        (RunnerLabel::Engine, "engine"),
        (RunnerLabel::MacOSLatest, "macos-latest"),
        (RunnerLabel::LinuxLatest, "linux-latest"),
        (RunnerLabel::WindowsLatest, "windows-latest"),
        (RunnerLabel::X64, "X64"),
        (RunnerLabel::MwuDeluxe, "mwu-deluxe"),
        (RunnerLabel::MatrixOs, "${{ matrix.os }}"),
    ];
    for (label, text) in labels {
        assert_eq!(label.text(), text);
    }
    let strategy = Strategy::new_os(vec![vec![RunnerLabel::SelfHosted, RunnerLabel::Linux]]);
    assert_eq!(strategy.fail_fast, Some(false));
    assert_eq!(strategy.matrix.len(), 1);
    assert_eq!(
        strategy.matrix.get("os"),
        Some(&vec![vec![RunnerLabel::SelfHosted, RunnerLabel::Linux]])
    );
}

#[test]
fn job_outputs_and_environment() {
    let mut job = Job::default();
    job.expose_output("prepare", "version");
    assert_eq!(pairs(&job.outputs), vec![("version", "${{ steps.prepare.outputs.version }}")]);
    job.env("A", "1");
    job.env("B", "2");
    job.env("A", "3");
    assert_eq!(pairs(&job.env), vec![("A", "3"), ("B", "2")]);
    job.expose_secret_as("DEPLOY_KEY", "KEY");
    assert_eq!(job.env.get("KEY").map(String::as_str), Some("${{ secrets.DEPLOY_KEY }}"));
    job.needs("a");
    job.needs("b");
    job.needs("a");
    assert_eq!(job.needs, vec!["a".to_string(), "b".to_string()]);
}

#[test]
fn job_uses_the_outputs_of_another() {
    let mut source = Job::default();
    source.expose_output("s", "version");
    source.expose_output("s", "edition");
    let mut consumer = Job::default();
    consumer.env("version", "old");
    consumer.use_job_outputs("prepare", &source);
    assert_eq!(
        pairs(&consumer.env),
        vec![
            ("version", "${{needs.prepare.outputs.version}}"),
            ("edition", "${{needs.prepare.outputs.edition}}"),
        ]
    );
    assert_eq!(consumer.needs, vec!["prepare".to_string()]);
}

struct BuildBackend;

impl JobArchetype for BuildBackend {
    fn id_key_base() -> String {
        "build-backend".to_string()
    }

    fn job(os: OS) -> Job {
        let mut job = Job::default();
        job.name = format!("Build Backend ({})", os.name());
        job
    }

    fn outputs() -> Dict<Vec<String>> {
        let mut outputs = Dict::new();
        outputs.insert("prepare".to_string(), vec!["version".to_string(), "edition".to_string()]);
        outputs.insert("upload".to_string(), vec!["url".to_string()]);
        outputs
    }
}

#[test]
fn workflow_jobs() {
    let mut workflow = Workflow::default();
    assert!(workflow.jobs.is_empty() && workflow.env.is_empty());
    let mut job = Job::default();
    job.name = "Build Backend".to_string();
    job.expose_output("step", "out");
    // The key is the name in kebab case.
    assert_eq!(workflow.add_job(job), "build-backend");
    assert!(workflow.jobs.contains_key("build-backend"));

    assert_eq!(key_for("build-backend", OS::Linux), "build-backend-linux");
    assert_eq!(key::<BuildBackend>(OS::Windows), "build-backend-windows");
    let (entry_key, entry_job) = entry::<BuildBackend>(OS::MacOS);
    assert_eq!(entry_key, "build-backend-macos");
    assert_eq!(entry_job.name, "Build Backend (macos)");

    assert_eq!(workflow.add::<BuildBackend>(OS::Linux), "build-backend-linux");
    let key = workflow.add_customized::<BuildBackend, _>(OS::Windows, |mut job| {
        job.name = "Custom".to_string();
        job
    });
    assert_eq!(key, "build-backend-windows");
    assert_eq!(workflow.jobs.get("build-backend-windows").unwrap().name, "Custom");

    let needed = vec!["build-backend".to_string(), "missing".to_string()];
    let key = workflow.add_dependent::<BuildBackend>(OS::MacOS, &needed);
    let dependent = workflow.jobs.get(&key).unwrap();
    assert_eq!(dependent.needs, vec!["build-backend".to_string()]);
    assert_eq!(pairs(&dependent.env), vec![("out", "${{needs.build-backend.outputs.out}}")]);
    assert_eq!(workflow.jobs.len(), 4);

    let mut consumer = Job::default();
    assert!(!workflow.expose_outputs("missing", &mut consumer));
    assert!(consumer.needs.is_empty());
    assert!(workflow.expose_outputs("build-backend", &mut consumer));
    assert_eq!(consumer.needs, vec!["build-backend".to_string()]);

    workflow.env("RUST_BACKTRACE", "full");
    assert_eq!(pairs(&workflow.env), vec![("RUST_BACKTRACE", "full")]);
    assert_eq!(workflow.add_entry("k".to_string(), Job::default()), "k");
}

#[test]
fn archetype_outputs_are_exposed() {
    let mut job = Job::default();
    expose_outputs::<BuildBackend>(&mut job);
    assert_eq!(
        pairs(&job.outputs),
        vec![
            ("version", "${{ steps.prepare.outputs.version }}"),
            ("edition", "${{ steps.prepare.outputs.edition }}"),
            ("url", "${{ steps.upload.outputs.url }}"),
        ]
    );
    let mut other = Job::default();
    expose_all(&mut other, &Dict::new());
    assert!(other.outputs.is_empty());
}

#[test]
fn dict_keeps_first_insertion_order() {
    let mut dict: Dict<u8> = Dict::new();
    assert!(dict.is_empty());
    dict.insert("b".to_string(), 1);
    dict.insert("a".to_string(), 2);
    dict.insert("b".to_string(), 3);
    assert_eq!(dict.len(), 2);
    assert_eq!(dict.get("b"), Some(&3));
    assert_eq!(dict.get("a"), Some(&2));
    assert_eq!(dict.get("c"), None);
    assert!(dict.contains_key("a") && !dict.contains_key("c"));
    let keys: Vec<&str> = dict.entries.iter().map(|(k, _)| k.as_str()).collect();
    assert_eq!(keys, vec!["b", "a"]);
}
