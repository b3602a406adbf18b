//! Command construction, fetch/install/run planning, the task builder, and
//! the command-line adapter.

use ananke::cli::{LinkCliResult, link_options_adapter};
use ananke::errors::SpecifierParseError;
use ananke::mfe::{Microfrontend, VersionType};
use ananke::task::{ProbeReport, Task, TaskPlan, build_task_groups};
use ananke::task_runner::{TaskRunner, Tool};

fn shell_at(version: &str) -> Microfrontend {
    let spec = if version.is_empty() {
        "betbook/shell".to_string()
    } else {
        format!("betbook/shell@{}", version)
    };
    Microfrontend::from_raw_format(spec).unwrap()
}

#[test]
fn checkout_same_ref_is_noop() {
    // Idempotence: already on the target ref, the second run checks nothing
    // out.
    assert!(TaskRunner::git_checkout("shell", "master", false, "master").is_none());
    assert!(TaskRunner::does_local_ver_match("master", "master"));
}

#[test]
fn checkout_differing_ref() {
    let c = TaskRunner::git_checkout("shell", "feature/foo", false, "master").unwrap();
    assert_eq!(c.tool, Tool::Git);
    assert_eq!(c.args, vec!["checkout".to_string(), "feature/foo".to_string()]);
    assert_eq!(c.working_dir.as_deref(), Some("./shell"));
    assert!(!TaskRunner::does_local_ver_match("feature/foo", "master"));
}

#[test]
fn checkout_new_branch() {
    let c = TaskRunner::git_checkout("shell", "tag/1.4.2", true, "master").unwrap();
    assert_eq!(c.args.len(), 4);
    assert_eq!(c.args[0], "checkout");
    assert_eq!(c.args[1], "-b");
    assert!(c.args[2].starts_with("ananke/dev/"));
    assert_eq!(c.args[2].len(), 31);
    assert_eq!(c.args[3], "tag/1.4.2");
}

#[test]
fn clone_command_form() {
    let c = TaskRunner::git_clone("git@host:betbook/shell.git");
    assert_eq!(c.tool, Tool::Git);
    assert_eq!(c.args, vec!["clone".to_string(), "git@host:betbook/shell.git".to_string()]);
    assert!(c.working_dir.is_none());
}

#[test]
fn fetch_pull_npm_command_forms() {
    let f = TaskRunner::git_fetch("shell");
    assert_eq!(f.args, vec!["fetch".to_string(), "--all".to_string()]);
    assert_eq!(f.working_dir.as_deref(), Some("./shell"));
    let p = TaskRunner::git_pull("shell");
    assert_eq!(p.args, vec!["pull".to_string()]);
    let i = TaskRunner::npm_install("shell");
    assert_eq!(i.tool, Tool::Npm);
    assert_eq!(i.args, vec!["i".to_string()]);
    let r = TaskRunner::npm_run("shell");
    assert_eq!(r.tool, Tool::Npm);
    assert_eq!(r.args, vec!["start".to_string()]);
    assert_eq!(r.working_dir.as_deref(), Some("./shell"));
}

#[test]
fn fetch_plan_fresh_clone() {
    let m = shell_at("latest");
    let plan = m.fetch("git.example.org", true, false);
    let clone = plan.clone_command.unwrap();
    assert_eq!(clone.args[1], "git@git.example.org:betbook/shell.git");
    assert_eq!(plan.fetch_command.args, vec!["fetch".to_string(), "--all".to_string()]);
    assert!(plan.pull_command.is_some());
    let checkout = plan.checkout.unwrap();
    assert_eq!(checkout.project_name, "shell");
    assert_eq!(checkout.target_ref, "master");
    assert!(!checkout.create_new_branch);
}

#[test]
fn fetch_plan_existing_no_pull() {
    let m = shell_at("1.4.2");
    let plan = m.fetch("git.example.org", false, true);
    assert!(plan.clone_command.is_none());
    assert!(plan.pull_command.is_none());
    let checkout = plan.checkout.unwrap();
    assert_eq!(checkout.target_ref, "tag/1.4.2");
    assert!(checkout.create_new_branch);
}

#[test]
fn fetch_plan_current_skips_checkout() {
    // Only the empty version classifies as Current; a descriptor carrying it
    // uses the working copy as it stands.
    let m = Microfrontend {
        project_name: "shell".to_string(),
        project_group: "betbook".to_string(),
        version: "".to_string(),
        version_type: Microfrontend::get_version_type(""),
    };
    assert_eq!(m.version_type, VersionType::Current);
    assert!(m.should_use_current_version());
    let plan = m.fetch("git.example.org", false, true);
    assert!(plan.checkout.is_none());
}

#[test]
fn install_decision() {
    let m = shell_at("latest");
    assert!(m.install_dependencies(false, false).is_some());
    assert!(m.install_dependencies(false, true).is_none());
    assert!(m.install_dependencies(true, true).is_some());
    let cmd = m.install_dependencies(true, false).unwrap();
    assert_eq!(cmd.args, vec!["i".to_string()]);
}

#[test]
fn init_plans_all_phases() {
    let m = shell_at("a1b2c3d");
    let config = ananke::configuration::Configuration {
        target_host: "git.example.org".to_string(),
        force_update_all: false,
        pull: false,
    };
    let plan = m.init(&config, false, false);
    assert!(plan.fetch.clone_command.is_some());
    let checkout = plan.fetch.checkout.as_ref().unwrap();
    assert_eq!(checkout.target_ref, "a1b2c3d");
    assert!(checkout.create_new_branch);
    assert!(plan.install_command.is_some());
    assert_eq!(plan.run_command.args, vec!["start".to_string()]);
}

#[test]
fn task_plan_dispatch() {
    let probes = ProbeReport { directory_exists: true, manifest_exists: true };
    let fetch_task = Task::Fetch {
        component: shell_at("latest"),
        host: "git.example.org".to_string(),
        pull: false,
    };
    assert!(matches!(fetch_task.plan(&probes), TaskPlan::Fetch(_)));
    let install_task = Task::Install { component: shell_at("latest"), force: false };
    match install_task.plan(&probes) {
        TaskPlan::Install(cmd) => assert!(cmd.is_none()),
        _ => panic!("install task must yield an install plan"),
    }
    let run_task = Task::Run { component: shell_at("latest") };
    match run_task.plan(&probes) {
        TaskPlan::Run(cmd) => assert_eq!(cmd.args, vec!["start".to_string()]),
        _ => panic!("run task must yield a run plan"),
    }
}

#[test]
fn build_groups_per_component() {
    let cli = LinkCliResult {
        target_host: "git.example.org".to_string(),
        microfrontend: vec!["betbook/shell@latest".to_string(), "betbook/wallet@1.2".to_string()],
        force_update_all: true,
        pull: true,
    };
    let (mfes, config) = link_options_adapter(cli).unwrap();
    let groups = build_task_groups(&mfes, &config);
    assert_eq!(groups.fetch.len(), 2);
    assert_eq!(groups.install.len(), 2);
    assert_eq!(groups.run.len(), 2);
    match &groups.fetch[1] {
        Task::Fetch { component, host, pull } => {
            assert_eq!(component.project_name, "wallet");
            assert_eq!(host, "git.example.org");
            assert!(*pull);
        },
        _ => panic!("fetch group must hold fetch tasks"),
    }
    match &groups.install[0] {
        Task::Install { component, force } => {
            assert_eq!(component.project_name, "shell");
            assert!(*force);
        },
        _ => panic!("install group must hold install tasks"),
    }
    match &groups.run[0] {
        Task::Run { component } => assert_eq!(component.project_name, "shell"),
        _ => panic!("run group must hold run tasks"),
    }
}

#[test]
fn adapter_keeps_order_and_config() {
    let cli = LinkCliResult {
        target_host: "h".to_string(),
        microfrontend: vec!["g/a".to_string(), "g/b@latest".to_string()],
        force_update_all: false,
        pull: true,
    };
    let (mfes, config) = link_options_adapter(cli).unwrap();
    assert_eq!(mfes.0.len(), 2);
    assert_eq!(mfes.0[0].project_name, "a");
    assert_eq!(mfes.0[1].project_name, "b");
    assert_eq!(config.target_host, "h");
    assert!(!config.force_update_all);
    assert!(config.pull);
}

#[test]
fn adapter_fails_fast_on_malformed_specifier() {
    let cli = LinkCliResult {
        target_host: "h".to_string(),
        microfrontend: vec!["g/a".to_string(), "nonsense".to_string()],
        force_update_all: false,
        pull: false,
    };
    let e = link_options_adapter(cli).unwrap_err();
    assert_eq!(e, SpecifierParseError::MissingName);
}
