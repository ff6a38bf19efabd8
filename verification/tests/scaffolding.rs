use ketra_core::model::Environment;
use ketra_core::templates::{project_leaf, template_plan, TemplateStep};

fn run_of(step: &TemplateStep) -> (String, Vec<String>) {
    match step {
        TemplateStep::Run { program, args } => (program.clone(), args.clone()),
        other => panic!("expected a toolchain step, got {:?}", other),
    }
}

fn write_of(step: &TemplateStep) -> (String, String) {
    match step {
        TemplateStep::WriteFile { file, content } => (file.clone(), content.clone()),
        other => panic!("expected a file write, got {:?}", other),
    }
}

#[test]
fn rust_template_runs_cargo_init() {
    let plan = template_plan("rust", "C:\\u\\ketra\\proj", Environment::Native);
    assert_eq!(plan.len(), 1);
    let (program, args) = run_of(&plan[0]);
    assert_eq!(program, "cargo");
    assert_eq!(args, vec!["init", "C:\\u\\ketra\\proj"]);
}

#[test]
fn bridged_plans_go_through_the_bridge() {
    let plan = template_plan("rust", "/home/u/ketra/proj", Environment::Bridged);
    let (program, args) = run_of(&plan[0]);
    assert_eq!(program, "wsl");
    assert_eq!(args, vec!["cargo", "init", "/home/u/ketra/proj"]);
}

#[test]
fn python_template_writes_two_files() {
    let plan = template_plan("python", "/home/u/ketra/py", Environment::Bridged);
    assert_eq!(plan.len(), 2);
    let (file, content) = write_of(&plan[0]);
    assert_eq!(file, "main.py");
    assert!(content.contains("def main():"));
    let (file2, content2) = write_of(&plan[1]);
    assert_eq!(file2, "requirements.txt");
    assert!(content2.is_empty());
}

#[test]
fn go_template_names_the_module_after_the_leaf() {
    let plan = template_plan("go", "C:\\u\\ketra\\svc", Environment::Native);
    let (program, args) = run_of(&plan[0]);
    assert_eq!(program, "go");
    assert_eq!(args, vec!["mod", "init", "-C", "C:\\u\\ketra\\svc", "svc"]);
    let (file, content) = write_of(&plan[1]);
    assert_eq!(file, "main.go");
    assert!(content.starts_with("package main"));
}

#[test]
fn node_template_runs_npm_and_writes_index() {
    let plan = template_plan("node", "/home/u/ketra/webapp", Environment::Bridged);
    let (program, args) = run_of(&plan[0]);
    assert_eq!(program, "wsl");
    assert_eq!(args, vec!["npm", "init", "-y", "--prefix", "/home/u/ketra/webapp"]);
    let (file, content) = write_of(&plan[1]);
    assert_eq!(file, "index.js");
    assert_eq!(content, "console.log('Hello, World!');\n");
}

#[test]
fn unknown_template_gets_a_readme() {
    let plan = template_plan("", "/home/u/ketra/thing", Environment::Bridged);
    assert_eq!(plan.len(), 1);
    let (file, content) = write_of(&plan[0]);
    assert_eq!(file, "README.md");
    assert_eq!(content, "# thing\n\nA new project.\n");
}

#[test]
fn project_leaf_handles_both_separators() {
    assert_eq!(project_leaf("C:\\u\\ketra\\proj"), "proj");
    assert_eq!(project_leaf("/home/u/ketra/proj"), "proj");
    assert_eq!(project_leaf("plain"), "plain");
}
