//! Project scaffolding plans: turns a template choice into the exact
//! sequence of steps — toolchain invocations and file writes — that
//! sets a fresh project folder up.  The surrounding program performs
//! the steps; every command is an argument vector (the bridge tool in
//! front for the bridged environment), never a shell line, so project
//! names and paths stay plain arguments.

use vstd::prelude::*;
use crate::model::Environment;
use crate::parse::{last_segment, last_segment_spec};
use crate::text::{str_eq, views_of};

verus! {

/// One scaffolding step.
#[derive(Debug)]
pub enum TemplateStep {
    /// Run this program with these arguments.
    Run { program: String, args: Vec<String> },
    /// Write this content to this file, named relative to the project
    /// folder.
    WriteFile { file: String, content: String },
}

/// The step runs this program with these arguments.
pub open spec fn step_is_run(s: TemplateStep, program: Seq<char>, args: Seq<Seq<char>>) -> bool {
    s matches TemplateStep::Run { program: p, args: a } && p@ == program && views_of(a@) == args
}

/// The step writes this content to this file.
pub open spec fn step_is_write(s: TemplateStep, file: Seq<char>, content: Seq<char>) -> bool {
    s matches TemplateStep::WriteFile { file: f, content: c } && f@ == file && c@ == content
}

/// A toolchain invocation in an environment: the native side runs the
/// tool directly, the bridged side runs the same vector behind the
/// bridge tool.
pub open spec fn tool_run_spec(env: Environment, tail: Seq<Seq<char>>, s: TemplateStep) -> bool {
    match env {
        Environment::Native => tail.len() > 0 && step_is_run(s, tail[0], tail.drop_first()),
        Environment::Bridged => step_is_run(s, "wsl"@, tail),
    }
}

/// The leaf folder name of a project path, whichever separator the
/// path uses.
pub open spec fn project_leaf_spec(path: Seq<char>) -> Seq<char> {
    last_segment_spec(last_segment_spec(path, '/'), '\\')
}

/// What the scaffolding plan of each template holds.
pub open spec fn template_plan_rel(
    template: Seq<char>,
    path: Seq<char>,
    env: Environment,
    r: Seq<TemplateStep>,
) -> bool {
    if template == "rust"@ {
        r.len() == 1 && tool_run_spec(env, seq!["cargo"@, "init"@, path], r[0])
    } else if template == "nextjs"@ {
        r.len() == 1 && tool_run_spec(
            env,
            seq![
                "npx"@,
                "create-next-app@latest"@,
                path,
                "--typescript"@,
                "--tailwind"@,
                "--app"@,
                "--no-src-dir"@,
                "--import-alias"@,
                "@/*"@,
                "--yes"@,
            ],
            r[0],
        )
    } else if template == "python"@ {
        &&& r.len() == 2
        &&& step_is_write(
            r[0],
            "main.py"@,
            "#!/usr/bin/env python3\n\ndef main():\n    print(\"Hello, World!\")\n\nif __name__ == \"__main__\":\n    main()\n"@,
        )
        &&& step_is_write(r[1], "requirements.txt"@, ""@)
    } else if template == "go"@ {
        &&& r.len() == 2
        &&& tool_run_spec(
            env,
            seq!["go"@, "mod"@, "init"@, "-C"@, path, project_leaf_spec(path)],
            r[0],
        )
        &&& step_is_write(
            r[1],
            "main.go"@,
            "package main\n\nimport \"fmt\"\n\nfunc main() {\n    fmt.Println(\"Hello, World!\")\n}\n"@,
        )
    } else if template == "node"@ {
        &&& r.len() == 2
        &&& tool_run_spec(env, seq!["npm"@, "init"@, "-y"@, "--prefix"@, path], r[0])
        &&& step_is_write(r[1], "index.js"@, "console.log('Hello, World!');\n"@)
    } else {
        r.len() == 1 && step_is_write(
            r[0],
            "README.md"@,
            "# "@ + project_leaf_spec(path) + "\n\nA new project.\n"@,
        )
    }
}

/// The leaf folder name of a project path.
pub fn project_leaf(path: &str) -> (r: String)
    ensures
        r@ == project_leaf_spec(path@),
{
    let after_slash = last_segment(path, '/');
    last_segment(after_slash.as_str(), '\\')
}

fn tool_run(env: Environment, tail: Vec<String>) -> (s: TemplateStep)
    requires
        tail@.len() > 0,
    ensures
        tool_run_spec(env, views_of(tail@), s),
{
    match env {
        Environment::Native => {
            let mut t = tail;
            let ghost whole = t@;
            let program = t.remove(0);
            proof {
                assert(views_of(t@) =~~= views_of(whole).drop_first());
            }
            TemplateStep::Run { program, args: t }
        },
        Environment::Bridged => TemplateStep::Run { program: String::from_str("wsl"), args: tail },
    }
}

/// Builds the scaffolding plan of a template for a project folder: an
/// unknown template gets a plain readme.
pub fn template_plan(template: &str, path: &str, env: Environment) -> (r: Vec<TemplateStep>)
    ensures
        template_plan_rel(template@, path@, env, r@),
{
    let mut steps: Vec<TemplateStep> = Vec::new();
    if str_eq(template, "rust") {
        let mut tail: Vec<String> = Vec::new();
        tail.push(String::from_str("cargo"));
        tail.push(String::from_str("init"));
        tail.push(path.to_owned());
        proof {
            assert(views_of(tail@) =~~= seq!["cargo"@, "init"@, path@]);
        }
        steps.push(tool_run(env, tail));
    } else if str_eq(template, "nextjs") {
        let mut tail: Vec<String> = Vec::new();
        tail.push(String::from_str("npx"));
        tail.push(String::from_str("create-next-app@latest"));
        tail.push(path.to_owned());
        tail.push(String::from_str("--typescript"));
        tail.push(String::from_str("--tailwind"));
        tail.push(String::from_str("--app"));
        tail.push(String::from_str("--no-src-dir"));
        tail.push(String::from_str("--import-alias"));
        tail.push(String::from_str("@/*"));
        tail.push(String::from_str("--yes"));
        proof {
            assert(views_of(tail@) =~~= seq![
                "npx"@,
                "create-next-app@latest"@,
                path@,
                "--typescript"@,
                "--tailwind"@,
                "--app"@,
                "--no-src-dir"@,
                "--import-alias"@,
                "@/*"@,
                "--yes"@,
            ]);
        }
        steps.push(tool_run(env, tail));
    } else if str_eq(template, "python") {
        steps.push(
            TemplateStep::WriteFile {
                file: String::from_str("main.py"),
                content: String::from_str(
                    "#!/usr/bin/env python3\n\ndef main():\n    print(\"Hello, World!\")\n\nif __name__ == \"__main__\":\n    main()\n",
                ),
            },
        );
        proof {
            reveal_strlit("");
            assert(""@ =~= Seq::<char>::empty());
        }
        steps.push(
            TemplateStep::WriteFile {
                file: String::from_str("requirements.txt"),
                content: String::new(),
            },
        );
    } else if str_eq(template, "go") {
        let mut tail: Vec<String> = Vec::new();
        tail.push(String::from_str("go"));
        tail.push(String::from_str("mod"));
        tail.push(String::from_str("init"));
        tail.push(String::from_str("-C"));
        tail.push(path.to_owned());
        tail.push(project_leaf(path));
        proof {
            assert(views_of(tail@) =~~= seq![
                "go"@,
                "mod"@,
                "init"@,
                "-C"@,
                path@,
                project_leaf_spec(path@),
            ]);
        }
        steps.push(tool_run(env, tail));
        steps.push(
            TemplateStep::WriteFile {
                file: String::from_str("main.go"),
                content: String::from_str(
                    "package main\n\nimport \"fmt\"\n\nfunc main() {\n    fmt.Println(\"Hello, World!\")\n}\n",
                ),
            },
        );
    } else if str_eq(template, "node") {
        let mut tail: Vec<String> = Vec::new();
        tail.push(String::from_str("npm"));
        tail.push(String::from_str("init"));
        tail.push(String::from_str("-y"));
        tail.push(String::from_str("--prefix"));
        tail.push(path.to_owned());
        proof {
            assert(views_of(tail@) =~~= seq!["npm"@, "init"@, "-y"@, "--prefix"@, path@]);
        }
        steps.push(tool_run(env, tail));
        steps.push(
            TemplateStep::WriteFile {
                file: String::from_str("index.js"),
                content: String::from_str("console.log('Hello, World!');\n"),
            },
        );
    } else {
        let name = project_leaf(path);
        steps.push(
            TemplateStep::WriteFile {
                file: String::from_str("README.md"),
                content: String::from_str("# ").concat(name.as_str()).concat(
                    "\n\nA new project.\n",
                ),
            },
        );
    }
    steps
}

} // verus!

