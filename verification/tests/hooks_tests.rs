use cproject::archetype::Archetype;
use cproject::collect::seed;
use cproject::context::RenderContext;
use cproject::error::{Error, ErrorKind, ExitReport};
use cproject::hooks::{
    begin, command_from_words, judge_exit, prepare_hook, replay, HookCommand, HookStep,
};
use cproject::manifest::Manifest;

fn demo_context() -> RenderContext {
    seed("demo", "2031")
}

fn command(line: &str, program: &str, args: &[&str]) -> HookCommand {
    HookCommand {
        line: line.to_string(),
        program: program.to_string(),
        args: args.iter().map(|s| s.to_string()).collect(),
    }
}

fn hooks(list: &[&str]) -> Vec<String> {
    list.iter().map(|s| s.to_string()).collect()
}

#[test]
fn a_hook_is_rendered_and_split_into_words() {
    assert_eq!(
        prepare_hook("git init {{name}}", &demo_context()),
        Ok(command("git init demo", "git", &["init", "demo"]))
    );
    assert_eq!(prepare_hook("make", &demo_context()), Ok(command("make", "make", &[])));
}

#[test]
fn quoting_and_escaping_are_honoured() {
    assert_eq!(
        prepare_hook("echo 'a b'  c\\ d", &demo_context()),
        Ok(command("echo 'a b'  c\\ d", "echo", &["a b", "c d"]))
    );
    assert_eq!(
        prepare_hook("sh -c 'echo $HOME > out.txt'", &demo_context()),
        Ok(command("sh -c 'echo $HOME > out.txt'", "sh", &["-c", "echo $HOME > out.txt"]))
    );
}

#[test]
fn a_hook_without_words_is_empty() {
    for template in ["", "   ", "\t\n", "# only a comment", "{{name_is_blank}}"] {
        let mut context = demo_context();
        context.insert(
            "name_is_blank".to_string(),
            cproject::context::ContextValue::Text(" ".to_string()),
        );
        let result = prepare_hook(template, &context);
        assert!(matches!(result, Err(Error::HookEmpty { .. })), "{template:?}: {result:?}");
    }
    let error = prepare_hook("  ", &demo_context()).unwrap_err();
    assert_eq!(error, Error::HookEmpty { command: "  ".to_string() });
    assert_eq!(error.message(), "Empty command in hooks:   ");
}

#[test]
fn a_hook_that_does_not_render_is_a_render_error() {
    let error = prepare_hook("echo {{nobody}}", &demo_context()).unwrap_err();
    assert_eq!(error.kind(), ErrorKind::Render);
    assert!(matches!(error, Error::Render { template, .. } if template == "echo {{nobody}}"));
}

#[test]
fn words_make_a_command() {
    assert_eq!(
        command_from_words("a b".to_string(), vec!["a".to_string(), "b".to_string()]),
        Ok(command("a b", "a", &["b"]))
    );
    assert_eq!(
        command_from_words("x".to_string(), vec![]),
        Err(Error::HookEmpty { command: "x".to_string() })
    );
}

#[test]
fn only_exit_code_zero_is_a_success() {
    assert_eq!(judge_exit("make", ExitReport::Exited(0)), Ok(()));
    assert_eq!(
        judge_exit("make", ExitReport::Exited(2)),
        Err(Error::HookFailed { command: "make".to_string(), status: Some(2) })
    );
    assert_eq!(
        judge_exit("make", ExitReport::Exited(-1)),
        Err(Error::HookFailed { command: "make".to_string(), status: Some(-1) })
    );
    assert_eq!(
        judge_exit("make", ExitReport::Killed),
        Err(Error::HookFailed { command: "make".to_string(), status: None })
    );
    assert_eq!(
        judge_exit("make", ExitReport::NotStarted),
        Err(Error::HookFailed { command: "make".to_string(), status: None })
    );
    assert!(ExitReport::Exited(0).is_success());
    assert!(!ExitReport::Killed.is_success());
    assert_eq!(ExitReport::Exited(7).exit_code(), Some(7));
    assert_eq!(ExitReport::NotStarted.exit_code(), None);
}

#[test]
fn hooks_run_in_declaration_order() {
    let list = hooks(&["echo one", "echo {{name}}", "echo three"]);
    let exits = vec![ExitReport::Exited(0); 3];
    let trace = replay(list, &demo_context(), &exits);
    assert_eq!(
        trace.commands,
        vec![
            command("echo one", "echo", &["one"]),
            command("echo demo", "echo", &["demo"]),
            command("echo three", "echo", &["three"]),
        ]
    );
    assert!(matches!(trace.end, HookStep::Completed));
}

#[test]
fn a_failing_hook_keeps_the_later_ones_from_running() {
    let list = hooks(&["touch first", "false", "touch marker"]);
    let exits = vec![ExitReport::Exited(0), ExitReport::Exited(1), ExitReport::Exited(0)];
    let trace = replay(list, &demo_context(), &exits);
    assert_eq!(
        trace.commands,
        vec![command("touch first", "touch", &["first"]), command("false", "false", &[])]
    );
    match trace.end {
        HookStep::Failed(error) => {
            assert_eq!(error, Error::HookFailed { command: "false".to_string(), status: Some(1) });
            assert_eq!(error.message(), "Hook command failed: false");
        },
        _ => panic!("the run went on"),
    }
}

#[test]
fn a_hook_that_cannot_be_started_fails_the_run() {
    let list = hooks(&["no-such-program --flag", "echo later"]);
    let trace = replay(list, &demo_context(), &vec![ExitReport::NotStarted, ExitReport::Exited(0)]);
    assert_eq!(trace.commands.len(), 1);
    assert!(matches!(
        trace.end,
        HookStep::Failed(Error::HookFailed { ref command, status: None }) if command == "no-such-program --flag"
    ));
}

#[test]
fn a_hook_that_cannot_be_prepared_stops_the_run_after_the_earlier_ones() {
    let list = hooks(&["echo one", "   ", "echo three"]);
    let trace = replay(list, &demo_context(), &vec![ExitReport::Exited(0); 3]);
    assert_eq!(trace.commands, vec![command("echo one", "echo", &["one"])]);
    assert!(matches!(trace.end, HookStep::Failed(Error::HookEmpty { .. })));

    let list = hooks(&["{{nobody}}", "echo two"]);
    let trace = replay(list, &demo_context(), &vec![ExitReport::Exited(0); 3]);
    assert!(trace.commands.is_empty());
    assert!(matches!(trace.end, HookStep::Failed(Error::Render { .. })));
}

#[test]
fn the_run_waits_where_the_reports_run_out() {
    let list = hooks(&["echo one", "echo two"]);
    let trace = replay(list, &demo_context(), &vec![ExitReport::Exited(0)]);
    assert_eq!(trace.commands.len(), 2);
    match trace.end {
        HookStep::Run { command: next, pending } => {
            assert_eq!(next, command("echo two", "echo", &["two"]));
            assert!(matches!(pending.report(&demo_context(), ExitReport::Exited(0)), HookStep::Completed));
        },
        _ => panic!("the run does not wait"),
    }
}

#[test]
fn no_hooks_complete_at_once() {
    assert!(matches!(begin(vec![], &demo_context()), HookStep::Completed));
    let trace = replay(vec![], &demo_context(), &vec![ExitReport::Exited(1)]);
    assert!(trace.commands.is_empty());
    assert!(matches!(trace.end, HookStep::Completed));
}

#[test]
fn the_runner_hands_out_one_command_at_a_time() {
    let manifest = Manifest {
        description: "d".to_string(),
        variables: vec![],
        hooks: hooks(&["cmake -S . -B build", "cmake --build build"]),
    };
    let archetype = Archetype::new("app".to_string(), manifest, "tpl/app".to_string());
    let context = demo_context();
    let pending = match archetype.run_hooks(&context) {
        HookStep::Run { command: first, pending } => {
            assert_eq!(first.program, "cmake");
            assert_eq!(first.args, vec!["-S", ".", "-B", "build"]);
            pending
        },
        _ => panic!("nothing to run"),
    };
    let pending = match pending.report(&context, ExitReport::Exited(0)) {
        HookStep::Run { command: second, pending } => {
            assert_eq!(second.line, "cmake --build build");
            pending
        },
        _ => panic!("nothing to run"),
    };
    match pending.report(&context, ExitReport::Exited(3)) {
        HookStep::Failed(error) => assert_eq!(
            error,
            Error::HookFailed { command: "cmake --build build".to_string(), status: Some(3) }
        ),
        _ => panic!("the run did not fail"),
    }
}
