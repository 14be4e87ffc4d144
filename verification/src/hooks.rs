//! The hook runner: which command to run next, and when to stop.
//!
//! Running a process is the caller's part. The runner hands out one command
//! at a time and wants to know how it ended before it hands out the next.

use vstd::prelude::*;
use vstd::string::*;
use crate::context::{ContextMap, RenderContext};
use crate::engine::{has_tag_opener, render, rendered};
use crate::error::{Error, ExitReport};

verus! {

/// A hook that is ready to run.
#[derive(Clone, Debug, PartialEq, Eq)]
pub struct HookCommand {
    /// The rendered command line, as it is shown to the user.
    pub line: String,
    /// The program: the first word of the line.
    pub program: String,
    /// The arguments: the other words of the line.
    pub args: Vec<String>,
}

/// The mathematical content of a `HookCommand`.
pub struct CommandModel {
    pub line: Seq<char>,
    pub program: Seq<char>,
    pub args: Seq<Seq<char>>,
}

impl HookCommand {
    pub open spec fn view(&self) -> CommandModel {
        CommandModel {
            line: self.line@,
            program: self.program@,
            args: self.args@.map_values(|s: String| s@),
        }
    }

    /// A copy of this command.
    pub fn copy(&self) -> (r: HookCommand)
        ensures
            r@ == self@,
    {
        let mut args: Vec<String> = Vec::new();
        let mut i: usize = 0;
        while i < self.args.len()
            invariant
                i <= self.args.len(),
                args.len() == i,
                forall|k: int| 0 <= k < i ==> (#[trigger] args[k])@ == self.args[k]@,
            decreases self.args.len() - i,
        {
            args.push(self.args[i].clone());
            i = i + 1;
        }
        assert(args@.map_values(|s: String| s@) =~= self.args@.map_values(|s: String| s@));
        HookCommand { line: self.line.clone(), program: self.program.clone(), args }
    }
}

/// The words that a command line splits into by the rules of the POSIX shell:
/// quoting and escaping are honoured, a `#` at the start of a word begins a
/// comment, nothing is expanded. A line that ends inside a quotation or after
/// a lone backslash gives the words before that point.
pub uninterp spec fn shell_words(line: Seq<char>) -> Seq<Seq<char>>;

/// Collects the words that `shlex::Shlex` yields for the line.
///
/// Trusted: the words depend on the line alone.
#[verifier::external_body]
pub(crate) fn split_words(line: &str) -> (r: Vec<String>)
    ensures
        r@.map_values(|s: String| s@) == shell_words(line@),
{
    shlex::Shlex::new(line).collect()
}

/// The command that a rendered line with its words stands for: the first
/// word is the program, the others are its arguments. A line without words
/// stands for none.
pub open spec fn command_of(line: Seq<char>, words: Seq<Seq<char>>) -> Option<CommandModel> {
    if words.len() == 0 {
        None
    } else {
        Some(CommandModel { line, program: words[0], args: words.skip(1) })
    }
}

/// What preparing a hook comes to.
pub enum Prepared {
    /// The command to run.
    Ready(CommandModel),
    /// The engine never renders the hook's template.
    Rejected,
    /// The rendered line, which holds no word.
    Empty(Seq<char>),
}

/// What preparing the hook `template` comes to wherever the engine renders
/// it: the line is split into words. `Rejected` where the engine never
/// renders it.
pub open spec fn prepared(template: Seq<char>, values: ContextMap) -> Prepared {
    match rendered(template, values) {
        None => Prepared::Rejected,
        Some(line) => match command_of(line, shell_words(line)) {
            Some(command) => Prepared::Ready(command),
            None => Prepared::Empty(line),
        },
    }
}

/// Where a run of hooks stands.
pub enum StepModel {
    /// The hook at `position` has to run as `command`.
    Run { command: CommandModel, position: int },
    /// Every hook ran and succeeded.
    Completed,
    /// The engine never renders the template of the hook at `position`.
    Rejected { position: int },
    /// The hook at `position` renders to `line`, which holds no word.
    Empty { position: int, line: Seq<char> },
    /// The hook at `position`, which ran as `line`, did not succeed.
    Failed { position: int, line: Seq<char>, status: Option<i32> },
}

/// The step that takes up the run at the hook `position`: that hook has to
/// run, or cannot be prepared, or there is no hook left.
pub open spec fn issue(hooks: Seq<Seq<char>>, values: ContextMap, position: int) -> StepModel {
    if position < 0 || position >= hooks.len() {
        StepModel::Completed
    } else {
        match prepared(hooks[position], values) {
            Prepared::Ready(command) => StepModel::Run { command, position },
            Prepared::Rejected => StepModel::Rejected { position },
            Prepared::Empty(line) => StepModel::Empty { position, line },
        }
    }
}

/// The step after the hook at `position`, which ran as `line`, ended as
/// `report` says: after a success the next hook is taken up, after anything
/// else the run has failed.
pub open spec fn resume(
    hooks: Seq<Seq<char>>,
    values: ContextMap,
    position: int,
    line: Seq<char>,
    report: ExitReport,
) -> StepModel {
    if report.succeeded() {
        issue(hooks, values, position + 1)
    } else {
        StepModel::Failed { position, line, status: report.code() }
    }
}

/// Where the run stands after the first `n` of `exits` were reported, each
/// for the command that was handed out before it, as long as the engine
/// renders every hook that it is asked for and can render. Once the run has
/// ended, further reports change nothing.
pub open spec fn step_after(
    hooks: Seq<Seq<char>>,
    values: ContextMap,
    exits: Seq<ExitReport>,
    n: nat,
) -> StepModel
    decreases n,
{
    if n == 0 {
        issue(hooks, values, 0)
    } else {
        match step_after(hooks, values, exits, (n - 1) as nat) {
            StepModel::Run { command, position } => resume(
                hooks,
                values,
                position,
                command.line,
                exits[n - 1],
            ),
            ended => ended,
        }
    }
}

/// The command that a step hands out, if it hands one out.
pub open spec fn handed_out(step: StepModel) -> Seq<CommandModel> {
    match step {
        StepModel::Run { command, .. } => seq![command],
        _ => Seq::empty(),
    }
}

/// The commands handed out up to the point where the first `n` of `exits`
/// were reported, in the order in which they were handed out.
pub open spec fn commands_after(
    hooks: Seq<Seq<char>>,
    values: ContextMap,
    exits: Seq<ExitReport>,
    n: nat,
) -> Seq<CommandModel>
    decreases n,
{
    if n == 0 {
        handed_out(step_after(hooks, values, exits, 0))
    } else if step_after(hooks, values, exits, (n - 1) as nat) is Run {
        commands_after(hooks, values, exits, (n - 1) as nat) + handed_out(
            step_after(hooks, values, exits, n),
        )
    } else {
        commands_after(hooks, values, exits, (n - 1) as nat)
    }
}

/// What holds of a run at every point: the commands handed out so far are
/// the hooks from the first on, one for one; every command but the last was
/// reported to have succeeded; and the run waits for a report exactly on the
/// last command.
pub proof fn lemma_run_invariant(
    hooks: Seq<Seq<char>>,
    values: ContextMap,
    exits: Seq<ExitReport>,
    n: nat,
)
    requires
        n <= exits.len(),
    ensures
        commands_after(hooks, values, exits, n).len() <= n + 1,
        commands_after(hooks, values, exits, n).len() <= hooks.len(),
        forall|i: int|
            0 <= i < commands_after(hooks, values, exits, n).len() ==> prepared(
                hooks[i],
                values,
            ) == Prepared::Ready(#[trigger] commands_after(hooks, values, exits, n)[i]),
        forall|i: int|
            0 <= i < commands_after(hooks, values, exits, n).len() - 1 ==> (#[trigger] exits[i]).succeeded(),
        match step_after(hooks, values, exits, n) {
            StepModel::Run { command, position } => {
                &&& position == n
                &&& commands_after(hooks, values, exits, n).len() == n + 1
                &&& commands_after(hooks, values, exits, n).last() == command
            },
            StepModel::Completed => {
                &&& commands_after(hooks, values, exits, n).len() == hooks.len()
                &&& forall|i: int| 0 <= i < hooks.len() ==> (#[trigger] exits[i]).succeeded()
            },
            StepModel::Rejected { position } => {
                &&& position == commands_after(hooks, values, exits, n).len()
                &&& position < hooks.len()
                &&& prepared(hooks[position], values) is Rejected
                &&& forall|i: int| 0 <= i < position ==> (#[trigger] exits[i]).succeeded()
            },
            StepModel::Empty { position, line } => {
                &&& position == commands_after(hooks, values, exits, n).len()
                &&& position < hooks.len()
                &&& prepared(hooks[position], values) == Prepared::Empty(line)
                &&& forall|i: int| 0 <= i < position ==> (#[trigger] exits[i]).succeeded()
            },
            StepModel::Failed { position, line, status } => {
                &&& 0 <= position
                &&& position == commands_after(hooks, values, exits, n).len() - 1
                &&& position < n
                &&& commands_after(hooks, values, exits, n).last().line == line
                &&& !exits[position].succeeded()
                &&& status == exits[position].code()
            },
        },
    decreases n,
{
    if n > 0 {
        lemma_run_invariant(hooks, values, exits, (n - 1) as nat);
    }
}

/// A run whose first `n` hooks can be prepared and are reported to have
/// succeeded stands at the hook `n`: that hook has to run next, or cannot be
/// prepared, or, where `n` hooks are all there are, the run is completed.
pub proof fn law_run_reaches(
    hooks: Seq<Seq<char>>,
    values: ContextMap,
    exits: Seq<ExitReport>,
    n: nat,
)
    requires
        n <= hooks.len(),
        n <= exits.len(),
        forall|i: int| 0 <= i < n ==> prepared(#[trigger] hooks[i], values) is Ready,
        forall|i: int| 0 <= i < n ==> (#[trigger] exits[i]).succeeded(),
    ensures
        step_after(hooks, values, exits, n) == issue(hooks, values, n as int),
    decreases n,
{
    if n > 0 {
        law_run_reaches(hooks, values, exits, (n - 1) as nat);
        assert(prepared(hooks[n - 1], values) is Ready);
        assert(exits[n - 1].succeeded());
    }
}

/// Hooks run in the order in which they are declared: the command handed out
/// at place `i` is the hook at place `i`, prepared with the context.
pub proof fn law_hooks_in_declaration_order(
    hooks: Seq<Seq<char>>,
    values: ContextMap,
    exits: Seq<ExitReport>,
    n: nat,
    i: int,
)
    requires
        n <= exits.len(),
        0 <= i < commands_after(hooks, values, exits, n).len(),
    ensures
        i < hooks.len(),
        prepared(hooks[i], values) == Prepared::Ready(commands_after(hooks, values, exits, n)[i]),
{
    lemma_run_invariant(hooks, values, exits, n);
}

/// A hook that fails is the last to run: where the hook at place `k` ran and
/// did not succeed, no hook after it is handed out, however many reports
/// follow, and the run has failed with that hook's command line and status.
pub proof fn law_failing_hook_halts(
    hooks: Seq<Seq<char>>,
    values: ContextMap,
    exits: Seq<ExitReport>,
    n: nat,
    k: int,
)
    requires
        n <= exits.len(),
        0 <= k < n,
        k < commands_after(hooks, values, exits, n).len(),
        !exits[k].succeeded(),
    ensures
        commands_after(hooks, values, exits, n).len() == k + 1,
        step_after(hooks, values, exits, n) == (StepModel::Failed {
            position: k,
            line: commands_after(hooks, values, exits, n)[k].line,
            status: exits[k].code(),
        }),
{
    lemma_run_invariant(hooks, values, exits, n);
}

/// The command for a rendered line and the words it was split into.
///
/// A line without words is `HookEmpty`.
pub fn command_from_words(line: String, words: Vec<String>) -> (r: Result<HookCommand, Error>)
    ensures
        match command_of(line@, words@.map_values(|s: String| s@)) {
            Some(command) => r matches Ok(c) && c@ == command,
            None => r matches Err(Error::HookEmpty { command }) && command@ == line@,
        },
{
    if words.len() == 0 {
        return Err(Error::HookEmpty { command: line });
    }
    let program = words[0].clone();
    let mut args: Vec<String> = Vec::new();
    let mut i: usize = 1;
    while i < words.len()
        invariant
            1 <= i <= words.len(),
            args.len() == i - 1,
            forall|k: int| 0 <= k < i - 1 ==> (#[trigger] args[k])@ == words[k + 1]@,
        decreases words.len() - i,
    {
        args.push(words[i].clone());
        i = i + 1;
    }
    assert(args@.map_values(|s: String| s@) =~= words@.map_values(|s: String| s@).skip(1));
    Ok(HookCommand { line, program, args })
}

/// Prepares a hook: renders its template and splits the line into the
/// program and its arguments.
///
/// A rendered line without words is `HookEmpty`. A template that the engine
/// refuses is a `Render` error that names the template; the engine may
/// refuse only a template with a tag in it, so a hook without placeholders
/// is always prepared or `HookEmpty`.
pub fn prepare_hook(template: &str, context: &RenderContext) -> (r: Result<HookCommand, Error>)
    ensures
        r matches Ok(c) ==> prepared(template@, context@) == Prepared::Ready(c@),
        r matches Err(e) ==> {
            ||| e matches Error::HookEmpty { command } && prepared(template@, context@)
                == Prepared::Empty(command@)
            ||| e matches Error::Render { template: t, .. } && t@ == template@ && has_tag_opener(
                template@,
            )
        },
{
    let line = render(template, context)?;
    let words = split_words(line.as_str());
    command_from_words(line, words)
}

/// Judges how a hook that ran as `line` ended.
///
/// Anything but an exit with code zero is `HookFailed`, with the line and
/// the exit code where there is one.
pub fn judge_exit(line: &str, report: ExitReport) -> (r: Result<(), Error>)
    ensures
        report.succeeded() ==> r is Ok,
        !report.succeeded() ==> (r matches Err(Error::HookFailed { command, status })
            && command@ == line@ && status == report.code()),
{
    if report.is_success() {
        Ok(())
    } else {
        Err(Error::HookFailed { command: String::from_str(line), status: report.exit_code() })
    }
}

/// A run of hooks that waits for the report on the command it handed out.
pub struct PendingHook {
    hooks: Vec<String>,
    position: usize,
    line: String,
}

/// What the runner asks of its caller.
pub enum HookStep {
    /// Run `command` in the project's directory, then report to `pending`
    /// how it ended.
    Run { command: HookCommand, pending: PendingHook },
    /// Every hook ran and succeeded.
    Completed,
    /// The run has failed; no further hook runs.
    Failed(Error),
}

impl PendingHook {
    /// The hooks of the run.
    pub closed spec fn hooks(&self) -> Seq<Seq<char>> {
        self.hooks@.map_values(|s: String| s@)
    }

    /// The place of the hook that is running.
    pub closed spec fn position(&self) -> int {
        self.position as int
    }

    /// The command line of the hook that is running.
    pub closed spec fn line(&self) -> Seq<char> {
        self.line@
    }

    /// Takes the report on the command that was handed out and says what
    /// comes next: after a success the next hook, or the end of the run;
    /// after anything else the failure, and no further hook.
    ///
    /// The next hook may be refused by the engine instead, where it has a
    /// tag in it: then the run has failed with a `Render` error that names
    /// the hook.
    pub fn report(self, context: &RenderContext, report: ExitReport) -> (r: HookStep)
        ensures
            r.is_step(
                self.hooks(),
                resume(self.hooks(), context@, self.position(), self.line(), report),
            ) || (report.succeeded() && r.is_refusal(self.hooks(), self.position() + 1)),
    {
        match judge_exit(self.line.as_str(), report) {
            Ok(()) => {
                if self.position < self.hooks.len() {
                    take_up(self.hooks, self.position + 1, context)
                } else {
                    HookStep::Completed
                }
            },
            Err(e) => HookStep::Failed(e),
        }
    }
}

impl HookStep {
    /// Whether this step is the engine's refusal to render the hook at
    /// `position`: the run has failed with a `Render` error that names the
    /// hook. The engine may refuse only a hook with a tag in it.
    pub open spec fn is_refusal(&self, hooks: Seq<Seq<char>>, position: int) -> bool {
        &&& 0 <= position < hooks.len()
        &&& has_tag_opener(hooks[position])
        &&& *self matches HookStep::Failed(Error::Render { template, .. })
        &&& template@ == hooks[position]
    }

    /// Whether this step, in a run of `hooks`, is the step `model`.
    pub open spec fn is_step(&self, hooks: Seq<Seq<char>>, model: StepModel) -> bool {
        match (*self, model) {
            (HookStep::Run { command, pending }, StepModel::Run { command: c, position }) => {
                &&& command@ == c
                &&& pending.hooks() == hooks
                &&& pending.position() == position
                &&& pending.line() == c.line
            },
            (HookStep::Completed, StepModel::Completed) => true,
            (HookStep::Failed(e), StepModel::Rejected { position }) => {
                e matches Error::Render { template, .. } && template@ == hooks[position]
            },
            (HookStep::Failed(e), StepModel::Empty { line, .. }) => {
                e matches Error::HookEmpty { command } && command@ == line
            },
            (HookStep::Failed(e), StepModel::Failed { line, status, .. }) => {
                e matches Error::HookFailed { command, status: s } && command@ == line && s
                    == status
            },
            _ => false,
        }
    }
}

/// Takes up the run at the hook `position`.
fn take_up(hooks: Vec<String>, position: usize, context: &RenderContext) -> (r: HookStep)
    ensures
        r.is_step(
            hooks@.map_values(|s: String| s@),
            issue(hooks@.map_values(|s: String| s@), context@, position as int),
        ) || r.is_refusal(hooks@.map_values(|s: String| s@), position as int),
{
    if position >= hooks.len() {
        return HookStep::Completed;
    }
    match prepare_hook(hooks[position].as_str(), context) {
        Ok(command) => {
            let line = command.line.clone();
            HookStep::Run { command, pending: PendingHook { hooks, position, line } }
        },
        Err(e) => HookStep::Failed(e),
    }
}

/// Begins a run of `hooks`: says whether the first hook has to run, cannot
/// be prepared, or there is no hook at all.
///
/// The first hook may be refused by the engine instead, where it has a tag
/// in it.
pub fn begin(hooks: Vec<String>, context: &RenderContext) -> (r: HookStep)
    ensures
        r.is_step(
            hooks@.map_values(|s: String| s@),
            issue(hooks@.map_values(|s: String| s@), context@, 0),
        ) || r.is_refusal(hooks@.map_values(|s: String| s@), 0),
{
    take_up(hooks, 0, context)
}

/// A run of hooks played through with given reports.
pub struct HookTrace {
    /// The commands that were handed out, in that order.
    pub commands: Vec<HookCommand>,
    /// Where the run stands after the reports.
    pub end: HookStep,
}

/// Whether a run, after `commands` were handed out and reported to have
/// succeeded, ended with the engine's refusal of the hook that follows them.
pub open spec fn is_refused_run(
    commands: Seq<CommandModel>,
    end: HookStep,
    hooks: Seq<Seq<char>>,
    values: ContextMap,
    exits: Seq<ExitReport>,
) -> bool {
    &&& end.is_refusal(hooks, commands.len() as int)
    &&& commands.len() <= exits.len()
    &&& forall|i: int|
        0 <= i < commands.len() ==> prepared(hooks[i], values) == Prepared::Ready(
            #[trigger] commands[i],
        )
    &&& forall|i: int| 0 <= i < commands.len() ==> (#[trigger] exits[i]).succeeded()
}

/// Plays a run of `hooks` through: the command handed out at place `i` ends
/// as `exits[i]` says. The run goes on until it ends or the reports run out.
///
/// The run is the one that `step_after` and `commands_after` describe,
/// unless the engine refuses a hook with a tag in it: then the commands are
/// the hooks before that one, which all succeeded.
pub fn replay(hooks: Vec<String>, context: &RenderContext, exits: &Vec<ExitReport>) -> (r:
    HookTrace)
    ensures
        ({
            &&& r.commands@.map_values(|c: HookCommand| c@) == commands_after(
                hooks@.map_values(|s: String| s@),
                context@,
                exits@,
                exits.len() as nat,
            )
            &&& r.end.is_step(
                hooks@.map_values(|s: String| s@),
                step_after(
                    hooks@.map_values(|s: String| s@),
                    context@,
                    exits@,
                    exits.len() as nat,
                ),
            )
        }) || is_refused_run(
            r.commands@.map_values(|c: HookCommand| c@),
            r.end,
            hooks@.map_values(|s: String| s@),
            context@,
            exits@,
        ),
{
    let ghost all = hooks@.map_values(|s: String| s@);
    let mut commands: Vec<HookCommand> = Vec::new();
    let mut step = begin(hooks, context);
    match &step {
        HookStep::Run { command, .. } => {
            commands.push(command.copy());
        },
        _ => {},
    }
    assert(step.is_step(all, issue(all, context@, 0)) ==> commands@.map_values(
        |c: HookCommand| c@,
    ) =~= commands_after(all, context@, exits@, 0));
    assert(step.is_refusal(all, 0) ==> commands@.map_values(|c: HookCommand| c@) =~= Seq::empty());
    let mut n: usize = 0;
    while n < exits.len()
        invariant
            n <= exits.len(),
            ({
                &&& commands@.map_values(|c: HookCommand| c@) == commands_after(
                    all,
                    context@,
                    exits@,
                    n as nat,
                )
                &&& step.is_step(all, step_after(all, context@, exits@, n as nat))
            }) || is_refused_run(
                commands@.map_values(|c: HookCommand| c@),
                step,
                all,
                context@,
                exits@,
            ),
        decreases exits.len() - n,
    {
        let ghost before = commands@.map_values(|c: HookCommand| c@);
        match step {
            HookStep::Run { command, pending } => {
                proof {
                    lemma_run_invariant(all, context@, exits@, n as nat);
                }
                step = pending.report(context, exits[n]);
                match &step {
                    HookStep::Run { command, .. } => {
                        commands.push(command.copy());
                    },
                    _ => {},
                }
                proof {
                    let now = commands@.map_values(|c: HookCommand| c@);
                    if step.is_step(
                        all,
                        resume(all, context@, n as int, command@.line, exits[n as int]),
                    ) {
                        assert(now =~= before + handed_out(
                            step_after(all, context@, exits@, (n + 1) as nat),
                        ));
                    } else {
                        assert(now =~= before);
                        assert(is_refused_run(now, step, all, context@, exits@));
                    }
                }
            },
            ended => {
                step = ended;
            },
        }
        n = n + 1;
    }
    HookTrace { commands, end: step }
}

} // verus!
