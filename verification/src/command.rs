//! What the installer asks of the machine it runs on.
//!
//! The installer never touches the machine itself. It hands out [`Step`]s:
//! a program to start, a file to write, a path to look at, each with the
//! policy to apply when the step fails. Programs are started directly from an
//! argument vector. Where a step needs a shell, the text for the shell is
//! fixed and the values are its parameters: no value ever passes through a
//! shell's parser, and secrets travel on standard input only.

use vstd::prelude::*;
use vstd::string::StringExecFns;

verus! {

/// The texts held by a list of strings.
pub open spec fn texts(items: Seq<String>) -> Seq<Seq<char>> {
    Seq::new(items.len(), |i: int| items[i]@)
}

/// The texts held by a list of string slices.
pub open spec fn words(items: Seq<&str>) -> Seq<Seq<char>> {
    Seq::new(items.len(), |i: int| items[i]@)
}

/// Copies a list of strings.
pub fn copy_texts(list: &Vec<String>) -> (copy: Vec<String>)
    ensures
        texts(copy@) == texts(list@),
{
    let mut copy: Vec<String> = Vec::new();
    let mut i: usize = 0;
    while i < list.len()
        invariant
            i <= list@.len(),
            copy@.len() == i,
            forall|j: int| 0 <= j < i ==> (#[trigger] copy@[j])@ == list@[j]@,
        decreases list@.len() - i,
    {
        copy.push(list[i].clone());
        i += 1;
    }
    copy
}

/// The strings that hold the given texts.
pub fn strings(items: &[&str]) -> (list: Vec<String>)
    ensures
        texts(list@) == words(items@),
{
    let mut list: Vec<String> = Vec::new();
    let mut i: usize = 0;
    while i < items.len()
        invariant
            i <= items@.len(),
            list@.len() == i,
            forall|j: int| 0 <= j < i ==> (#[trigger] list@[j])@ == items@[j]@,
        decreases items@.len() - i,
    {
        list.push(String::from_str(items[i]));
        i += 1;
    }
    list
}

/// The texts of `names`, where `wanted` holds; else none.
pub open spec fn group(wanted: bool, names: Seq<Seq<char>>) -> Seq<Seq<char>> {
    if wanted {
        names
    } else {
        Seq::empty()
    }
}

/// Adds the texts of `names` to the list, where `wanted` holds.
pub fn add_group(list: &mut Vec<String>, wanted: bool, names: &[&str])
    ensures
        texts(final(list)@) == texts(old(list)@) + group(wanted, words(names@)),
{
    if wanted {
        let mut i: usize = 0;
        while i < names.len()
            invariant
                i <= names@.len(),
                texts(list@) == texts(old(list)@) + words(names@).take(i as int),
            decreases names@.len() - i,
        {
            let ghost before = texts(list@);
            list.push(String::from_str(names[i]));
            assert(texts(list@) =~= before.push(names@[i as int]@));
            i += 1;
        }
    }
}

/// Adds the strings of `more` to the list.
pub fn add_all(list: &mut Vec<String>, more: Vec<String>)
    ensures
        texts(final(list)@) == texts(old(list)@) + texts(more@),
{
    let mut more = more;
    list.append(&mut more);
}

/// A program to start: its name, its arguments, what to feed it on standard
/// input, and whether its complaints are of interest.
#[derive(Debug, PartialEq, Eq)]
pub struct Invocation {
    pub program: String,
    pub args: Vec<String>,
    /// What the program reads from its standard input, where it reads
    /// anything.
    pub input: Option<String>,
    /// Whether what the program writes to its standard error is dropped: so
    /// it is for programs that are expected to fail on a clean machine.
    pub quiet: bool,
}

/// An [`Invocation`] as the texts that it holds.
#[verifier::ext_equal]
pub struct InvocationView {
    pub program: Seq<char>,
    pub args: Seq<Seq<char>>,
    pub input: Option<Seq<char>>,
    pub quiet: bool,
}

impl View for Invocation {
    type V = InvocationView;

    open spec fn view(&self) -> InvocationView {
        InvocationView {
            program: self.program@,
            args: texts(self.args@),
            input: match self.input {
                Some(text) => Some(text@),
                None => None,
            },
            quiet: self.quiet,
        }
    }
}

/// A program with its arguments and nothing on standard input.
pub open spec fn command(program: Seq<char>, args: Seq<Seq<char>>) -> InvocationView {
    InvocationView { program, args, input: None, quiet: false }
}

/// A program with its arguments that reads `input` from standard input.
pub open spec fn fed(program: Seq<char>, args: Seq<Seq<char>>, input: Seq<char>) -> InvocationView {
    InvocationView { program, args, input: Some(input), quiet: false }
}

/// The same program, with what it writes to its standard error dropped.
pub open spec fn quietly(inv: InvocationView) -> InvocationView {
    InvocationView { quiet: true, ..inv }
}

/// A program started inside the target system rooted at `root`.
pub open spec fn inside(root: Seq<char>, program: Seq<char>, args: Seq<Seq<char>>) -> InvocationView {
    command("arch-chroot"@, seq![root, program] + args)
}

/// A program started inside the target system that reads `input`.
pub open spec fn inside_fed(
    root: Seq<char>,
    program: Seq<char>,
    args: Seq<Seq<char>>,
    input: Seq<char>,
) -> InvocationView {
    fed("arch-chroot"@, seq![root, program] + args, input)
}

impl Invocation {
    /// The program `program` with the arguments `args`.
    pub fn new(program: &str, args: &[&str]) -> (inv: Invocation)
        ensures
            inv@ == command(program@, words(args@)),
    {
        let mut list: Vec<String> = Vec::new();
        let mut i: usize = 0;
        while i < args.len()
            invariant
                i <= args@.len(),
                list@.len() == i,
                forall|j: int| 0 <= j < i ==> (#[trigger] list@[j])@ == args@[j]@,
            decreases args@.len() - i,
        {
            list.push(String::from_str(args[i]));
            i += 1;
        }
        Invocation { program: String::from_str(program), args: list, input: None, quiet: false }
    }

    /// The program `program` with the arguments `args`, started inside the
    /// target system rooted at `root`.
    pub fn inside(root: &str, program: &str, args: &[&str]) -> (inv: Invocation)
        ensures
            inv@ == inside(root@, program@, words(args@)),
    {
        let mut list: Vec<String> = Vec::new();
        list.push(String::from_str(root));
        list.push(String::from_str(program));
        let mut i: usize = 0;
        while i < args.len()
            invariant
                i <= args@.len(),
                list@.len() == i + 2,
                list@[0]@ == root@,
                list@[1]@ == program@,
                forall|j: int| 2 <= j < i + 2 ==> (#[trigger] list@[j])@ == args@[j - 2]@,
            decreases args@.len() - i,
        {
            list.push(String::from_str(args[i]));
            i += 1;
        }
        Invocation {
            program: String::from_str("arch-chroot"),
            args: list,
            input: None,
            quiet: false,
        }
    }

    /// The same invocation with one more argument.
    pub fn arg(self, text: &str) -> (inv: Invocation)
        ensures
            inv@ == (InvocationView { args: self@.args.push(text@), ..self@ }),
    {
        let mut inv = self;
        inv.args.push(String::from_str(text));
        inv
    }

    /// The same invocation with the strings of `more` as further arguments.
    pub fn args(self, more: &Vec<String>) -> (inv: Invocation)
        ensures
            inv@ == (InvocationView { args: self@.args + texts(more@), ..self@ }),
    {
        let mut inv = self;
        let mut i: usize = 0;
        while i < more.len()
            invariant
                i <= more@.len(),
                inv.program == self.program,
                inv.input == self.input,
                inv.quiet == self.quiet,
                texts(inv.args@) == self@.args + texts(more@).take(i as int),
            decreases more@.len() - i,
        {
            let ghost before = texts(inv.args@);
            inv.args.push(more[i].clone());
            assert(texts(inv.args@) =~= before.push(more@[i as int]@));
            i += 1;
        }
        inv
    }

    /// The same invocation, fed `text` on standard input.
    pub fn input(self, text: &str) -> (inv: Invocation)
        ensures
            inv@ == (InvocationView { input: Some(text@), ..self@ }),
    {
        Invocation {
            program: self.program,
            args: self.args,
            input: Some(String::from_str(text)),
            quiet: self.quiet,
        }
    }

    /// The same invocation, with what the program writes to its standard
    /// error dropped.
    pub fn quiet(self) -> (inv: Invocation)
        ensures
            inv@ == quietly(self@),
    {
        Invocation { program: self.program, args: self.args, input: self.input, quiet: true }
    }
}

impl Clone for Invocation {
    fn clone(&self) -> (copy: Self)
        ensures
            copy@ == self@,
    {
        let input = match &self.input {
            Some(text) => Some(text.clone()),
            None => None,
        };
        Invocation {
            program: self.program.clone(),
            args: copy_texts(&self.args),
            input,
            quiet: self.quiet,
        }
    }
}

/// One thing for the host to do. The host answers each with a [`Reply`].
#[derive(Debug, PartialEq, Eq)]
pub enum Action {
    /// Start the program and wait for it; the reply says whether it
    /// succeeded.
    Run(Invocation),
    /// Start the program and collect what it prints; the reply carries its
    /// standard output.
    Capture(Invocation),
    /// Look whether the path exists; the reply says so.
    Exists(String),
    /// Replace the file's content.
    Write { path: String, content: String },
    /// Add to the end of the file, creating it when missing.
    Append { path: String, content: String },
}

/// An [`Action`] as the texts that it holds.
#[verifier::ext_equal]
pub enum ActionView {
    Run(InvocationView),
    Capture(InvocationView),
    Exists(Seq<char>),
    Write { path: Seq<char>, content: Seq<char> },
    Append { path: Seq<char>, content: Seq<char> },
}

impl View for Action {
    type V = ActionView;

    open spec fn view(&self) -> ActionView {
        match self {
            Action::Run(inv) => ActionView::Run(inv@),
            Action::Capture(inv) => ActionView::Capture(inv@),
            Action::Exists(path) => ActionView::Exists(path@),
            Action::Write { path, content } => ActionView::Write { path: path@, content: content@ },
            Action::Append { path, content } => ActionView::Append {
                path: path@,
                content: content@,
            },
        }
    }
}

impl Clone for Action {
    fn clone(&self) -> (copy: Self)
        ensures
            copy@ == self@,
    {
        match self {
            Action::Run(inv) => Action::Run(inv.clone()),
            Action::Capture(inv) => Action::Capture(inv.clone()),
            Action::Exists(path) => Action::Exists(path.clone()),
            Action::Write { path, content } => Action::Write {
                path: path.clone(),
                content: content.clone(),
            },
            Action::Append { path, content } => Action::Append {
                path: path.clone(),
                content: content.clone(),
            },
        }
    }
}

/// What a failed step means for the installation.
#[derive(Debug, PartialEq, Eq)]
pub enum Failure {
    /// Nothing: the step was an attempt.
    Ignored,
    /// The installation goes on and the host shows the warning.
    Warning(String),
    /// The installation stops; the text describes what went wrong.
    Fatal(String),
}

/// A [`Failure`] as the text that it holds.
#[verifier::ext_equal]
pub enum FailureView {
    Ignored,
    Warning(Seq<char>),
    Fatal(Seq<char>),
}

impl View for Failure {
    type V = FailureView;

    open spec fn view(&self) -> FailureView {
        match self {
            Failure::Ignored => FailureView::Ignored,
            Failure::Warning(text) => FailureView::Warning(text@),
            Failure::Fatal(text) => FailureView::Fatal(text@),
        }
    }
}

impl Clone for Failure {
    fn clone(&self) -> (copy: Self)
        ensures
            copy@ == self@,
    {
        match self {
            Failure::Ignored => Failure::Ignored,
            Failure::Warning(text) => Failure::Warning(text.clone()),
            Failure::Fatal(text) => Failure::Fatal(text.clone()),
        }
    }
}

/// An action together with the meaning of its failure.
#[derive(Debug, PartialEq, Eq)]
pub struct Step {
    pub action: Action,
    pub failure: Failure,
}

/// A [`Step`] as the texts that it holds.
#[verifier::ext_equal]
pub struct StepView {
    pub action: ActionView,
    pub failure: FailureView,
}

impl View for Step {
    type V = StepView;

    open spec fn view(&self) -> StepView {
        StepView { action: self.action@, failure: self.failure@ }
    }
}

impl StepView {
    /// Whether the installation stops when this step fails.
    pub open spec fn is_fatal(self) -> bool {
        self.failure is Fatal
    }
}

/// The program and the arguments of a step that starts a program: what
/// every user of the machine can see of it while it runs.
pub open spec fn command_line(step: StepView) -> Option<(Seq<char>, Seq<Seq<char>>)> {
    match step.action {
        ActionView::Run(inv) => Some((inv.program, inv.args)),
        ActionView::Capture(inv) => Some((inv.program, inv.args)),
        _ => None,
    }
}

/// Whether none of the steps can stop the installation.
pub open spec fn never_fatal(steps: Seq<StepView>) -> bool {
    forall|i: int| 0 <= i < steps.len() ==> !(#[trigger] steps[i]).is_fatal()
}

/// Whether each of the steps stops the installation when it fails.
pub open spec fn all_fatal(steps: Seq<StepView>) -> bool {
    forall|i: int| 0 <= i < steps.len() ==> (#[trigger] steps[i]).is_fatal()
}

/// Steps that cannot stop the installation, followed by more of the kind,
/// cannot stop the installation.
pub proof fn lemma_never_fatal_joined(first: Seq<StepView>, second: Seq<StepView>)
    requires
        never_fatal(first),
        never_fatal(second),
    ensures
        never_fatal(first + second),
{
    assert forall|i: int| 0 <= i < (first + second).len() implies !(#[trigger] (first
        + second)[i]).is_fatal() by {
        if i < first.len() {
            assert((first + second)[i] == first[i]);
        } else {
            assert((first + second)[i] == second[i - first.len()]);
        }
    }
}

/// Running `inv`, whatever comes of it.
pub open spec fn attempt(inv: InvocationView) -> StepView {
    StepView { action: ActionView::Run(inv), failure: FailureView::Ignored }
}

/// Running `inv`; a failure is shown as `warning`.
pub open spec fn advise(inv: InvocationView, warning: Seq<char>) -> StepView {
    StepView { action: ActionView::Run(inv), failure: FailureView::Warning(warning) }
}

/// Running `inv`; a failure stops the installation with `error`.
pub open spec fn demand(inv: InvocationView, error: Seq<char>) -> StepView {
    StepView { action: ActionView::Run(inv), failure: FailureView::Fatal(error) }
}

/// Collecting what `inv` prints.
pub open spec fn capture(inv: InvocationView) -> StepView {
    StepView { action: ActionView::Capture(inv), failure: FailureView::Ignored }
}

/// Looking whether `path` exists.
pub open spec fn exists_at(path: Seq<char>) -> StepView {
    StepView { action: ActionView::Exists(path), failure: FailureView::Ignored }
}

/// Writing `content` to `path`, whatever comes of it.
pub open spec fn written(path: Seq<char>, content: Seq<char>) -> StepView {
    StepView { action: ActionView::Write { path, content }, failure: FailureView::Ignored }
}

/// Appending `content` to `path`, whatever comes of it.
pub open spec fn appended(path: Seq<char>, content: Seq<char>) -> StepView {
    StepView { action: ActionView::Append { path, content }, failure: FailureView::Ignored }
}

impl Step {
    /// Runs `inv`, whatever comes of it.
    pub fn attempt(inv: Invocation) -> (step: Step)
        ensures
            step@ == attempt(inv@),
    {
        Step { action: Action::Run(inv), failure: Failure::Ignored }
    }

    /// Runs `inv`; a failure is shown as `warning`.
    pub fn advise(inv: Invocation, warning: &str) -> (step: Step)
        ensures
            step@ == advise(inv@, warning@),
    {
        Step { action: Action::Run(inv), failure: Failure::Warning(String::from_str(warning)) }
    }

    /// Runs `inv`; a failure stops the installation with `error`.
    pub fn demand(inv: Invocation, error: &str) -> (step: Step)
        ensures
            step@ == demand(inv@, error@),
    {
        Step { action: Action::Run(inv), failure: Failure::Fatal(String::from_str(error)) }
    }

    /// Collects what `inv` prints.
    pub fn capture(inv: Invocation) -> (step: Step)
        ensures
            step@ == capture(inv@),
    {
        Step { action: Action::Capture(inv), failure: Failure::Ignored }
    }

    /// Looks whether `path` exists.
    pub fn exists_at(path: &str) -> (step: Step)
        ensures
            step@ == exists_at(path@),
    {
        Step { action: Action::Exists(String::from_str(path)), failure: Failure::Ignored }
    }

    /// Writes `content` to `path`, whatever comes of it.
    pub fn write(path: &str, content: &str) -> (step: Step)
        ensures
            step@ == written(path@, content@),
    {
        Step {
            action: Action::Write {
                path: String::from_str(path),
                content: String::from_str(content),
            },
            failure: Failure::Ignored,
        }
    }

    /// Appends `content` to `path`, whatever comes of it.
    pub fn append(path: &str, content: &str) -> (step: Step)
        ensures
            step@ == appended(path@, content@),
    {
        Step {
            action: Action::Append {
                path: String::from_str(path),
                content: String::from_str(content),
            },
            failure: Failure::Ignored,
        }
    }

    /// The same action; a failure is shown as `warning`.
    pub fn or_warn(self, warning: &str) -> (step: Step)
        ensures
            step@ == (StepView { failure: FailureView::Warning(warning@), ..self@ }),
    {
        Step { action: self.action, failure: Failure::Warning(String::from_str(warning)) }
    }

    /// Whether the installation stops when this step fails.
    pub fn is_fatal(&self) -> (fatal: bool)
        ensures
            fatal == self@.is_fatal(),
    {
        match &self.failure {
            Failure::Fatal(_) => true,
            _ => false,
        }
    }
}

impl Clone for Step {
    fn clone(&self) -> (copy: Self)
        ensures
            copy@ == self@,
    {
        Step { action: self.action.clone(), failure: self.failure.clone() }
    }
}

/// Steps to carry out one after the other.
#[derive(Debug, PartialEq, Eq)]
pub struct Script {
    pub steps: Vec<Step>,
}

impl View for Script {
    type V = Seq<StepView>;

    open spec fn view(&self) -> Seq<StepView> {
        Seq::new(self.steps@.len(), |i: int| self.steps@[i]@)
    }
}

impl Script {
    /// The script without steps.
    pub fn new() -> (script: Script)
        ensures
            script@ == Seq::<StepView>::empty(),
    {
        let script = Script { steps: Vec::new() };
        script
    }

    /// Adds a step at the end.
    pub fn push(&mut self, step: Step)
        ensures
            final(self)@ == old(self)@.push(step@),
    {
        self.steps.push(step);
    }

    /// Adds the steps of `other` at the end.
    pub fn extend(&mut self, other: Script)
        ensures
            final(self)@ == old(self)@ + other@,
    {
        let mut other = other;
        self.steps.append(&mut other.steps);
    }

    /// The number of steps.
    pub fn len(&self) -> (n: usize)
        ensures
            n == self@.len(),
    {
        self.steps.len()
    }

    /// The step at position `i`.
    pub fn step(&self, i: usize) -> (step: &Step)
        requires
            i < self@.len(),
        ensures
            step@ == self@[i as int],
    {
        &self.steps[i]
    }
}

/// The host's answer to a step: whether it succeeded (for a path: whether it
/// exists) and, for a captured program, what it printed.
#[derive(Debug, PartialEq, Eq)]
pub struct Reply {
    pub success: bool,
    pub output: String,
}

/// A [`Reply`] as the text that it holds.
pub struct ReplyView {
    pub success: bool,
    pub output: Seq<char>,
}

impl View for Reply {
    type V = ReplyView;

    open spec fn view(&self) -> ReplyView {
        ReplyView { success: self.success, output: self.output@ }
    }
}

impl Reply {
    /// The answer to a step that printed nothing of interest.
    pub fn status(success: bool) -> (reply: Reply)
        ensures
            reply@ == (ReplyView { success, output: Seq::empty() }),
    {
        Reply { success, output: String::new() }
    }

    /// The answer to a captured program.
    pub fn printed(success: bool, output: &str) -> (reply: Reply)
        ensures
            reply@ == (ReplyView { success, output: output@ }),
    {
        Reply { success, output: String::from_str(output) }
    }
}

} // verus!
