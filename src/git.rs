use vstd::prelude::*;
use crate::message::joined;

verus! {

/// The failure of a git invocation, carrying the text it wrote to stderr.
#[derive(Debug, Clone)]
pub enum GitError {
    Git(String),
}

impl GitError {
    /// The text the failing invocation reported.
    pub fn text(&self) -> (r: &String)
        ensures
            match self {
                GitError::Git(t) => r == t,
            },
    {
        match self {
            GitError::Git(t) => t,
        }
    }

    /// A one-line description of the failure.
    pub fn describe(&self) -> (r: String)
        ensures
            r@ == describe_text(self.text_view()),
    {
        let mut r = "Git command failed terribly: ".to_owned();
        match self {
            GitError::Git(t) => r.append(t.as_str()),
        }
        r
    }

    /// The text the failing invocation reported, as characters.
    pub open spec fn text_view(&self) -> Seq<char> {
        match self {
            GitError::Git(t) => t@,
        }
    }
}

/// The description of a git failure with `text`.
pub open spec fn describe_text(text: Seq<char>) -> Seq<char> {
    "Git command failed terribly: "@ + text
}

/// One git invocation: the subcommand, its arguments, and whether it is
/// echoed before it runs.
#[derive(Debug, Clone)]
pub struct GitInvocation {
    pub command: String,
    pub args: Vec<String>,
    pub verbose: bool,
}

impl GitInvocation {
    /// The subcommand, as characters.
    pub open spec fn command_view(&self) -> Seq<char> {
        self.command@
    }

    /// The arguments, as characters.
    pub open spec fn args_view(&self) -> Seq<Seq<char>> {
        self.args.deep_view()
    }

    /// The echo of the invocation, `git <command> <args joined by spaces>`,
    /// when it is verbose.
    pub fn echo_line(&self) -> (r: Option<String>)
        ensures
            self.verbose ==> r is Some && r->0@ == echo_text(self.command_view(), self.args_view()),
            !self.verbose ==> r is None,
    {
        if !self.verbose {
            return None;
        }
        let mut r = "git ".to_owned();
        r.append(self.command.as_str());
        r.append(" ");
        let ghost head = r@;
        let ghost args = self.args.deep_view();
        let mut i: usize = 0;
        while i < self.args.len()
            invariant
                i <= self.args.len(),
                args == self.args.deep_view(),
                r@ == head + joined(args.subrange(0, i as int), " "@),
            decreases self.args.len() - i,
        {
            if i > 0 {
                r.append(" ");
            }
            r.append(self.args[i].as_str());
            proof {
                let done = args.subrange(0, i as int + 1);
                assert(done.drop_last() =~= args.subrange(0, i as int));
                assert(args[i as int] == self.args@[i as int]@);
                assert(r@ =~= head + joined(done, " "@));
            }
            i = i + 1;
        }
        assert(args.subrange(0, self.args.len() as int) =~= args);
        Some(r)
    }
}

/// The echo of an invocation: `git`, the subcommand, and the arguments
/// separated by spaces.
pub open spec fn echo_text(command: Seq<char>, args: Seq<Seq<char>>) -> Seq<char> {
    "git "@ + command + " "@ + joined(args, " "@)
}

/// The four operations of a commit, in the order they run.
#[derive(Debug, Clone, Copy, PartialEq, Eq, Structural)]
pub enum GitStep {
    Stage,
    RebasePull,
    Commit,
    Push,
}

/// The step that follows `step`, if any.
pub open spec fn step_after(step: GitStep) -> Option<GitStep> {
    match step {
        GitStep::Stage => Some(GitStep::RebasePull),
        GitStep::RebasePull => Some(GitStep::Commit),
        GitStep::Commit => Some(GitStep::Push),
        GitStep::Push => None,
    }
}

/// The subcommand and arguments that carry out `step`; `message` is the
/// commit message.
pub open spec fn step_call(step: GitStep, message: Seq<char>) -> (Seq<char>, Seq<Seq<char>>) {
    match step {
        GitStep::Stage => ("add"@, seq!["."@]),
        GitStep::RebasePull => ("pull"@, seq!["--rebase"@, "--autostash"@]),
        GitStep::Commit => ("commit"@, seq!["-m"@, message]),
        GitStep::Push => ("push"@, Seq::empty()),
    }
}

/// The step that follows `step`, or `None` after the push.
pub fn next_step(step: GitStep) -> (r: Option<GitStep>)
    ensures
        r == step_after(step),
{
    match step {
        GitStep::Stage => Some(GitStep::RebasePull),
        GitStep::RebasePull => Some(GitStep::Commit),
        GitStep::Commit => Some(GitStep::Push),
        GitStep::Push => None,
    }
}

/// Shows the state of the working tree in short form.
pub fn status(verbose: bool) -> (r: GitInvocation)
    ensures
        r.command_view() == "status"@,
        r.args_view() == seq!["--short"@],
        r.verbose == verbose,
{
    let r = GitInvocation { command: "status".to_owned(), args: vec!["--short".to_owned()], verbose };
    assert(r.args_view() =~= seq!["--short"@]);
    r
}

/// Pulls the latest upstream changes, replaying local commits on top and
/// setting uncommitted changes aside meanwhile.
pub fn pull_latest_with_rebase(verbose: bool) -> (r: GitInvocation)
    ensures
        (r.command_view(), r.args_view()) == step_call(GitStep::RebasePull, Seq::empty()),
        r.verbose == verbose,
{
    let r = GitInvocation {
        command: "pull".to_owned(),
        args: vec!["--rebase".to_owned(), "--autostash".to_owned()],
        verbose,
    };
    assert(r.args_view() =~= seq!["--rebase"@, "--autostash"@]);
    r
}

/// Stages every change in the working tree.
pub fn add_all(verbose: bool) -> (r: GitInvocation)
    ensures
        (r.command_view(), r.args_view()) == step_call(GitStep::Stage, Seq::empty()),
        r.verbose == verbose,
{
    let r = GitInvocation { command: "add".to_owned(), args: vec![".".to_owned()], verbose };
    assert(r.args_view() =~= seq!["."@]);
    r
}

/// Commits what is staged with `message`.
pub fn commit(message: &str, verbose: bool) -> (r: GitInvocation)
    ensures
        (r.command_view(), r.args_view()) == step_call(GitStep::Commit, message@),
        r.verbose == verbose,
{
    let r = GitInvocation {
        command: "commit".to_owned(),
        args: vec!["-m".to_owned(), message.to_owned()],
        verbose,
    };
    assert(r.args_view() =~= seq!["-m"@, message@]);
    r
}

/// Pushes to the remote.
pub fn push(verbose: bool) -> (r: GitInvocation)
    ensures
        (r.command_view(), r.args_view()) == step_call(GitStep::Push, Seq::empty()),
        r.verbose == verbose,
{
    let r = GitInvocation { command: "push".to_owned(), args: Vec::new(), verbose };
    assert(r.args_view() =~= Seq::<Seq<char>>::empty());
    r
}

/// The invocation that carries out `step`.
pub fn step_invocation(step: GitStep, message: &str, verbose: bool) -> (r: GitInvocation)
    ensures
        (r.command_view(), r.args_view()) == step_call(step, message@),
        r.verbose == verbose,
{
    match step {
        GitStep::Stage => add_all(verbose),
        GitStep::RebasePull => pull_latest_with_rebase(verbose),
        GitStep::Commit => commit(message, verbose),
        GitStep::Push => push(verbose),
    }
}

/// What `str::trim` returns for `s`.
pub uninterp spec fn trimmed(s: Seq<char>) -> Seq<char>;

/// Relies on `str::trim`: the text without its leading and trailing
/// whitespace, which depends on the characters alone.
#[verifier::external_body]
fn trim_text(s: &str) -> (r: String)
    ensures
        r@ == trimmed(s@),
{
    s.trim().to_string()
}

/// The outcome of a finished invocation: its trimmed stdout when it
/// succeeded, else a failure carrying its trimmed stderr.
pub fn outcome(success: bool, stdout: &str, stderr: &str) -> (r: Result<String, GitError>)
    ensures
        success ==> r is Ok && r->Ok_0@ == trimmed(stdout@),
        !success ==> r is Err && r->Err_0.text_view() == trimmed(stderr@),
{
    if success {
        Ok(trim_text(stdout))
    } else {
        Err(GitError::Git(trim_text(stderr)))
    }
}

} // verus!
