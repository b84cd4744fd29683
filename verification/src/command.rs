//! External actions and their outcomes. Nothing here performs an action: an
//! action is a value that says what the host is asked to do, and an outcome is
//! the value that the host hands back.
use vstd::prelude::*;
use crate::text::{chain, chain3, join, joined, lemma_views_push, same, view_opt, views};

verus! {

/// An external program with its arguments, working directory and input.
#[derive(Debug, PartialEq, Eq)]
pub struct Command {
    pub program: String,
    pub args: Vec<String>,
    pub dir: Option<String>,
    pub stdin: Option<String>,
}

/// What a command is, as plain text.
pub struct CommandView {
    pub program: Seq<char>,
    pub args: Seq<Seq<char>>,
    pub dir: Option<Seq<char>>,
    pub stdin: Option<Seq<char>>,
}

impl View for Command {
    type V = CommandView;

    open spec fn view(&self) -> CommandView {
        CommandView {
            program: self.program@,
            args: views(self.args@),
            dir: view_opt(self.dir),
            stdin: view_opt(self.stdin),
        }
    }
}

impl CommandView {
    /// The program alone.
    pub open spec fn new(program: Seq<char>) -> CommandView {
        CommandView { program, args: Seq::empty(), dir: None, stdin: None }
    }

    /// With one more argument at the end.
    pub open spec fn arg(self, value: Seq<char>) -> CommandView {
        CommandView { args: self.args.push(value), ..self }
    }

    /// With more arguments at the end.
    pub open spec fn args(self, values: Seq<Seq<char>>) -> CommandView {
        CommandView { args: self.args + values, ..self }
    }

    /// Run from the directory `dir`.
    pub open spec fn in_dir(self, dir: Seq<char>) -> CommandView {
        CommandView { dir: Some(dir), ..self }
    }

    /// Fed `text` on standard input.
    pub open spec fn with_stdin(self, text: Seq<char>) -> CommandView {
        CommandView { stdin: Some(text), ..self }
    }

    /// The program that does the work: the program itself, or the one it
    /// is asked to start with more rights.
    pub open spec fn worker(self) -> Seq<char> {
        if self.program == "sudo"@ && self.args.len() > 0 {
            self.args[0]
        } else {
            self.program
        }
    }

    /// Whether the command writes to the database of installed packages.
    /// Such commands must not run side by side.
    pub open spec fn uses_package_database(self) -> bool {
        self.worker() == "pacman"@ || self.worker() == "pacstrap"@ || self.worker() == "makepkg"@
    }

    /// The command line as shown in diagnostics: the program and its
    /// arguments, separated by single spaces. The input is never part of it.
    pub open spec fn line(self) -> Seq<char> {
        if self.args.len() == 0 {
            self.program
        } else {
            self.program + " "@ + joined(self.args, " "@)
        }
    }
}

impl Command {
    /// The program alone, run from the caller's directory without input.
    pub fn new(program: &str) -> (r: Command)
        ensures
            r@ == CommandView::new(program@),
    {
        let r = Command { program: String::from_str(program), args: Vec::new(), dir: None, stdin: None };
        proof {
            assert(views(r.args@) =~= Seq::<Seq<char>>::empty());
        }
        r
    }

    /// Adds one argument.
    pub fn arg(self, value: &str) -> (r: Command)
        ensures
            r@ == self@.arg(value@),
    {
        let mut r = self;
        let ghost before = r.args@;
        let owned = String::from_str(value);
        r.args.push(owned);
        proof {
            lemma_views_push(before, owned);
        }
        r
    }

    /// Sets the working directory.
    pub fn in_dir(self, dir: &str) -> (r: Command)
        ensures
            r@ == self@.in_dir(dir@),
    {
        Command { program: self.program, args: self.args, dir: Some(String::from_str(dir)), stdin: self.stdin }
    }

    /// Sets the text fed on standard input.
    pub fn with_stdin(self, text: &str) -> (r: Command)
        ensures
            r@ == self@.with_stdin(text@),
    {
        Command { program: self.program, args: self.args, dir: self.dir, stdin: Some(String::from_str(text)) }
    }

    /// Whether the command writes to the database of installed packages:
    /// whether it is, or starts with more rights, the package manager or a
    /// tool that runs it. The host has to run such commands one at a time.
    pub fn uses_package_database(&self) -> (r: bool)
        ensures
            r == self@.uses_package_database(),
    {
        let worker = if same(self.program.as_str(), "sudo") && self.args.len() > 0 {
            self.args[0].as_str()
        } else {
            self.program.as_str()
        };
        same(worker, "pacman") || same(worker, "pacstrap") || same(worker, "makepkg")
    }

    /// The command line for diagnostics.
    pub fn line(&self) -> (r: String)
        ensures
            r@ == self@.line(),
    {
        if self.args.len() == 0 {
            self.program.clone()
        } else {
            let rest = join(&self.args, " ");
            chain3(self.program.as_str(), " ", rest.as_str())
        }
    }
}

/// Something the host is asked to do.
#[derive(Debug, PartialEq, Eq)]
pub enum Action {
    /// Run a program and wait for it.
    Run(Command),
    /// Replace the content of a file.
    WriteFile { path: String, content: String },
    /// Create a directory and its missing parents.
    CreateDir { path: String },
    /// Copy a file.
    CopyFile { from: String, to: String },
    /// Create a symbolic link at `link` that points to `target`.
    Symlink { target: String, link: String },
}

/// What an action is, as plain text.
pub enum ActionView {
    Run(CommandView),
    WriteFile { path: Seq<char>, content: Seq<char> },
    CreateDir { path: Seq<char> },
    CopyFile { from: Seq<char>, to: Seq<char> },
    Symlink { target: Seq<char>, link: Seq<char> },
}

impl View for Action {
    type V = ActionView;

    open spec fn view(&self) -> ActionView {
        match *self {
            Action::Run(command) => ActionView::Run(command@),
            Action::WriteFile { path, content } => ActionView::WriteFile { path: path@, content: content@ },
            Action::CreateDir { path } => ActionView::CreateDir { path: path@ },
            Action::CopyFile { from, to } => ActionView::CopyFile { from: from@, to: to@ },
            Action::Symlink { target, link } => ActionView::Symlink { target: target@, link: link@ },
        }
    }
}

impl ActionView {
    /// One line that names the action in diagnostics. For a program it is its
    /// command line; the content of a written file is never part of it.
    pub open spec fn describe(self) -> Seq<char> {
        match self {
            ActionView::Run(command) => command.line(),
            ActionView::WriteFile { path, content } => "write "@ + path,
            ActionView::CreateDir { path } => "mkdir "@ + path,
            ActionView::CopyFile { from, to } => "copy "@ + from + " "@ + to,
            ActionView::Symlink { target, link } => "link "@ + target + " "@ + link,
        }
    }

    /// Whether the action writes to the database of installed packages.
    pub open spec fn uses_package_database(self) -> bool {
        self matches ActionView::Run(command) && command.uses_package_database()
    }

    /// The program that the action needs, or its description where it needs none.
    pub open spec fn tool(self) -> Seq<char> {
        match self {
            ActionView::Run(command) => command.program,
            _ => self.describe(),
        }
    }
}

impl Action {
    /// Writes `content` to the file at `path`.
    pub fn write_file(path: &str, content: &str) -> (r: Action)
        ensures
            r@ == (ActionView::WriteFile { path: path@, content: content@ }),
    {
        Action::WriteFile { path: String::from_str(path), content: String::from_str(content) }
    }

    /// Creates the directory at `path`.
    pub fn create_dir(path: &str) -> (r: Action)
        ensures
            r@ == (ActionView::CreateDir { path: path@ }),
    {
        Action::CreateDir { path: String::from_str(path) }
    }

    /// Copies the file at `from` to `to`.
    pub fn copy_file(from: &str, to: &str) -> (r: Action)
        ensures
            r@ == (ActionView::CopyFile { from: from@, to: to@ }),
    {
        Action::CopyFile { from: String::from_str(from), to: String::from_str(to) }
    }

    /// Links `link` to `target`.
    pub fn symlink(target: &str, link: &str) -> (r: Action)
        ensures
            r@ == (ActionView::Symlink { target: target@, link: link@ }),
    {
        Action::Symlink { target: String::from_str(target), link: String::from_str(link) }
    }

    /// The line that names this action in diagnostics.
    pub fn describe(&self) -> (r: String)
        ensures
            r@ == self@.describe(),
    {
        match self {
            Action::Run(command) => command.line(),
            Action::WriteFile { path, content: _ } => chain("write ", path.as_str()),
            Action::CreateDir { path } => chain("mkdir ", path.as_str()),
            Action::CopyFile { from, to } => {
                let mut r = chain3("copy ", from.as_str(), " ");
                r.append(to.as_str());
                r
            },
            Action::Symlink { target, link } => {
                let mut r = chain3("link ", target.as_str(), " ");
                r.append(link.as_str());
                r
            },
        }
    }

    /// Whether the action writes to the database of installed packages, so
    /// that the host has to keep it apart from every other such action.
    pub fn uses_package_database(&self) -> (r: bool)
        ensures
            r == self@.uses_package_database(),
    {
        match self {
            Action::Run(command) => command.uses_package_database(),
            _ => false,
        }
    }

    /// The program that this action needs, or its description where it needs none.
    pub fn tool(&self) -> (r: String)
        ensures
            r@ == self@.tool(),
    {
        match self {
            Action::Run(command) => command.program.clone(),
            _ => self.describe(),
        }
    }
}

/// What the host reports of an action that it was asked to perform.
#[derive(Debug, PartialEq, Eq)]
pub enum Outcome {
    /// The action ran to its end with this exit status and captured output.
    /// A file operation reports status zero on success.
    Exited { status: i32, output: String },
    /// The program could not be found, so nothing ran.
    Missing,
}

/// An outcome as plain values.
pub enum OutcomeView {
    Exited { status: int, output: Seq<char> },
    Missing,
}

impl View for Outcome {
    type V = OutcomeView;

    open spec fn view(&self) -> OutcomeView {
        match *self {
            Outcome::Exited { status, output } => OutcomeView::Exited { status: status as int, output: output@ },
            Outcome::Missing => OutcomeView::Missing,
        }
    }
}

impl OutcomeView {
    /// The action ran and reported success.
    pub open spec fn succeeded(self) -> bool {
        self matches OutcomeView::Exited { status, .. } && status == 0
    }
}

impl Outcome {
    /// A successful run without output.
    pub fn success() -> (r: Outcome)
        ensures
            r@ == (OutcomeView::Exited { status: 0, output: Seq::empty() }),
    {
        Outcome::Exited { status: 0, output: String::new() }
    }

    /// A run that ended with `status` and printed `output`.
    pub fn exited(status: i32, output: &str) -> (r: Outcome)
        ensures
            r@ == (OutcomeView::Exited { status: status as int, output: output@ }),
    {
        Outcome::Exited { status, output: String::from_str(output) }
    }

    /// Whether the action ran and reported success.
    pub fn succeeded(&self) -> (r: bool)
        ensures
            r == self@.succeeded(),
    {
        match self {
            Outcome::Exited { status, output: _ } => *status == 0,
            Outcome::Missing => false,
        }
    }
}

} // verus!
