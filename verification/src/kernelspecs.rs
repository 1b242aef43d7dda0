//! Kernel specifications and the command line that launches a kernel.

use crate::paths::final_segment;
use crate::views::result_view;
use vstd::prelude::*;
use vstd::string::*;

verus! {

/// The launch descriptor of a kernel: what its `kernel.json` declares.
#[derive(Clone, Debug, PartialEq, Eq)]
pub struct JupyterKernelspec {
    /// The command line, in which one token stands for the connection file.
    pub argv: Vec<String>,
    pub display_name: String,
    pub language: String,
    /// Variables to add to the environment of the kernel process, each with
    /// its name and its value. A descriptor that was read from a file names
    /// each variable once.
    pub env: Option<Vec<(String, String)>>,
}

/// A kernel descriptor as a mathematical value.
pub struct KernelspecView {
    pub argv: Seq<Seq<char>>,
    pub display_name: Seq<char>,
    pub language: Seq<char>,
    pub env: Option<Seq<(Seq<char>, Seq<char>)>>,
}

/// Whether no two of the pairs go by one name.
pub open spec fn distinct_names(pairs: Seq<(Seq<char>, Seq<char>)>) -> bool {
    forall|i: int, j: int|
        #![trigger pairs[i], pairs[j]]
        0 <= i < j < pairs.len() ==> pairs[i].0 != pairs[j].0
}

impl KernelspecView {
    /// The environment names each variable once.
    pub open spec fn wf(self) -> bool {
        self.env matches Some(env) ==> distinct_names(env)
    }
}

impl View for JupyterKernelspec {
    type V = KernelspecView;

    open spec fn view(&self) -> KernelspecView {
        KernelspecView {
            argv: self.argv.deep_view(),
            display_name: self.display_name@,
            language: self.language@,
            env: self.env.deep_view(),
        }
    }
}

/// A kernel that was found on disk: its descriptor, the directory that holds
/// it, and the name it goes by, which is the directory's own name.
#[derive(Clone, Debug, PartialEq, Eq)]
pub struct Runtime {
    pub name: String,
    pub path: String,
    pub spec: JupyterKernelspec,
}

/// A discovered kernel as a mathematical value.
pub struct RuntimeView {
    pub name: Seq<char>,
    pub path: Seq<char>,
    pub spec: KernelspecView,
}

impl RuntimeView {
    /// The kernel goes by the final segment of its directory, and its
    /// environment names each variable once.
    pub open spec fn wf(self) -> bool {
        final_segment(self.path) == Some(self.name) && self.spec.wf()
    }
}

impl View for Runtime {
    type V = RuntimeView;

    open spec fn view(&self) -> RuntimeView {
        RuntimeView { name: self.name@, path: self.path@, spec: self.spec@ }
    }
}

/// Why a kernel descriptor cannot be turned into a command line.
#[derive(Clone, Copy, Debug, PartialEq, Eq, Structural)]
pub enum LaunchError {
    EmptyArgv,
    InvalidArgv,
    MissingConnectionFilePlaceholder,
}

impl LaunchError {
    /// What this error says of the kernel called `kernel_name`.
    pub open spec fn text(self, kernel_name: Seq<char>) -> Seq<char> {
        match self {
            LaunchError::EmptyArgv => "Empty argv in kernelspec "@ + kernel_name,
            LaunchError::InvalidArgv => "Invalid argv in kernelspec "@ + kernel_name,
            LaunchError::MissingConnectionFilePlaceholder =>
                "Missing 'connection_file' in argv in kernelspec "@ + kernel_name,
        }
    }

    /// The words to show to the user who chose the kernel called
    /// `kernel_name`.
    pub fn message(&self, kernel_name: &str) -> (message: String)
        ensures
            message@ == self.text(kernel_name@),
    {
        let mut message = match self {
            LaunchError::EmptyArgv => String::from_str("Empty argv in kernelspec "),
            LaunchError::InvalidArgv => String::from_str("Invalid argv in kernelspec "),
            LaunchError::MissingConnectionFilePlaceholder => String::from_str(
                "Missing 'connection_file' in argv in kernelspec ",
            ),
        };
        message.append(kernel_name);
        message
    }
}

/// A command line ready to be spawned: the program, its arguments, and the
/// variables to add to the environment that the child inherits.
#[derive(Clone, Debug, PartialEq, Eq)]
pub struct LaunchCommand {
    pub program: String,
    pub args: Vec<String>,
    pub envs: Vec<(String, String)>,
}

/// A command line as a mathematical value.
pub struct LaunchCommandView {
    pub program: Seq<char>,
    pub args: Seq<Seq<char>>,
    pub envs: Seq<(Seq<char>, Seq<char>)>,
}

impl View for LaunchCommand {
    type V = LaunchCommandView;

    open spec fn view(&self) -> LaunchCommandView {
        LaunchCommandView {
            program: self.program@,
            args: self.args.deep_view(),
            envs: self.envs.deep_view(),
        }
    }
}

/// The token of `argv` that stands for the path of the connection file.
pub open spec fn connection_file_placeholder() -> Seq<char> {
    "{connection_file}"@
}

/// An argument as the kernel process receives it: the connection file's path
/// in place of the placeholder, any other token as it is.
pub open spec fn substituted(token: Seq<char>, connection_path: Seq<char>) -> Seq<char> {
    if token == connection_file_placeholder() {
        connection_path
    } else {
        token
    }
}

/// The command line that a descriptor stands for, or the reason it has none.
pub open spec fn launch_plan(spec: KernelspecView, connection_path: Seq<char>) -> Result<
    LaunchCommandView,
    LaunchError,
> {
    if spec.argv.len() == 0 {
        Err(LaunchError::EmptyArgv)
    } else if spec.argv.len() < 2 {
        Err(LaunchError::InvalidArgv)
    } else if !spec.argv.contains(connection_file_placeholder()) {
        Err(LaunchError::MissingConnectionFilePlaceholder)
    } else {
        Ok(
            LaunchCommandView {
                program: spec.argv[0],
                args: Seq::new(
                    (spec.argv.len() - 1) as nat,
                    |i: int| substituted(spec.argv[i + 1], connection_path),
                ),
                envs: match spec.env {
                    Some(env) => env,
                    None => Seq::empty(),
                },
            },
        )
    }
}

/// Whether some token of `argv` is the placeholder.
fn has_placeholder(argv: &Vec<String>) -> (found: bool)
    ensures
        found == argv.deep_view().contains(connection_file_placeholder()),
{
    let placeholder = String::from_str("{connection_file}");
    let mut i: usize = 0;
    while i < argv.len()
        invariant
            i <= argv.len(),
            placeholder@ == connection_file_placeholder(),
            forall|k: int| 0 <= k < i ==> argv.deep_view()[k] != connection_file_placeholder(),
        decreases argv.len() - i,
    {
        if argv[i] == placeholder {
            assert(argv.deep_view()[i as int] == connection_file_placeholder());
            return true;
        }
        i += 1;
    }
    false
}

fn clone_pairs(pairs: &Vec<(String, String)>) -> (copy: Vec<(String, String)>)
    ensures
        copy.deep_view() == pairs.deep_view(),
{
    let mut copy: Vec<(String, String)> = Vec::new();
    let mut i: usize = 0;
    while i < pairs.len()
        invariant
            i <= pairs.len(),
            copy.len() == i,
            forall|k: int| 0 <= k < i ==> copy.deep_view()[k] == pairs.deep_view()[k],
        decreases pairs.len() - i,
    {
        let pair = (pairs[i].0.clone(), pairs[i].1.clone());
        copy.push(pair);
        i += 1;
    }
    copy
}

impl Runtime {
    /// Builds the command line that starts this kernel with its connection
    /// file at `connection_path`.
    ///
    /// The program is the first token of `argv`. Every later token becomes
    /// one argument, the placeholder replaced by `connection_path` wherever it
    /// occurs. The descriptor's environment, if it has one, is handed on.
    pub fn command(&self, connection_path: &str) -> (result: Result<LaunchCommand, LaunchError>)
        ensures
            result_view(result) == launch_plan(self@.spec, connection_path@),
            result matches Err(LaunchError::EmptyArgv) <==> self@.spec.argv.len() == 0,
            result matches Err(LaunchError::InvalidArgv) <==> self@.spec.argv.len() == 1,
            result matches Err(LaunchError::MissingConnectionFilePlaceholder)
                <==> self@.spec.argv.len() >= 2 && !self@.spec.argv.contains(
                connection_file_placeholder(),
            ),
            result is Ok <==> self@.spec.argv.len() >= 2 && self@.spec.argv.contains(
                connection_file_placeholder(),
            ),
    {
        let argv = &self.spec.argv;
        if argv.len() == 0 {
            return Err(LaunchError::EmptyArgv);
        }
        if argv.len() < 2 {
            return Err(LaunchError::InvalidArgv);
        }
        if !has_placeholder(argv) {
            return Err(LaunchError::MissingConnectionFilePlaceholder);
        }
        let placeholder = String::from_str("{connection_file}");
        let program = argv[0].clone();
        let mut args: Vec<String> = Vec::new();
        let mut i: usize = 1;
        while i < argv.len()
            invariant
                1 <= i <= argv.len(),
                args.len() == i - 1,
                placeholder@ == connection_file_placeholder(),
                forall|k: int|
                    0 <= k < i - 1 ==> #[trigger] args@[k]@ == substituted(
                        argv@[k + 1]@,
                        connection_path@,
                    ),
            decreases argv.len() - i,
        {
            if argv[i] == placeholder {
                args.push(String::from_str(connection_path));
            } else {
                args.push(argv[i].clone());
            }
            i += 1;
        }
        let envs = match &self.spec.env {
            Some(env) => clone_pairs(env),
            None => Vec::new(),
        };
        let command = LaunchCommand { program, args, envs };
        proof {
            let plan = launch_plan(self@.spec, connection_path@);
            assert(command@.args =~= plan->Ok_0.args);
            assert(command@.envs =~= plan->Ok_0.envs);
        }
        Ok(command)
    }
}

} // verus!
