//! Discovery and launch of Jupyter-protocol kernels.
//!
//! Discovery finds the kernels that are installed on a machine. A kernel is a
//! directory that holds a `kernel.json`. `discovery` reads one such directory
//! or scans a directory of them, and says what there is to find on a
//! filesystem; `registry` gathers the kernels of all the places where kernels
//! are installed. `descriptor` holds the format of `kernel.json`.
//!
//! Launch starts a kernel. `ports` finds free ports for its channels,
//! `connection` makes the connection it is told to open, and `kernelspecs`
//! builds its command line.
//!
//! Nothing here touches a disk, a socket or a process. A function that needs
//! the outside world takes a function of the caller to stand for it: one that
//! answers for the filesystem, or one that binds a listener. A caller that
//! cannot wait inside such a function takes the work in steps instead.
//! `reader`, `scanner`, `ports` and `connection` each hand out a step, which
//! is a question to take to the filesystem or a listener to bind; the caller
//! does what the step asks, calls `resume` with the answer, and gets the next
//! step, until the last one holds the outcome.

pub mod connection;
pub mod descriptor;
pub mod discovery;
pub mod filesystem;
pub mod json;
pub mod kernelspecs;
pub mod paths;
pub mod ports;
pub mod prompt_command;
pub mod reader;
pub mod registry;
pub mod scanner;
pub mod views;
