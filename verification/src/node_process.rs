//! The life of the renderer process, as far as it is decided here: the
//! command that starts it, the failures of a start, and the order of a
//! shutdown. Spawning and killing the process is the caller's part.
use crate::error::NodeJsError;
use crate::text::{decimal, push_decimal};
use crate::url::ServerUrl;
use vstd::prelude::*;

verus! {

/// The program that runs the renderer.
pub const NODE: &'static str = "node";

/// The port that the renderer is told where its address names none.
pub const DEFAULT_PORT: u16 = 10000;

/// A command: the program and its arguments, in order.
#[derive(Debug, Clone, PartialEq, Eq)]
pub struct NodeCommand {
    pub program: String,
    pub args: Vec<String>,
}

impl NodeCommand {
    /// The arguments as texts.
    pub open spec fn arguments(&self) -> Seq<Seq<char>> {
        self.args@.map_values(|arg: String| arg@)
    }
}

/// What is known of the script when the renderer is to be started.
pub struct ScriptPath {
    /// The path as given.
    pub given: String,
    /// Whether a file exists at the path.
    pub exists: bool,
    /// The path as text, where it is valid text.
    pub text: Option<String>,
}

/// A renderer process that has been started: where it listens.
#[derive(Debug, Clone, PartialEq, Eq)]
pub struct NodeJsProc {
    server: String,
}

/// The port that the renderer is told.
pub open spec fn port_argument(server_url: ServerUrl) -> Seq<char> {
    decimal(
        (match server_url.port() {
            Some(port) => port,
            None => DEFAULT_PORT,
        }) as nat,
    )
}

/// The description of the failure for a script that does not exist.
pub open spec fn script_not_found(given: Seq<char>) -> Seq<char> {
    "Server javascript file not found in "@ + given + "."@
}

/// The description of the failure for a process that did not start.
pub open spec fn spawn_failure(reason: Seq<char>) -> Seq<char> {
    "Something went wrong on invoking a node server: "@ + reason
}

impl NodeJsProc {
    /// The address of the renderer, as text.
    pub closed spec fn server(&self) -> Seq<char> {
        self.server@
    }

    /// Whether `command` is what `start` gives for the script and the
    /// address: the command `node <script> --port <port>` for a script
    /// that exists and whose path is text, else a failure with the cause
    /// `Invalid path`.
    pub open spec fn starts(
        path: ScriptPath,
        server_url: ServerUrl,
        command: Result<NodeCommand, NodeJsError>,
    ) -> bool {
        match command {
            Ok(command) => {
                &&& path.exists
                &&& path.text matches Some(text)
                &&& command.program@ == NODE@
                &&& command.arguments() == seq![text@, "--port"@, port_argument(server_url)]
            },
            Err(err) => {
                &&& !path.exists || path.text is None
                &&& err.cause() == "Invalid path"@
                &&& err.description() == (if !path.exists {
                    script_not_found(path.given@)
                } else {
                    "The given path contains invalid UTF-8 characters."@
                })
            },
        }
    }

    /// The command that starts the renderer for the script at `path`,
    /// listening where `server_url` says.
    ///
    /// Fails with the cause `Invalid path` where no file exists at the
    /// path, and where the path is not valid text.
    pub fn start(path: &ScriptPath, server_url: &ServerUrl) -> (command: Result<
        NodeCommand,
        NodeJsError,
    >)
        ensures
            Self::starts(*path, *server_url, command),
    {
        if !path.exists {
            let mut description = String::from_str("Server javascript file not found in ");
            description.append(path.given.as_str());
            description.append(".");
            return Err(NodeJsError::new(String::from_str("Invalid path"), description));
        }
        let string_path = match &path.text {
            None => {
                return Err(
                    NodeJsError::new(
                        String::from_str("Invalid path"),
                        String::from_str("The given path contains invalid UTF-8 characters."),
                    ),
                );
            },
            Some(text) => text,
        };
        let port = match server_url.get_port() {
            Some(port) => port,
            None => DEFAULT_PORT,
        };
        let mut port_text = String::new();
        push_decimal(&mut port_text, port as u64);
        let mut args: Vec<String> = Vec::new();
        args.push(string_path.clone());
        args.push(String::from_str("--port"));
        args.push(port_text);
        let command = NodeCommand { program: String::from_str(NODE), args };
        assert(command.arguments() == seq![string_path@, "--port"@, port_argument(*server_url)]);
        Ok(command)
    }

    /// The failure for a process that did not start, with the reason that
    /// the system gave.
    pub fn spawn_failed(reason: &str) -> (err: NodeJsError)
        ensures
            err.cause() == "Process error"@,
            err.description() == spawn_failure(reason@),
    {
        let mut description = String::from_str("Something went wrong on invoking a node server: ");
        description.append(reason);
        NodeJsError::new(String::from_str("Process error"), description)
    }

    /// The handle of a renderer that was started to listen at
    /// `server_url`.
    pub fn started(server_url: &ServerUrl) -> (process: Self)
        ensures
            process.server() == server_url.href(),
    {
        NodeJsProc { server: String::from_str(server_url.as_str()) }
    }

    /// Begins the shutdown of the renderer: it is asked, at the shutdown
    /// path of its address, to end by itself. The handle is used up.
    pub fn kill(self) -> (step: KillStep)
        ensures
            step matches KillStep::RequestShutdown { url } && url@ == self.server() + "/shutdown"@,
    {
        let mut url = self.server;
        url.append("/shutdown");
        KillStep::RequestShutdown { url }
    }
}

/// A step of the shutdown of the renderer.
#[derive(Debug, Clone, PartialEq, Eq)]
pub enum KillStep {
    /// Ask the renderer at `url` to shut down, and report whether the
    /// request went through.
    RequestShutdown { url: String },
    /// Kill the process.
    ForceKill,
    /// Nothing is left to do.
    Done,
}

impl KillStep {
    /// The step that follows, given whether the work of this step
    /// succeeded.
    pub open spec fn following(self, succeeded: bool) -> KillStep {
        match self {
            KillStep::RequestShutdown { .. } => if succeeded {
                KillStep::Done
            } else {
                KillStep::ForceKill
            },
            KillStep::ForceKill => KillStep::Done,
            KillStep::Done => KillStep::Done,
        }
    }

    /// The step that follows this one. A renderer that could not be asked
    /// to shut down is killed; whether the kill succeeded makes no
    /// difference, and the shutdown is over after it.
    pub fn next(self, succeeded: bool) -> (step: KillStep)
        ensures
            step == self.following(succeeded),
    {
        match self {
            KillStep::RequestShutdown { .. } => if succeeded {
                KillStep::Done
            } else {
                KillStep::ForceKill
            },
            KillStep::ForceKill => KillStep::Done,
            KillStep::Done => KillStep::Done,
        }
    }
}

} // verus!
