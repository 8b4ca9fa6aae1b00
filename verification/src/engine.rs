//! The container engines a target can drive, and the rules by which it picks
//! one and reads its answers.
//!
//! Talking to an engine (opening its socket, running its binary) is left to
//! the caller. This module says what to ask for and what an answer means.

use crate::message::{Message, MessageView};
use vstd::prelude::*;

verus! {

/// The container engine to use.
#[allow(missing_docs)]
#[derive(Clone, Copy, Debug, PartialEq, Eq, Structural)]
pub enum ContainerEngine {
    Docker,
    Podman,
}

/// Errors arising from container engine communication.
#[derive(Clone, Copy, Debug, PartialEq, Eq, Structural)]
pub enum ContainerError {
    /// Something's gone wrong either while dialing the socket or while
    /// sending information to it.
    SocketError,
    /// The container engine is unreachable - for example, missing Podman
    /// command, etc.
    EngineUnreachable,
    /// The resource that the caller requested could not be found.
    ResourceNotFound,
    /// Some other error.
    Unknown,
}

impl ContainerError {
    /// The text shown for this error.
    pub open spec fn spec_description(self) -> Seq<char> {
        match self {
            ContainerError::SocketError => "failed to connect to socket"@,
            ContainerError::EngineUnreachable => "the container engine couldn't be reached"@,
            ContainerError::ResourceNotFound => "requested resource was not found"@,
            ContainerError::Unknown => "unknown engine error"@,
        }
    }

    /// A short description of this error, for display.
    pub fn description(&self) -> (text: &'static str)
        ensures
            text@ == self.spec_description(),
    {
        match self {
            ContainerError::SocketError => "failed to connect to socket",
            ContainerError::EngineUnreachable => "the container engine couldn't be reached",
            ContainerError::ResourceNotFound => "requested resource was not found",
            ContainerError::Unknown => "unknown engine error",
        }
    }
}

/// The exit status with which a shell reports that it did not find the
/// command.
pub const CMD_NOT_FOUND_STATUS: i32 = 127;

/// The HTTP status with which Docker reports that it knows no such container.
pub const HTTP_NOT_FOUND: u16 = 404;

/// Where the Docker daemon listens.
pub const DOCKER_SOCKET_PATH: &'static str = "/var/run/docker.sock";

/// Where the Podman binary is installed.
pub const PODMAN_BIN_PATH: &'static str = "/usr/bin/podman";

/// What a target can do to a container.
#[derive(Clone, Copy, Debug, PartialEq, Eq, Structural)]
pub enum Action {
    /// Start the container.
    Start,
    /// Stop the container.
    Stop,
}

impl Action {
    /// The word for this action, in a Docker path as in a Podman command line.
    pub open spec fn spec_verb(self) -> Seq<char> {
        match self {
            Action::Start => "start"@,
            Action::Stop => "stop"@,
        }
    }

    /// The word for this action, in a Docker path as in a Podman command line.
    pub fn verb(&self) -> (word: &'static str)
        ensures
            word@ == self.spec_verb(),
    {
        match self {
            Action::Start => "start",
            Action::Stop => "stop",
        }
    }
}

/// What a message asks of the container engine: the action, and the
/// container to carry it out on. A start message asks to start the resource
/// that it names.
pub fn request_of(message: &Message) -> (request: (Action, &str))
    ensures
        match message@ {
            MessageView::StartMessage { resource_name } => request.0 == Action::Start
                && request.1@ == resource_name,
        },
{
    match message {
        Message::StartMessage { resource_name } => (Action::Start, resource_name.as_str()),
    }
}

/// How a command ended, as far as the rules here look at it.
#[derive(Clone, Copy, Debug, PartialEq, Eq, Structural)]
pub struct ExitReport {
    /// Whether the command reported success.
    pub success: bool,
    /// The exit code, if the command exited by itself.
    pub code: Option<i32>,
}

/// Whether a command ran and reported success. `run` is `None` where it could
/// not be run at all.
pub open spec fn succeeded(run: Option<ExitReport>) -> bool {
    run matches Some(report) && report.success
}

/// Whether a command ran and exited by itself with a code other than
/// [`CMD_NOT_FOUND_STATUS`]: the sign that the binary is there.
pub open spec fn answered(run: Option<ExitReport>) -> bool {
    run matches Some(report) && report.code matches Some(code) && code != CMD_NOT_FOUND_STATUS
}

/// A step in the detection of the engine that is installed on a target.
#[derive(Clone, Copy, Debug, PartialEq, Eq, Structural)]
pub enum Detection {
    /// Try to open the Docker socket, and report with
    /// [`Detection::after_docker_probe`].
    ProbeDocker,
    /// Run the Podman binary without arguments, and report with
    /// [`Detection::after_podman_probe`].
    ProbePodman,
    /// Detection is over, with this engine or with none.
    Finished(Option<ContainerEngine>),
}

impl Detection {
    /// Detection begins with Docker.
    pub fn start() -> (first: Detection)
        ensures
            first == Detection::ProbeDocker,
    {
        Detection::ProbeDocker
    }

    /// A Docker socket that opens settles the matter; without one, Podman is
    /// tried next.
    pub fn after_docker_probe(socket_opened: bool) -> (next: Detection)
        ensures
            socket_opened ==> next == Detection::Finished(Some(ContainerEngine::Docker)),
            !socket_opened ==> next == Detection::ProbePodman,
    {
        if socket_opened {
            Detection::Finished(Some(ContainerEngine::Docker))
        } else {
            Detection::ProbePodman
        }
    }

    /// Podman is there if its binary ran and exited with any code but
    /// [`CMD_NOT_FOUND_STATUS`]. `run` is `None` where the binary could not be
    /// run at all.
    pub fn after_podman_probe(run: Option<ExitReport>) -> (next: Detection)
        ensures
            answered(run) ==> next == Detection::Finished(Some(ContainerEngine::Podman)),
            !answered(run) ==> next == Detection::Finished(None),
    {
        match run {
            Some(report) => match report.code {
                Some(code) => if code != CMD_NOT_FOUND_STATUS {
                    Detection::Finished(Some(ContainerEngine::Podman))
                } else {
                    Detection::Finished(None)
                },
                None => Detection::Finished(None),
            },
            None => Detection::Finished(None),
        }
    }
}

/// The address at which Docker takes the request to carry out `action` on the
/// container `resource_id`.
pub fn docker_uri(action: Action, resource_id: &str) -> (uri: String)
    ensures
        uri@ == DOCKER_SOCKET_PATH@ + "/containers/"@ + resource_id@ + "/"@ + action.spec_verb(),
{
    let mut uri = DOCKER_SOCKET_PATH.to_owned();
    uri.append("/containers/");
    uri.append(resource_id);
    uri.append("/");
    uri.append(action.verb());
    uri
}

/// The arguments with which the Podman binary is run to carry out `action` on
/// the container `resource_id`: the word for the action, then the container.
pub fn podman_args<'a>(action: Action, resource_id: &'a str) -> (args: [&'a str; 2])
    ensures
        args@.len() == 2,
        args@[0]@ == action.spec_verb(),
        args@[1]@ == resource_id@,
{
    [action.verb(), resource_id]
}

/// Whether an HTTP status reports success: the statuses from 200 to 299.
pub open spec fn is_success_status(code: u16) -> bool {
    200 <= code < 300
}

/// Reads Docker's answer to a request. `status` is the HTTP status of the
/// response, or `None` where the request did not get through.
///
/// A status from 200 to 299 means that the action was carried out; Docker
/// answers these requests with 204. The status [`HTTP_NOT_FOUND`] means that
/// Docker knows no such container. Every other status is reported as
/// [`ContainerError::Unknown`]: the server error 500, and also 304, with
/// which Docker says that the container already was in the state asked for,
/// and which is not counted as success here.
pub fn docker_outcome(status: Option<u16>) -> (res: Result<(), ContainerError>)
    ensures
        res is Ok <==> (status matches Some(code) && is_success_status(code)),
        res == Err::<(), ContainerError>(ContainerError::SocketError) <==> status is None,
        res == Err::<(), ContainerError>(ContainerError::ResourceNotFound)
            <==> status == Some(HTTP_NOT_FOUND),
        res == Err::<(), ContainerError>(ContainerError::Unknown) <==> (status matches Some(code)
            && code != HTTP_NOT_FOUND && !is_success_status(code)),
{
    match status {
        None => Err(ContainerError::SocketError),
        Some(code) => if 200 <= code && code < 300 {
            Ok(())
        } else if code == HTTP_NOT_FOUND {
            Err(ContainerError::ResourceNotFound)
        } else {
            Err(ContainerError::Unknown)
        },
    }
}

/// Reads the end of a Podman command. `run` is `None` where the binary could
/// not be run at all.
///
/// A command that reported success did its work. One that did not, and
/// exited with a code other than [`CMD_NOT_FOUND_STATUS`], failed for a
/// reason unknown here. In every other case Podman could not be reached.
pub fn podman_outcome(run: Option<ExitReport>) -> (res: Result<(), ContainerError>)
    ensures
        res is Ok <==> succeeded(run),
        res == Err::<(), ContainerError>(ContainerError::Unknown)
            <==> (!succeeded(run) && answered(run)),
        res == Err::<(), ContainerError>(ContainerError::EngineUnreachable)
            <==> (!succeeded(run) && !answered(run)),
{
    let report = match run {
        Some(report) => report,
        None => {
            return Err(ContainerError::EngineUnreachable);
        },
    };
    if !report.success {
        return match report.code {
            None => Err(ContainerError::EngineUnreachable),
            Some(code) => if code == CMD_NOT_FOUND_STATUS {
                Err(ContainerError::EngineUnreachable)
            } else {
                Err(ContainerError::Unknown)
            },
        };
    }
    Ok(())
}

} // verus!
