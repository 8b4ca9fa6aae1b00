use cower::engine::{
    docker_outcome, docker_uri, podman_args, podman_outcome, request_of, Action, ContainerEngine,
    ContainerError, Detection, ExitReport, CMD_NOT_FOUND_STATUS, DOCKER_SOCKET_PATH, HTTP_NOT_FOUND,
    PODMAN_BIN_PATH,
};

fn exited(code: i32) -> Option<ExitReport> {
    Some(ExitReport {
        success: code == 0,
        code: Some(code),
    })
}

fn killed() -> Option<ExitReport> {
    Some(ExitReport {
        success: false,
        code: None,
    })
}

#[test]
fn engine_paths_and_codes() {
    assert_eq!(DOCKER_SOCKET_PATH, "/var/run/docker.sock");
    assert_eq!(PODMAN_BIN_PATH, "/usr/bin/podman");
    assert_eq!(CMD_NOT_FOUND_STATUS, 127);
    assert_eq!(HTTP_NOT_FOUND, 404);
    assert_eq!(Action::Start.verb(), "start");
    assert_eq!(Action::Stop.verb(), "stop");
}

#[test]
fn detection_begins_with_docker() {
    assert_eq!(Detection::start(), Detection::ProbeDocker);
}

#[test]
fn docker_socket_settles_detection() {
    assert_eq!(
        Detection::after_docker_probe(true),
        Detection::Finished(Some(ContainerEngine::Docker))
    );
    assert_eq!(Detection::after_docker_probe(false), Detection::ProbePodman);
}

#[test]
fn podman_is_detected_by_any_exit_code_but_not_found() {
    let found = Detection::Finished(Some(ContainerEngine::Podman));
    let none = Detection::Finished(None);

    assert_eq!(Detection::after_podman_probe(exited(0)), found);
    assert_eq!(Detection::after_podman_probe(exited(1)), found);
    assert_eq!(Detection::after_podman_probe(exited(125)), found);
    assert_eq!(Detection::after_podman_probe(exited(126)), found);
    assert_eq!(Detection::after_podman_probe(exited(128)), found);
    assert_eq!(Detection::after_podman_probe(exited(-1)), found);

    assert_eq!(Detection::after_podman_probe(exited(127)), none);
    assert_eq!(Detection::after_podman_probe(killed()), none);
    assert_eq!(Detection::after_podman_probe(None), none);
}

#[test]
fn docker_uri_names_container_and_action() {
    assert_eq!(
        docker_uri(Action::Start, "my_resource"),
        "/var/run/docker.sock/containers/my_resource/start"
    );
    assert_eq!(
        docker_uri(Action::Stop, "my_resource"),
        "/var/run/docker.sock/containers/my_resource/stop"
    );
    assert_eq!(
        docker_uri(Action::Start, ""),
        "/var/run/docker.sock/containers//start"
    );
}

#[test]
fn docker_answers() {
    assert_eq!(docker_outcome(None), Err(ContainerError::SocketError));
    assert_eq!(
        docker_outcome(Some(404)),
        Err(ContainerError::ResourceNotFound)
    );
    assert_eq!(docker_outcome(Some(500)), Err(ContainerError::Unknown));
    assert_eq!(docker_outcome(Some(403)), Err(ContainerError::Unknown));
    assert_eq!(docker_outcome(Some(405)), Err(ContainerError::Unknown));
    assert_eq!(docker_outcome(Some(204)), Ok(()));
}

#[test]
fn docker_success_is_every_status_from_200_to_299() {
    for code in 0..=u16::MAX {
        let expected = if (200..300).contains(&code) {
            Ok(())
        } else if code == 404 {
            Err(ContainerError::ResourceNotFound)
        } else {
            Err(ContainerError::Unknown)
        };
        assert_eq!(docker_outcome(Some(code)), expected);
    }

    // the edges of the range, and "already in that state"
    assert_eq!(docker_outcome(Some(199)), Err(ContainerError::Unknown));
    assert_eq!(docker_outcome(Some(200)), Ok(()));
    assert_eq!(docker_outcome(Some(299)), Ok(()));
    assert_eq!(docker_outcome(Some(300)), Err(ContainerError::Unknown));
    assert_eq!(docker_outcome(Some(304)), Err(ContainerError::Unknown));
}

#[test]
fn podman_answers() {
    assert_eq!(podman_outcome(exited(0)), Ok(()));

    assert_eq!(podman_outcome(exited(1)), Err(ContainerError::Unknown));
    assert_eq!(podman_outcome(exited(125)), Err(ContainerError::Unknown));
    assert_eq!(podman_outcome(exited(126)), Err(ContainerError::Unknown));
    assert_eq!(podman_outcome(exited(128)), Err(ContainerError::Unknown));

    assert_eq!(
        podman_outcome(exited(127)),
        Err(ContainerError::EngineUnreachable)
    );
    assert_eq!(
        podman_outcome(killed()),
        Err(ContainerError::EngineUnreachable)
    );
    assert_eq!(
        podman_outcome(None),
        Err(ContainerError::EngineUnreachable)
    );
}

#[test]
fn reported_success_counts_whatever_the_code() {
    let odd = Some(ExitReport {
        success: true,
        code: Some(127),
    });
    assert_eq!(podman_outcome(odd), Ok(()));
}

#[test]
fn engine_error_descriptions() {
    assert_eq!(
        ContainerError::SocketError.description(),
        "failed to connect to socket"
    );
    assert_eq!(
        ContainerError::EngineUnreachable.description(),
        "the container engine couldn't be reached"
    );
    assert_eq!(
        ContainerError::ResourceNotFound.description(),
        "requested resource was not found"
    );
    assert_eq!(ContainerError::Unknown.description(), "unknown engine error");
}

#[test]
fn podman_is_told_the_action_then_the_container() {
    assert_eq!(
        podman_args(Action::Start, "my_resource"),
        ["start", "my_resource"]
    );
    assert_eq!(
        podman_args(Action::Stop, "my_resource"),
        ["stop", "my_resource"]
    );
}

#[test]
fn start_message_asks_to_start_its_resource() {
    let message = cower::Message::StartMessage {
        resource_name: "my_resource".to_owned(),
    };
    assert_eq!(request_of(&message), (Action::Start, "my_resource"));
}
