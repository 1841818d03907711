use kubelet::{failure_report, status_patch, step, Driver, Hook, Phase, PodState, StatusPatch, Transition, BACKOFF_DELAY_SECS};

const ALL_STATES: [PodState; 10] = [
    PodState::Registered,
    PodState::ImagePull,
    PodState::ImagePullBackoff,
    PodState::VolumeMount,
    PodState::VolumeMountBackoff,
    PodState::Starting,
    PodState::Running,
    PodState::Error,
    PodState::Terminated,
    PodState::Finished,
];

#[test]
fn graph_edges_match_table() {
    let table = [
        (PodState::Registered, Some(PodState::ImagePull), Some(PodState::Error)),
        (PodState::ImagePull, Some(PodState::VolumeMount), Some(PodState::ImagePullBackoff)),
        (PodState::ImagePullBackoff, Some(PodState::ImagePull), Some(PodState::ImagePullBackoff)),
        (PodState::VolumeMount, Some(PodState::Starting), Some(PodState::VolumeMountBackoff)),
        (PodState::VolumeMountBackoff, Some(PodState::VolumeMount), Some(PodState::VolumeMountBackoff)),
        (PodState::Starting, Some(PodState::Running), Some(PodState::Error)),
        (PodState::Running, Some(PodState::Finished), Some(PodState::Error)),
        (PodState::Error, Some(PodState::Starting), Some(PodState::Error)),
        (PodState::Terminated, None, None),
        (PodState::Finished, None, None),
    ];
    for (s, adv, err) in table {
        assert_eq!(s.advance_target(), adv, "advance of {:?}", s);
        assert_eq!(s.error_target(), err, "error of {:?}", s);
    }
}

#[test]
fn steps_follow_declared_edges() {
    for s in ALL_STATES {
        match step(s, true) {
            Transition::Advance(t) => assert_eq!(Some(t), s.advance_target()),
            Transition::Complete(r) => {
                assert!(s.is_terminal());
                assert_eq!(r, Ok(()));
            }
            Transition::Error(_) => panic!("success routed to the error edge"),
        }
        match step(s, false) {
            Transition::Error(t) => assert_eq!(Some(t), s.error_target()),
            Transition::Complete(r) => {
                assert!(s.is_terminal());
                assert_eq!(r, Ok(()));
            }
            Transition::Advance(_) => panic!("failure routed to the advance edge"),
        }
    }
}

#[test]
fn phases_and_reasons_match_table() {
    let table = [
        (PodState::Registered, Phase::Pending, "Registered"),
        (PodState::ImagePull, Phase::Pending, "ImagePull"),
        (PodState::ImagePullBackoff, Phase::Pending, "ImagePullBackoff"),
        (PodState::VolumeMount, Phase::Pending, "VolumeMount"),
        (PodState::VolumeMountBackoff, Phase::Pending, "VolumeMountBackoff"),
        (PodState::Starting, Phase::Pending, "Starting"),
        (PodState::Running, Phase::Running, "Running"),
        (PodState::Error, Phase::Failed, "Error"),
        (PodState::Terminated, Phase::Failed, "Failed"),
        (PodState::Finished, Phase::Succeeded, "Failed"),
    ];
    for (s, phase, reason) in table {
        assert_eq!(s.phase(), phase);
        assert_eq!(s.reason(), reason);
        let p = StatusPatch::for_state(s);
        assert_eq!(p.phase, phase);
        assert_eq!(p.reason, reason);
        assert_eq!(p.resource_version, "");
    }
}

#[test]
fn finished_reports_failed_reason_with_succeeded_phase() {
    let p = StatusPatch::for_state(PodState::Finished);
    assert_eq!(p.phase, Phase::Succeeded);
    assert_eq!(p.reason, "Failed");
    assert_eq!(PodState::Finished.name(), "Finished");
}

#[test]
fn phase_names() {
    assert_eq!(Phase::Pending.as_str(), "Pending");
    assert_eq!(Phase::Running.as_str(), "Running");
    assert_eq!(Phase::Succeeded.as_str(), "Succeeded");
    assert_eq!(Phase::Failed.as_str(), "Failed");
}

#[test]
fn terminal_states_complete_repeatedly_without_hooks() {
    for s in [PodState::Finished, PodState::Terminated] {
        let mut d = Driver::resume_at(s);
        for i in 0..5 {
            assert_eq!(d.pending_hook(), None);
            assert_eq!(d.record(i % 2 == 0), Transition::Complete(Ok(())));
            assert_eq!(d.current(), s);
        }
    }
}

#[test]
fn failing_image_pull_routes_to_backoff_loop() {
    let mut d = Driver::resume_at(PodState::ImagePull);
    assert_eq!(d.pending_hook(), Some(Hook::ImagePull));
    assert_eq!(d.record(false), Transition::Error(PodState::ImagePullBackoff));
    for _ in 0..3 {
        assert_eq!(d.pending_hook(), Some(Hook::ImagePullBackoff));
        assert_eq!(d.record(true), Transition::Advance(PodState::ImagePull));
        assert_eq!(d.pending_hook(), Some(Hook::ImagePull));
        assert_eq!(d.record(false), Transition::Error(PodState::ImagePullBackoff));
        assert_eq!(d.current(), PodState::ImagePullBackoff);
    }
    assert_eq!(step(PodState::ImagePullBackoff, false), Transition::Error(PodState::ImagePullBackoff));
}

#[test]
fn success_path_end_to_end() {
    let mut d = Driver::new();
    let mut visited = vec![d.current()];
    let mut hooks = Vec::new();
    let result = loop {
        if let Some(h) = d.pending_hook() {
            hooks.push(h);
        }
        match d.record(true) {
            Transition::Advance(t) => visited.push(t),
            Transition::Error(t) => panic!("unexpected error edge to {:?}", t),
            Transition::Complete(r) => break r,
        }
    };
    assert_eq!(
        visited,
        vec![
            PodState::Registered,
            PodState::ImagePull,
            PodState::VolumeMount,
            PodState::Starting,
            PodState::Running,
            PodState::Finished,
        ]
    );
    assert_eq!(
        hooks,
        vec![Hook::Registered, Hook::ImagePull, Hook::VolumeMount, Hook::Starting, Hook::Running]
    );
    assert_eq!(result, Ok(()));
}

#[test]
fn error_state_retries_from_starting() {
    let mut d = Driver::resume_at(PodState::Running);
    assert_eq!(d.record(false), Transition::Error(PodState::Error));
    assert_eq!(d.patch(), status_patch(PodState::Error));
    assert_eq!(d.record(false), Transition::Error(PodState::Error));
    assert_eq!(d.record(true), Transition::Advance(PodState::Starting));
    assert_eq!(d.current(), PodState::Starting);
}

#[test]
fn volume_mount_failure_loops_on_backoff() {
    let mut d = Driver::resume_at(PodState::VolumeMount);
    assert_eq!(d.record(false), Transition::Error(PodState::VolumeMountBackoff));
    assert_eq!(d.record(false), Transition::Error(PodState::VolumeMountBackoff));
    assert_eq!(d.record(true), Transition::Advance(PodState::VolumeMount));
    assert_eq!(d.record(true), Transition::Advance(PodState::Starting));
}

#[test]
fn backoff_hooks_default_delay() {
    assert_eq!(BACKOFF_DELAY_SECS, 30);
    for h in [Hook::ImagePullBackoff, Hook::VolumeMountBackoff, Hook::Error] {
        assert_eq!(h.default_delay_secs(), 30);
    }
    for h in [Hook::Registered, Hook::ImagePull, Hook::VolumeMount, Hook::Starting, Hook::Running] {
        assert_eq!(h.default_delay_secs(), 0);
    }
}

#[test]
fn patch_document_exact_text() {
    assert_eq!(
        status_patch(PodState::Running),
        "{\"metadata\":{\"resourceVersion\":\"\"},\"status\":{\"phase\":\"Running\",\"reason\":\"Running\",\"containerStatuses\":[],\"initContainerStatuses\":[]}}"
    );
}

#[test]
fn patch_document_shape_for_every_state() {
    for s in ALL_STATES {
        let text = status_patch(s);
        let doc: serde_json::Value = serde_json::from_str(&text).expect("patch is valid JSON");
        let top = doc.as_object().unwrap();
        assert_eq!(top.len(), 2);
        let meta = top["metadata"].as_object().unwrap();
        assert_eq!(meta.len(), 1);
        assert_eq!(meta["resourceVersion"], serde_json::Value::String(String::new()));
        let status = top["status"].as_object().unwrap();
        assert_eq!(status.len(), 4);
        assert_eq!(status["phase"].as_str().unwrap(), s.phase().as_str());
        assert_eq!(status["reason"].as_str().unwrap(), s.reason());
        assert_eq!(status["containerStatuses"].as_array().unwrap().len(), 0);
        assert_eq!(status["initContainerStatuses"].as_array().unwrap().len(), 0);
    }
}

#[test]
fn patch_document_escapes_version_token() {
    let p = StatusPatch {
        resource_version: String::from("12\"3\\4"),
        phase: Phase::Pending,
        reason: String::from("Registered"),
    };
    let text = p.to_json();
    assert!(text.contains("\"12\\\"3\\\\4\""));
    let doc: serde_json::Value = serde_json::from_str(&text).unwrap();
    assert_eq!(doc["metadata"]["resourceVersion"].as_str().unwrap(), "12\"3\\4");
}

#[test]
fn failure_report_text() {
    assert_eq!(
        failure_report("web-1", PodState::ImagePull, "registry unreachable"),
        "Pod web-1 encountered an error in state ImagePull: registry unreachable"
    );
    assert_eq!(
        failure_report("", PodState::Finished, ""),
        "Pod  encountered an error in state Finished: "
    );
}
