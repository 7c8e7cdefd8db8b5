use cargo_bundler::{
    get_workspace_dir, BundleError, PathEvent, PathRequest, PathStep, ResourcePaths,
    WorkspaceStep,
};

#[test]
fn directory_match_is_an_error_and_expansion_goes_on() {
    let patterns = vec!["assets".to_string(), "icon.png".to_string()];
    let mut rp = ResourcePaths::new(&patterns, false);
    assert_eq!(rp.request(), PathRequest::OpenPattern("assets".to_string()));
    assert!(matches!(rp.next(PathEvent::Opened), PathStep::Continue));
    assert_eq!(rp.request(), PathRequest::NextMatch);
    let step = rp.next(PathEvent::Match { path: "assets".to_string(), is_dir: true });
    match step {
        PathStep::Item(Err(BundleError::IsDirectory(p))) => assert_eq!(p, "assets"),
        other => panic!("unexpected step {:?}", other),
    }
    assert_eq!(rp.request(), PathRequest::NextMatch);
    assert!(matches!(rp.next(PathEvent::MatchesDone), PathStep::Continue));
    assert_eq!(rp.request(), PathRequest::OpenPattern("icon.png".to_string()));
    rp.next(PathEvent::Opened);
    let step = rp.next(PathEvent::Match { path: "icon.png".to_string(), is_dir: false });
    match step {
        PathStep::Item(Ok(p)) => assert_eq!(p, "icon.png"),
        other => panic!("unexpected step {:?}", other),
    }
    rp.next(PathEvent::MatchesDone);
    assert_eq!(rp.request(), PathRequest::Finished);
}

#[test]
fn directory_match_is_walked_when_allowed() {
    let patterns = vec!["build/*".to_string()];
    let mut rp = ResourcePaths::new(&patterns, true);
    rp.next(PathEvent::Opened);
    match rp.next(PathEvent::Match { path: "build/img".to_string(), is_dir: true }) {
        PathStep::StartWalk(p) => assert_eq!(p, "build/img"),
        other => panic!("unexpected step {:?}", other),
    }
    assert_eq!(rp.request(), PathRequest::NextWalkEntry);
    assert!(matches!(
        rp.next(PathEvent::WalkEntry { path: "build/img".to_string(), is_dir: true }),
        PathStep::Continue
    ));
    match rp.next(PathEvent::WalkEntry { path: "build/img/a.png".to_string(), is_dir: false }) {
        PathStep::Item(Ok(p)) => assert_eq!(p, "build/img/a.png"),
        other => panic!("unexpected step {:?}", other),
    }
    rp.next(PathEvent::WalkDone);
    assert_eq!(rp.request(), PathRequest::NextMatch);
}

#[test]
fn invalid_pattern_is_reported_and_skipped() {
    let patterns = vec!["[".to_string(), "ok".to_string()];
    let mut rp = ResourcePaths::new(&patterns, false);
    match rp.next(PathEvent::OpenFailed("invalid range".to_string())) {
        PathStep::Item(Err(BundleError::InvalidPattern(m))) => assert_eq!(m, "invalid range"),
        other => panic!("unexpected step {:?}", other),
    }
    assert_eq!(rp.request(), PathRequest::OpenPattern("ok".to_string()));
}

fn search(start: &str, has_manifest: &[&str]) -> String {
    let mut current = start.to_string();
    loop {
        let found = has_manifest.contains(&current.as_str());
        match get_workspace_dir(start, &current, found) {
            WorkspaceStep::Found(d) => return d,
            WorkspaceStep::Probe(next) => current = next,
        }
    }
}

#[test]
fn no_manifest_anywhere_returns_start() {
    assert_eq!(search("/home/user/project", &[]), "/home/user/project");
    assert_eq!(search("relative/dir", &[]), "relative/dir");
}

#[test]
fn search_stops_at_nearest_manifest() {
    assert_eq!(search("/ws/member/src", &["/ws/member", "/ws"]), "/ws/member");
    assert_eq!(search("/ws/member/src", &["/ws"]), "/ws");
    assert_eq!(search("/ws/member/src", &["/ws/member/src"]), "/ws/member/src");
}

#[test]
fn search_steps_go_up_one_directory() {
    assert_eq!(
        get_workspace_dir("/a/b", "/a/b", false),
        WorkspaceStep::Probe("/a".to_string())
    );
    assert_eq!(get_workspace_dir("/a/b", "/a", false), WorkspaceStep::Probe("/".to_string()));
    assert_eq!(get_workspace_dir("/a/b", "/", false), WorkspaceStep::Found("/a/b".to_string()));
}
