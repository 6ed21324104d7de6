use pemasak::deploy::{
    begin, environment_from_blob, Action, ContainerSpec, DeployError, Deployment, Endpoint,
    EnvironBlob, EnvironValue, Event, Phase, RestartPolicy,
};
use pemasak::docker::{
    build_command_args, dockerfile_path, resolve_address, routing_labels_for,
    temp_dockerfile_file_name, DeploymentTarget, DockerContainer, ResourceLimits,
};

fn target() -> DeploymentTarget {
    DeploymentTarget {
        owner: "alice".to_string(),
        project_name: "blog".to_string(),
        container_name: "alice-blog".to_string(),
        container_src: "/srv/git/alice/blog".to_string(),
    }
}

fn limits() -> ResourceLimits {
    ResourceLimits::from_settings(None, None, None, None)
}

fn blob(pairs: &[(&str, &str)]) -> EnvironBlob {
    EnvironBlob::Object(
        pairs
            .iter()
            .map(|(k, v)| (k.to_string(), EnvironValue::Text(v.to_string())))
            .collect(),
    )
}

fn start() -> Deployment {
    let (d, a) = Deployment::new(
        target(),
        limits(),
        "example.org".to_string(),
        "0000-id".to_string(),
    );
    match a {
        Action::FetchEnvironment { owner, project } => {
            assert_eq!(owner, "alice");
            assert_eq!(project, "blog");
        }
        _ => panic!("the first action fetches the environment"),
    }
    d
}

fn found(s: Option<&str>) -> Event {
    Event::Found(s.map(|x| x.to_string()))
}

#[test]
fn address_prefers_ipv6_and_strips_prefix() {
    let v4 = Some("10.0.0.5/24".to_string());
    assert_eq!(resolve_address(&v4, &None), Some("10.0.0.5".to_string()));
    let v6 = Some("fd00::2/64".to_string());
    assert_eq!(resolve_address(&v4, &v6), Some("fd00::2".to_string()));
    assert_eq!(resolve_address(&v4, &Some(String::new())), Some("10.0.0.5".to_string()));
    assert_eq!(resolve_address(&Some(String::new()), &Some(String::new())), None);
    assert_eq!(resolve_address(&None, &None), None);
    assert_eq!(resolve_address(&Some("10.0.0.7".to_string()), &None), Some("10.0.0.7".to_string()));
}

#[test]
fn default_resource_limits() {
    let l = limits();
    assert_eq!(l.memory_bytes, 256 * 1024 * 1024);
    assert_eq!(l.memory_swap_bytes, 320 * 1024 * 1024);
    assert_eq!(l.cpu_quota, 50000);
    assert_eq!(l.cpu_period, 100000);
    let l = ResourceLimits::from_settings(Some(1), Some(2), Some(3), Some(4));
    assert_eq!((l.memory_bytes, l.memory_swap_bytes, l.cpu_quota, l.cpu_period), (1, 2, 3, 4));
}

#[test]
fn routing_rule_label() {
    let labels = routing_labels_for("alice-blog", "example.org");
    assert_eq!(labels.len(), 5);
    assert!(labels.contains(&(
        "traefik.http.routers.alice-blog.rule".to_string(),
        "Host(`alice-blog.example.org`)".to_string()
    )));
    assert_eq!(labels[0], ("traefik.enable".to_string(), "true".to_string()));
    assert_eq!(
        labels[4],
        (
            "traefik.http.services.alice-blog.loadbalancer.server.port".to_string(),
            "80".to_string()
        )
    );
}

#[test]
fn paths_and_names() {
    assert_eq!(dockerfile_path("/srv/app"), "/srv/app/Dockerfile");
    assert_eq!(dockerfile_path("/srv/app/"), "/srv/app/Dockerfile");
    assert_eq!(dockerfile_path(""), "Dockerfile");
    assert_eq!(temp_dockerfile_file_name("alice-blog", "abc"), "Dockerfile.alice-blog.abc.tmp");
}

#[test]
fn build_command_line() {
    let args = build_command_args(
        &limits(),
        "alice-blog",
        "/tmp/Dockerfile.x",
        vec!["--build-arg".to_string(), "A=1".to_string()],
        "/srv/app",
    );
    assert_eq!(
        args,
        vec![
            "build",
            "--cpu-period=100000",
            "--cpu-quota=50000",
            "-t",
            "alice-blog:latest",
            "-f",
            "/tmp/Dockerfile.x",
            "--build-arg",
            "A=1",
            "/srv/app"
        ]
    );
}

#[test]
fn environment_blob_validation() {
    assert!(environment_from_blob(EnvironBlob::NotObject).is_none());
    let bad = EnvironBlob::Object(vec![("A".to_string(), EnvironValue::Other)]);
    assert!(environment_from_blob(bad).is_none());
    let good = environment_from_blob(blob(&[("B", "2"), ("A", "1")])).unwrap();
    assert_eq!(good, vec![("B".to_string(), "2".to_string()), ("A".to_string(), "1".to_string())]);
}

#[test]
fn non_object_environment_is_a_configuration_error() {
    let d = start();
    let (d, a) = d.step(Event::Environment(EnvironBlob::NotObject));
    assert_eq!(d.phase, Phase::Failed);
    assert!(matches!(a, Action::Abort(DeployError::Configuration(ref n)) if n == "alice-blog"));
    let (d, a) = d.step(Event::Completed);
    assert_eq!(d.phase, Phase::Failed);
    assert!(matches!(a, Action::Idle));
}

#[test]
fn fresh_deploy_with_generated_dockerfile() {
    let d = start();
    let (d, a) = d.step(Event::Environment(blob(&[("DEBUG", "0"), ("KEY", "v")])));
    assert!(matches!(a, Action::ListImages { ref reference } if reference == "alice-blog:latest"));
    let (d, a) = d.step(found(None));
    assert!(matches!(a, Action::ProbeFile { ref path } if path == "/srv/git/alice/blog/Dockerfile"));
    let (d, a) = d.step(Event::Probed(false));
    match a {
        Action::WriteTempFile { file_name, content } => {
            assert_eq!(file_name, "Dockerfile.alice-blog.0000-id.tmp");
            assert!(content.contains("\n# Environment variables\nENV DEBUG=0\nENV KEY=v\n"));
        }
        _ => panic!("a Dockerfile is generated"),
    }
    let (d, a) = d.step(Event::Written("/tmp/Dockerfile.alice-blog.0000-id.tmp".to_string()));
    match a {
        Action::RunBuild { args } => {
            assert_eq!(args[6], "/tmp/Dockerfile.alice-blog.0000-id.tmp");
            assert!(!args.contains(&"--build-arg".to_string()));
            assert_eq!(args.last().unwrap(), "/srv/git/alice/blog");
        }
        _ => panic!("the build runs"),
    }
    let (d, a) = d.step(Event::BuildFinished { success: true, log: "built".to_string() });
    assert!(matches!(a, Action::RemoveTempFile { ref path } if path == "/tmp/Dockerfile.alice-blog.0000-id.tmp"));
    let (d, a) = d.step(Event::Completed);
    assert!(matches!(a, Action::ListImages { .. }));
    let (d, a) = d.step(found(Some("sha256:1")));
    assert!(matches!(a, Action::ListContainers { ref name_pattern } if name_pattern == "^alice-blog$"));
    let (d, a) = d.step(found(None));
    assert!(matches!(a, Action::ListNetworks { ref name } if name == "pemasak"));
    let (d, a) = d.step(found(None));
    assert!(matches!(a, Action::CreateNetwork { ref name } if name == "pemasak"));
    let (d, a) = d.step(Event::Conflict);
    assert!(matches!(a, Action::ListNetworks { .. }));
    let (d, a) = d.step(found(Some("net-1")));
    match a {
        Action::CreateContainer(ContainerSpec { name, image, env, labels, limits, restart_policy }) => {
            assert_eq!(name, "alice-blog");
            assert_eq!(image, "alice-blog:latest");
            assert_eq!(env, vec!["DEBUG=0".to_string(), "KEY=v".to_string()]);
            assert_eq!(labels.len(), 5);
            assert_eq!(limits.memory_bytes, 268435456);
            assert_eq!(limits.memory_swap_bytes, 335544320);
            assert_eq!(restart_policy, RestartPolicy::OnFailure);
        }
        _ => panic!("the container is created"),
    }
    let (d, a) = d.step(Event::Created("c-1".to_string()));
    assert!(matches!(a, Action::ConnectNetwork { ref network, ref container } if network == "pemasak" && container == "alice-blog"));
    let (d, a) = d.step(Event::Completed);
    assert!(matches!(a, Action::StartContainer { ref name } if name == "alice-blog"));
    let (d, a) = d.step(Event::Completed);
    assert!(matches!(a, Action::InspectNetwork { ref network, ref container } if network == "net-1" && container == "c-1"));
    let (d, a) = d.step(Event::Inspected(Some(Endpoint {
        ipv4: Some("10.0.0.5/24".to_string()),
        ipv6: None,
    })));
    assert!(matches!(a, Action::DisconnectNetwork { ref network, .. } if network == "bridge"));
    let (d, a) = d.step(Event::Failed("not connected".to_string()));
    assert_eq!(d.phase, Phase::Done);
    assert_eq!(d.warnings, vec!["not connected".to_string()]);
    match a {
        Action::Finish(DockerContainer { ip, port, build_log }) => {
            let c = DockerContainer { ip, port, build_log };
            assert_eq!(c.ip, "10.0.0.5");
            assert_eq!(c.port, 80);
            assert_eq!(c.build_log, "built");
        }
        _ => panic!("the deployment finishes"),
    }
}

#[test]
fn redeploy_keeps_rollback_image_then_replaces() {
    let d = start();
    let (d, _) = d.step(Event::Environment(blob(&[("A", "1")])));
    let (d, a) = d.step(found(Some("sha256:old")));
    assert!(matches!(a, Action::TagImage { ref image, ref repo, ref tag } if image == "alice-blog" && repo == "alice-blog" && tag == "old"));
    let (d, a) = d.step(Event::Completed);
    assert!(matches!(a, Action::RemoveImage { ref reference } if reference == "alice-blog:latest"));
    let (d, a) = d.step(Event::Completed);
    assert!(matches!(a, Action::ProbeFile { .. }));
    let (d, a) = d.step(Event::Probed(true));
    match a {
        Action::RunBuild { args } => {
            assert_eq!(args[6], "/srv/git/alice/blog/Dockerfile");
            assert_eq!(args[7], "--build-arg");
            assert_eq!(args[8], "A=1");
        }
        _ => panic!("the tenant's Dockerfile is built"),
    }
    let (d, a) = d.step(Event::BuildFinished { success: true, log: "ok".to_string() });
    assert!(matches!(a, Action::ListImages { .. }));
    let (d, a) = d.step(found(Some("sha256:new")));
    assert!(matches!(a, Action::ListContainers { .. }));
    let (d, a) = d.step(found(Some("c-0")));
    assert!(matches!(a, Action::StopContainer { ref name } if name == "alice-blog"));
    let (d, a) = d.step(Event::Completed);
    assert!(matches!(a, Action::RemoveContainer { ref id } if id == "c-0"));
    let (d, a) = d.step(Event::Completed);
    assert!(matches!(a, Action::RemoveImage { ref reference } if reference == "alice-blog:old"));
    let (d, a) = d.step(Event::Failed("no such image".to_string()));
    assert!(matches!(a, Action::ListNetworks { .. }));
    assert_eq!(d.warnings.len(), 1);
    let (d, a) = d.step(found(Some("net-1")));
    assert!(matches!(a, Action::CreateContainer(_)));
    let (d, _) = d.step(Event::Created("c-2".to_string()));
    assert_eq!(d.container_id, "c-2");
}

#[test]
fn failed_custom_build_aborts_with_log() {
    let d = start();
    let (d, _) = d.step(Event::Environment(blob(&[])));
    let (d, _) = d.step(found(None));
    let (d, _) = d.step(Event::Probed(true));
    let (d, a) = d.step(Event::BuildFinished { success: false, log: "boom".to_string() });
    assert_eq!(d.phase, Phase::Failed);
    assert!(matches!(a, Action::Abort(DeployError::Build(ref log)) if log == "boom"));
    let (_, a) = d.step(Event::Completed);
    assert!(matches!(a, Action::Idle));
}

#[test]
fn failed_generated_build_removes_temp_file_first() {
    let d = start();
    let (d, _) = d.step(Event::Environment(blob(&[])));
    let (d, _) = d.step(found(None));
    let (d, _) = d.step(Event::Probed(false));
    let (d, _) = d.step(Event::Written("/tmp/f".to_string()));
    let (d, a) = d.step(Event::BuildFinished { success: false, log: "bad".to_string() });
    assert!(matches!(a, Action::RemoveTempFile { ref path } if path == "/tmp/f"));
    let (d, a) = d.step(Event::Completed);
    assert_eq!(d.phase, Phase::Failed);
    assert!(matches!(a, Action::Abort(DeployError::Build(ref log)) if log == "bad"));
}

#[test]
fn build_spawn_failure_still_removes_temp_file() {
    let d = start();
    let (d, _) = d.step(Event::Environment(blob(&[])));
    let (d, _) = d.step(found(None));
    let (d, _) = d.step(Event::Probed(false));
    let (d, _) = d.step(Event::Written("/tmp/f".to_string()));
    let (d, a) = d.step(Event::Failed("spawn".to_string()));
    assert!(matches!(a, Action::RemoveTempFile { .. }));
    let (_, a) = d.step(Event::Failed("gone".to_string()));
    assert!(matches!(a, Action::Abort(DeployError::Engine { phase: Phase::Building, ref message }) if message == "spawn"));
}

#[test]
fn missing_image_and_address_errors() {
    let d = start();
    let (d, _) = d.step(Event::Environment(blob(&[])));
    let (d, _) = d.step(found(None));
    let (d, _) = d.step(Event::Probed(true));
    let (d, _) = d.step(Event::BuildFinished { success: true, log: String::new() });
    let (_, a) = d.step(found(None));
    assert!(matches!(a, Action::Abort(DeployError::ResourceLookup(ref r)) if r == "alice-blog:latest"));

    let d = start();
    let (d, _) = d.step(Event::Environment(blob(&[])));
    let (d, _) = d.step(found(None));
    let (d, _) = d.step(Event::Probed(true));
    let (d, _) = d.step(Event::BuildFinished { success: true, log: String::new() });
    let (d, _) = d.step(found(Some("i")));
    let (d, _) = d.step(found(None));
    let (d, _) = d.step(found(Some("n")));
    let (d, _) = d.step(Event::Created("c".to_string()));
    let (d, _) = d.step(Event::Completed);
    let (d, _) = d.step(Event::Completed);
    let (d, a) = d.step(Event::Inspected(Some(Endpoint { ipv4: Some(String::new()), ipv6: None })));
    assert_eq!(d.phase, Phase::Failed);
    assert!(matches!(a, Action::Abort(DeployError::Address(ref n)) if n == "alice-blog"));
}

#[test]
fn engine_failure_names_the_step() {
    let d = start();
    let (d, _) = d.step(Event::Environment(blob(&[])));
    let (_, a) = d.step(Event::Failed("socket closed".to_string()));
    assert!(matches!(a, Action::Abort(DeployError::Engine { phase: Phase::ListingImages, ref message }) if message == "socket closed"));
}

#[test]
fn network_missing_after_create() {
    let d = start();
    let (d, _) = d.step(Event::Environment(blob(&[])));
    let (d, _) = d.step(found(None));
    let (d, _) = d.step(Event::Probed(true));
    let (d, _) = d.step(Event::BuildFinished { success: true, log: String::new() });
    let (d, _) = d.step(found(Some("i")));
    let (d, _) = d.step(found(None));
    let (d, _) = d.step(found(None));
    let (d, _) = d.step(Event::Completed);
    let (_, a) = d.step(found(None));
    assert!(matches!(a, Action::Abort(DeployError::ResourceLookup(ref r)) if r == "pemasak"));
}

#[test]
fn begin_draws_a_build_id() {
    let (d, a) = begin(target(), limits(), "example.org".to_string());
    assert_eq!(d.build_id.len(), 36);
    assert_eq!(d.build_id.matches('-').count(), 4);
    assert!(matches!(a, Action::FetchEnvironment { .. }));
    let (d2, _) = begin(target(), limits(), "example.org".to_string());
    assert_ne!(d.build_id, d2.build_id);
}
