//! What holds of every deployment, proved from the transition function.

use vstd::prelude::*;
use crate::deploy::{
    custom_build_action, environment_of, first_action, generated_build_action, initial, next,
    ActionView, DeployErrorView, DeploymentView, EnvironBlobView, EventView, Phase,
};
use crate::docker::{
    assignments, configured_limits, latest_image, old_image, resolved_address, temp_dockerfile_name,
    DockerContainerView, ResourceLimits, TargetView, SHARED_NETWORK,
};
use crate::dockerfile_templates::{
    env_lines, env_section, DOCKERFILE_HEAD, DOCKERFILE_TAIL, ENV_HEADING,
};

verus! {

/// No step changes what is being deployed, its limits or its domain, and
/// once fetched the environment stays as it was fetched.
pub proof fn lemma_fixed_inputs(d: DeploymentView, e: EventView)
    ensures
        next(d, e).0.target == d.target,
        next(d, e).0.limits == d.limits,
        next(d, e).0.domain == d.domain,
        next(d, e).0.build_id == d.build_id,
        d.phase != Phase::FetchingEnvironment ==> next(d, e).0.environment == d.environment,
{
}

/// The environment is fetched before anything else, so a malformed one
/// ends the deployment before the engine is touched.
pub proof fn lemma_configuration_checked_first(
    target: TargetView,
    limits: ResourceLimits,
    domain: Seq<char>,
    build_id: Seq<char>,
    blob: EnvironBlobView,
)
    requires
        environment_of(blob) is None,
    ensures
        first_action(target) is FetchEnvironment,
        next(initial(target, limits, domain, build_id), EventView::Environment(blob)).1
            == ActionView::Abort(DeployErrorView::Configuration(target.container_name)),
{
}

/// Once a deployment has finished or failed, it stays so and asks for
/// nothing more.
pub proof fn lemma_terminal(d: DeploymentView, e: EventView)
    requires
        d.phase == Phase::Done || d.phase == Phase::Failed,
    ensures
        next(d, e) == (d, ActionView::Idle),
{
}

/// The position of a phase in the order the steps run.
pub open spec fn rank(p: Phase) -> int {
    match p {
        Phase::FetchingEnvironment => 0,
        Phase::ListingImages => 1,
        Phase::TaggingOld => 2,
        Phase::RemovingLatest => 3,
        Phase::ProbingDockerfile => 4,
        Phase::WritingDockerfile => 5,
        Phase::Building => 6,
        Phase::RemovingDockerfile => 7,
        Phase::CheckingImage => 8,
        Phase::ListingContainers => 9,
        Phase::StoppingContainer => 10,
        Phase::RemovingContainer => 11,
        Phase::RemovingOldImage => 12,
        Phase::ListingNetworks => 13,
        Phase::CreatingNetwork => 14,
        Phase::RelistingNetworks => 15,
        Phase::CreatingContainer => 16,
        Phase::ConnectingNetwork => 17,
        Phase::StartingContainer => 18,
        Phase::InspectingNetwork => 19,
        Phase::DetachingDefault => 20,
        Phase::Done => 21,
        Phase::Failed => 22,
    }
}

/// Steps only move forward: every step that is not over moves to a later
/// phase, so no step runs twice in one deployment.
pub proof fn lemma_phases_advance(d: DeploymentView, e: EventView)
    requires
        d.phase != Phase::Done,
        d.phase != Phase::Failed,
    ensures
        rank(next(d, e).0.phase) > rank(d.phase),
{
}

/// A Dockerfile is generated only right after the probe found none in the
/// source tree.
pub proof fn lemma_generation_needs_missing_dockerfile(d: DeploymentView, e: EventView)
    ensures
        next(d, e).1 is WriteTempFile ==> d.phase == Phase::ProbingDockerfile && e
            == EventView::Probed(false),
{
}

/// When the source tree holds a Dockerfile, the build uses it, with one
/// build argument per environment entry, and no Dockerfile is generated.
/// When it holds none, the generated Dockerfile holds exactly one `ENV`
/// line per environment entry, in the environment's order, and the build
/// then uses that file with no build arguments.
pub proof fn lemma_dockerfile_precedence(d: DeploymentView, path: Seq<char>)
    requires
        d.phase == Phase::ProbingDockerfile,
    ensures
        next(d, EventView::Probed(true)).1 == custom_build_action(d),
        !(next(d, EventView::Probed(true)).1 is WriteTempFile),
        next(d, EventView::Probed(false)).1 == (ActionView::WriteTempFile {
            file_name: temp_dockerfile_name(d.target.container_name, d.build_id),
            content: DOCKERFILE_HEAD@ + env_section(assignments(d.environment)) + DOCKERFILE_TAIL@,
        }),
        d.environment.len() > 0 ==> env_section(assignments(d.environment)) == ENV_HEADING@
            + env_lines(assignments(d.environment)),
        forall|i: int|
            0 <= i < d.environment.len() ==> #[trigger] assignments(d.environment)[i]
                == d.environment[i].0 + "="@ + d.environment[i].1,
        next(next(d, EventView::Probed(false)).0, EventView::Written(path)).1
            == generated_build_action(d, path),
{
}

/// A build that fails ends the deployment with its log. A generated
/// Dockerfile is still removed, whatever that removal reports; nothing else
/// is done, so no image is tagged and no container is touched.
pub proof fn lemma_build_failure_ends_deployment(
    d: DeploymentView,
    log: Seq<char>,
    e: EventView,
    later: EventView,
)
    requires
        d.phase == Phase::Building,
    ensures
        ({
            let (d1, a1) = next(d, EventView::BuildFinished { success: false, log });
            if d.custom_dockerfile {
                &&& d1.phase == Phase::Failed
                &&& a1 == ActionView::Abort(DeployErrorView::Build(log))
                &&& next(d1, later) == (d1, ActionView::Idle)
            } else {
                let (d2, a2) = next(d1, e);
                &&& a1 == ActionView::RemoveTempFile { path: d.temp_dockerfile }
                &&& d2.phase == Phase::Failed
                &&& a2 == ActionView::Abort(DeployErrorView::Build(log))
                &&& next(d2, later) == (d2, ActionView::Idle)
            }
        }),
{
}

/// Deploying a target whose image and container already exist: the
/// current image is kept under the `old` tag and `latest` is freed before
/// the build; after the build the previous container is stopped and
/// removed, and then the `old` image is removed, before the new container
/// is created. So at most one rollback image exists, and only while the
/// replacement is under way.
pub proof fn lemma_redeploy_replaces_previous(
    d: DeploymentView,
    image: Seq<char>,
    c: DeploymentView,
    id: Seq<char>,
    e: EventView,
)
    requires
        d.phase == Phase::ListingImages,
        c.phase == Phase::ListingContainers,
        c.old_tagged,
    ensures
        ({
            let n = d.target.container_name;
            let (d1, a1) = next(d, EventView::Found(Some(image)));
            let (d2, a2) = next(d1, EventView::Completed);
            &&& a1 == ActionView::TagImage { image: n, repo: n, tag: "old"@ }
            &&& a2 == ActionView::RemoveImage { reference: latest_image(n) }
            &&& d2.old_tagged
            &&& d2.phase == Phase::RemovingLatest
        }),
        ({
            let n = c.target.container_name;
            let (c1, b1) = next(c, EventView::Found(Some(id)));
            let (c2, b2) = next(c1, EventView::Completed);
            let (c3, b3) = next(c2, EventView::Completed);
            let (c4, b4) = next(c3, e);
            &&& b1 == ActionView::StopContainer { name: n }
            &&& b2 == ActionView::RemoveContainer { id }
            &&& b3 == ActionView::RemoveImage { reference: old_image(n) }
            &&& b4 == ActionView::ListNetworks { name: SHARED_NETWORK@ }
            &&& c4.phase == Phase::ListingNetworks
        }),
{
}

/// The new container's own identifier is the one inspected, and the
/// address a finished deployment reports is the resolved address of that
/// container's entry in the shared network: the IPv6 address when usable,
/// else the IPv4 one, without its prefix length, on port 80.
pub proof fn lemma_reported_address(
    d: DeploymentView,
    id: Seq<char>,
    ipv4: Option<Seq<char>>,
    ipv6: Option<Seq<char>>,
    e: EventView,
)
    requires
        d.phase == Phase::CreatingContainer,
    ensures
        ({
            let (d1, _) = next(d, EventView::Created(id));
            let (d2, _) = next(d1, EventView::Completed);
            let (d3, a3) = next(d2, EventView::Completed);
            let (d4, a4) = next(d3, EventView::Inspected(Some((ipv4, ipv6))));
            let (d5, a5) = next(d4, e);
            &&& d1.container_id == id
            &&& a3 == ActionView::InspectNetwork { network: d.network_id, container: id }
            &&& match resolved_address(ipv4, ipv6) {
                Some(ip) => a5 == ActionView::Finish(
                    DockerContainerView { ip, port: 80, build_log: d.build_log },
                ) && d5.phase == Phase::Done,
                None => a4 == ActionView::Abort(DeployErrorView::Address(d.target.container_name))
                    && d4.phase == Phase::Failed,
            }
        }),
{
}

/// A deployment configured with no memory or swap values creates its
/// container with 256 MiB of memory and 320 MiB of memory plus swap.
pub proof fn lemma_default_memory_limits(
    d: DeploymentView,
    network: Seq<char>,
    cpu_quota: Option<i64>,
    cpu_period: Option<i64>,
)
    requires
        d.limits == configured_limits(None, None, cpu_quota, cpu_period),
        d.phase == Phase::ListingNetworks,
    ensures
        next(d, EventView::Found(Some(network))).1 is CreateContainer,
        ({
            let spec = next(d, EventView::Found(Some(network))).1->CreateContainer_0;
            &&& spec.limits.memory_bytes == 256 * 1024 * 1024
            &&& spec.limits.memory_swap_bytes == 320 * 1024 * 1024
        }),
{
}

} // verus!
