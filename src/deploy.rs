//! The deployment orchestrator as a state machine. Each engine call, file
//! operation, subprocess and database query is an [`Action`] that the
//! caller performs; its outcome comes back as an [`Event`], and
//! [`Deployment::step`] decides what happens next. Steps run strictly in
//! order, nothing is retried, and the first fatal failure ends the run.

use vstd::prelude::*;
use crate::docker::{
    assignments, build_arg_flags, build_arguments, build_command, build_command_args,
    custom_dockerfile_path, dockerfile_path, environment_assignments, exact_name_filter,
    exact_name_pattern, generated_dockerfile, latest_image, latest_image_name, old_image,
    old_image_name, resolve_address, resolved_address, routing_labels, routing_labels_for,
    temp_dockerfile_file_name, temp_dockerfile_name, DeploymentTarget, DockerContainer,
    DockerContainerView, ResourceLimits, TargetView, APPLICATION_PORT, DEFAULT_NETWORK,
    SHARED_NETWORK,
};
use crate::dockerfile_templates::dockerfile_text;
use crate::text::{lemma_deep_view_push, opt_text};

verus! {

/// A value of the stored environment blob.
pub enum EnvironValue {
    Text(String),
    /// Anything but a string.
    Other,
}

impl View for EnvironValue {
    type V = Option<Seq<char>>;

    open spec fn view(&self) -> Option<Seq<char>> {
        match self {
            EnvironValue::Text(s) => Some(s@),
            EnvironValue::Other => None,
        }
    }
}

/// The environment blob stored for a project.
pub enum EnvironBlob {
    /// An object: its keys with their values, in order.
    Object(Vec<(String, EnvironValue)>),
    /// Anything but an object.
    NotObject,
}

pub enum EnvironBlobView {
    Object(Seq<(Seq<char>, Option<Seq<char>>)>),
    NotObject,
}

impl View for EnvironBlob {
    type V = EnvironBlobView;

    open spec fn view(&self) -> EnvironBlobView {
        match self {
            EnvironBlob::Object(v) => EnvironBlobView::Object(
                Seq::new(v@.len(), |i: int| (v@[i].0@, v@[i].1@)),
            ),
            EnvironBlob::NotObject => EnvironBlobView::NotObject,
        }
    }
}

/// The environment a blob stands for: its entries, when it is an object
/// whose values are all strings.
pub open spec fn environment_of(b: EnvironBlobView) -> Option<Seq<(Seq<char>, Seq<char>)>> {
    match b {
        EnvironBlobView::NotObject => None,
        EnvironBlobView::Object(es) => {
            if forall|i: int| 0 <= i < es.len() ==> (#[trigger] es[i]).1 is Some {
                Some(Seq::new(es.len(), |i: int| (es[i].0, es[i].1->0)))
            } else {
                None
            }
        },
    }
}

/// The steps of a deployment, in the order they run.
#[derive(Clone, Copy, Debug, PartialEq, Eq, Structural)]
pub enum Phase {
    FetchingEnvironment,
    ListingImages,
    TaggingOld,
    RemovingLatest,
    ProbingDockerfile,
    WritingDockerfile,
    Building,
    RemovingDockerfile,
    CheckingImage,
    ListingContainers,
    StoppingContainer,
    RemovingContainer,
    RemovingOldImage,
    ListingNetworks,
    CreatingNetwork,
    RelistingNetworks,
    CreatingContainer,
    ConnectingNetwork,
    StartingContainer,
    InspectingNetwork,
    DetachingDefault,
    Done,
    Failed,
}

/// Why a deployment failed.
pub enum DeployError {
    /// The container engine could not be reached.
    EngineConnection(String),
    /// A step failed; the phase names it.
    Engine { phase: Phase, message: String },
    /// The build exited unsuccessfully; this is its log.
    Build(String),
    /// An image or network that should exist was not found.
    ResourceLookup(String),
    /// The started container has no usable address.
    Address(String),
    /// The stored environment is not an object of strings.
    Configuration(String),
}

pub enum DeployErrorView {
    EngineConnection(Seq<char>),
    Engine { phase: Phase, message: Seq<char> },
    Build(Seq<char>),
    ResourceLookup(Seq<char>),
    Address(Seq<char>),
    Configuration(Seq<char>),
}

impl View for DeployError {
    type V = DeployErrorView;

    open spec fn view(&self) -> DeployErrorView {
        match self {
            DeployError::EngineConnection(s) => DeployErrorView::EngineConnection(s@),
            DeployError::Engine { phase, message } => DeployErrorView::Engine {
                phase: *phase,
                message: message@,
            },
            DeployError::Build(s) => DeployErrorView::Build(s@),
            DeployError::ResourceLookup(s) => DeployErrorView::ResourceLookup(s@),
            DeployError::Address(s) => DeployErrorView::Address(s@),
            DeployError::Configuration(s) => DeployErrorView::Configuration(s@),
        }
    }
}

impl DeployError {
    /// A copy of the error.
    pub fn duplicate(&self) -> (r: DeployError)
        ensures
            r@ == self@,
    {
        match self {
            DeployError::EngineConnection(s) => DeployError::EngineConnection(s.clone()),
            DeployError::Engine { phase, message } => DeployError::Engine {
                phase: *phase,
                message: message.clone(),
            },
            DeployError::Build(s) => DeployError::Build(s.clone()),
            DeployError::ResourceLookup(s) => DeployError::ResourceLookup(s.clone()),
            DeployError::Address(s) => DeployError::Address(s.clone()),
            DeployError::Configuration(s) => DeployError::Configuration(s.clone()),
        }
    }
}

/// The restart policy of a deployed container.
#[derive(Clone, Copy, Debug, PartialEq, Eq, Structural)]
pub enum RestartPolicy {
    OnFailure,
}

/// Everything the engine is told when the container is created.
pub struct ContainerSpec {
    pub name: String,
    pub image: String,
    /// `key=value` strings.
    pub env: Vec<String>,
    pub labels: Vec<(String, String)>,
    pub limits: ResourceLimits,
    pub restart_policy: RestartPolicy,
}

pub struct ContainerSpecView {
    pub name: Seq<char>,
    pub image: Seq<char>,
    pub env: Seq<Seq<char>>,
    pub labels: Seq<(Seq<char>, Seq<char>)>,
    pub limits: ResourceLimits,
    pub restart_policy: RestartPolicy,
}

impl View for ContainerSpec {
    type V = ContainerSpecView;

    open spec fn view(&self) -> ContainerSpecView {
        ContainerSpecView {
            name: self.name@,
            image: self.image@,
            env: self.env.deep_view(),
            labels: self.labels.deep_view(),
            limits: self.limits,
            restart_policy: self.restart_policy,
        }
    }
}

/// The address fields of a container's entry in an inspected network.
pub struct Endpoint {
    pub ipv4: Option<String>,
    pub ipv6: Option<String>,
}

/// The outcome of an action.
pub enum Event {
    /// The stored environment blob.
    Environment(EnvironBlob),
    /// A listing: the identifier of the first match, if any.
    Found(Option<String>),
    /// The action succeeded and has nothing to report.
    Completed,
    /// A create found the resource already there.
    Conflict,
    /// The action failed, with the reason.
    Failed(String),
    /// Whether the probed file exists.
    Probed(bool),
    /// The temporary file was written at this path.
    Written(String),
    /// The build ran: whether it succeeded, and its log.
    BuildFinished { success: bool, log: String },
    /// The container was created with this identifier.
    Created(String),
    /// The inspected network's entry for the container, if it has one.
    Inspected(Option<Endpoint>),
}

pub enum EventView {
    Environment(EnvironBlobView),
    Found(Option<Seq<char>>),
    Completed,
    Conflict,
    Failed(Seq<char>),
    Probed(bool),
    Written(Seq<char>),
    BuildFinished { success: bool, log: Seq<char> },
    Created(Seq<char>),
    Inspected(Option<(Option<Seq<char>>, Option<Seq<char>>)>),
}

impl View for Event {
    type V = EventView;

    open spec fn view(&self) -> EventView {
        match self {
            Event::Environment(b) => EventView::Environment(b@),
            Event::Found(o) => EventView::Found(opt_text(*o)),
            Event::Completed => EventView::Completed,
            Event::Conflict => EventView::Conflict,
            Event::Failed(m) => EventView::Failed(m@),
            Event::Probed(b) => EventView::Probed(*b),
            Event::Written(p) => EventView::Written(p@),
            Event::BuildFinished { success, log } => EventView::BuildFinished {
                success: *success,
                log: log@,
            },
            Event::Created(id) => EventView::Created(id@),
            Event::Inspected(o) => EventView::Inspected(
                match o {
                    Some(ep) => Some((opt_text(ep.ipv4), opt_text(ep.ipv6))),
                    None => None,
                },
            ),
        }
    }
}

/// What the caller is to do next.
pub enum Action {
    /// Query the environment blob stored for the project.
    FetchEnvironment { owner: String, project: String },
    /// List images whose reference is exactly `reference`.
    ListImages { reference: String },
    /// Tag the image `image` as `repo:tag`.
    TagImage { image: String, repo: String, tag: String },
    /// Remove the image `reference`.
    RemoveImage { reference: String },
    /// Check whether a file exists at `path`.
    ProbeFile { path: String },
    /// Write `content` to a new file named `file_name` in the temporary
    /// directory, and report its path.
    WriteTempFile { file_name: String, content: String },
    /// Run the image build command with these arguments, capturing its
    /// diagnostic output.
    RunBuild { args: Vec<String> },
    /// Remove the temporary file at `path`.
    RemoveTempFile { path: String },
    /// List containers, in any state, whose name matches `name_pattern`.
    ListContainers { name_pattern: String },
    StopContainer { name: String },
    RemoveContainer { id: String },
    /// List networks named `name`.
    ListNetworks { name: String },
    CreateNetwork { name: String },
    CreateContainer(ContainerSpec),
    /// Connect the container named `container` to the network `network`.
    ConnectNetwork { network: String, container: String },
    StartContainer { name: String },
    /// Inspect the network `network` in detail and report the entry of the
    /// container `container`.
    InspectNetwork { network: String, container: String },
    /// Forcibly disconnect the container from the network.
    DisconnectNetwork { network: String, container: String },
    /// The deployment succeeded.
    Finish(DockerContainer),
    /// The deployment failed.
    Abort(DeployError),
    /// The deployment is over; there is nothing more to do.
    Idle,
}

pub enum ActionView {
    FetchEnvironment { owner: Seq<char>, project: Seq<char> },
    ListImages { reference: Seq<char> },
    TagImage { image: Seq<char>, repo: Seq<char>, tag: Seq<char> },
    RemoveImage { reference: Seq<char> },
    ProbeFile { path: Seq<char> },
    WriteTempFile { file_name: Seq<char>, content: Seq<char> },
    RunBuild { args: Seq<Seq<char>> },
    RemoveTempFile { path: Seq<char> },
    ListContainers { name_pattern: Seq<char> },
    StopContainer { name: Seq<char> },
    RemoveContainer { id: Seq<char> },
    ListNetworks { name: Seq<char> },
    CreateNetwork { name: Seq<char> },
    CreateContainer(ContainerSpecView),
    ConnectNetwork { network: Seq<char>, container: Seq<char> },
    StartContainer { name: Seq<char> },
    InspectNetwork { network: Seq<char>, container: Seq<char> },
    DisconnectNetwork { network: Seq<char>, container: Seq<char> },
    Finish(DockerContainerView),
    Abort(DeployErrorView),
    Idle,
}

impl View for Action {
    type V = ActionView;

    open spec fn view(&self) -> ActionView {
        match self {
            Action::FetchEnvironment { owner, project } => ActionView::FetchEnvironment {
                owner: owner@,
                project: project@,
            },
            Action::ListImages { reference } => ActionView::ListImages { reference: reference@ },
            Action::TagImage { image, repo, tag } => ActionView::TagImage {
                image: image@,
                repo: repo@,
                tag: tag@,
            },
            Action::RemoveImage { reference } => ActionView::RemoveImage { reference: reference@ },
            Action::ProbeFile { path } => ActionView::ProbeFile { path: path@ },
            Action::WriteTempFile { file_name, content } => ActionView::WriteTempFile {
                file_name: file_name@,
                content: content@,
            },
            Action::RunBuild { args } => ActionView::RunBuild { args: args.deep_view() },
            Action::RemoveTempFile { path } => ActionView::RemoveTempFile { path: path@ },
            Action::ListContainers { name_pattern } => ActionView::ListContainers {
                name_pattern: name_pattern@,
            },
            Action::StopContainer { name } => ActionView::StopContainer { name: name@ },
            Action::RemoveContainer { id } => ActionView::RemoveContainer { id: id@ },
            Action::ListNetworks { name } => ActionView::ListNetworks { name: name@ },
            Action::CreateNetwork { name } => ActionView::CreateNetwork { name: name@ },
            Action::CreateContainer(spec) => ActionView::CreateContainer(spec@),
            Action::ConnectNetwork { network, container } => ActionView::ConnectNetwork {
                network: network@,
                container: container@,
            },
            Action::StartContainer { name } => ActionView::StartContainer { name: name@ },
            Action::InspectNetwork { network, container } => ActionView::InspectNetwork {
                network: network@,
                container: container@,
            },
            Action::DisconnectNetwork { network, container } => ActionView::DisconnectNetwork {
                network: network@,
                container: container@,
            },
            Action::Finish(c) => ActionView::Finish(c@),
            Action::Abort(e) => ActionView::Abort(e@),
            Action::Idle => ActionView::Idle,
        }
    }
}

/// A deployment in progress.
pub struct Deployment {
    pub target: DeploymentTarget,
    pub limits: ResourceLimits,
    /// The base domain the container is routed under.
    pub domain: String,
    /// Distinguishes this build's temporary files from those of any other.
    pub build_id: String,
    pub phase: Phase,
    /// The project's environment, once fetched.
    pub environment: Vec<(String, String)>,
    /// Whether the source tree holds its own Dockerfile.
    pub custom_dockerfile: bool,
    /// Whether the previous image was kept under the `old` tag.
    pub old_tagged: bool,
    /// Where the generated Dockerfile was written.
    pub temp_dockerfile: String,
    pub build_log: String,
    /// The identifier of the container being replaced.
    pub previous_container: String,
    pub network_id: String,
    pub container_id: String,
    pub ip: String,
    /// The error that ended, or is about to end, the deployment.
    pub failure: Option<DeployError>,
    /// Failures of best-effort steps, which do not stop the deployment.
    pub warnings: Vec<String>,
}

pub struct DeploymentView {
    pub target: TargetView,
    pub limits: ResourceLimits,
    pub domain: Seq<char>,
    pub build_id: Seq<char>,
    pub phase: Phase,
    pub environment: Seq<(Seq<char>, Seq<char>)>,
    pub custom_dockerfile: bool,
    pub old_tagged: bool,
    pub temp_dockerfile: Seq<char>,
    pub build_log: Seq<char>,
    pub previous_container: Seq<char>,
    pub network_id: Seq<char>,
    pub container_id: Seq<char>,
    pub ip: Seq<char>,
    pub failure: Option<DeployErrorView>,
    pub warnings: Seq<Seq<char>>,
}

impl View for Deployment {
    type V = DeploymentView;

    open spec fn view(&self) -> DeploymentView {
        DeploymentView {
            target: self.target@,
            limits: self.limits,
            domain: self.domain@,
            build_id: self.build_id@,
            phase: self.phase,
            environment: self.environment.deep_view(),
            custom_dockerfile: self.custom_dockerfile,
            old_tagged: self.old_tagged,
            temp_dockerfile: self.temp_dockerfile@,
            build_log: self.build_log@,
            previous_container: self.previous_container@,
            network_id: self.network_id@,
            container_id: self.container_id@,
            ip: self.ip@,
            failure: match self.failure {
                Some(e) => Some(e@),
                None => None,
            },
            warnings: self.warnings.deep_view(),
        }
    }
}

/// A deployment that has not started: nothing fetched, built or found yet.
pub open spec fn initial(
    target: TargetView,
    limits: ResourceLimits,
    domain: Seq<char>,
    build_id: Seq<char>,
) -> DeploymentView {
    DeploymentView {
        target,
        limits,
        domain,
        build_id,
        phase: Phase::FetchingEnvironment,
        environment: Seq::empty(),
        custom_dockerfile: false,
        old_tagged: false,
        temp_dockerfile: Seq::empty(),
        build_log: Seq::empty(),
        previous_container: Seq::empty(),
        network_id: Seq::empty(),
        container_id: Seq::empty(),
        ip: Seq::empty(),
        failure: None,
        warnings: Seq::empty(),
    }
}

/// The first action of a deployment: fetch the project's environment.
pub open spec fn first_action(target: TargetView) -> ActionView {
    ActionView::FetchEnvironment { owner: target.owner, project: target.project_name }
}

/// The deployment ends with `err`.
pub open spec fn fail(d: DeploymentView, err: DeployErrorView) -> (DeploymentView, ActionView) {
    (DeploymentView { phase: Phase::Failed, failure: Some(err), ..d }, ActionView::Abort(err))
}

/// The text an event gives as the reason a step failed.
pub open spec fn event_message(e: EventView) -> Seq<char> {
    match e {
        EventView::Failed(m) => m,
        _ => "unexpected response"@,
    }
}

/// The error for a step that did not get the outcome it needs.
pub open spec fn step_error(d: DeploymentView, e: EventView) -> DeployErrorView {
    DeployErrorView::Engine { phase: d.phase, message: event_message(e) }
}

/// The warnings after a best-effort step: one more unless it completed.
pub open spec fn noted(d: DeploymentView, e: EventView) -> Seq<Seq<char>> {
    match e {
        EventView::Completed => d.warnings,
        _ => d.warnings.push(event_message(e)),
    }
}

/// Move to `phase` and do `a`.
pub open spec fn go(d: DeploymentView, phase: Phase, a: ActionView) -> (DeploymentView, ActionView) {
    (DeploymentView { phase, ..d }, a)
}

/// Check for a Dockerfile in the source tree.
pub open spec fn probe_action(d: DeploymentView) -> ActionView {
    ActionView::ProbeFile { path: custom_dockerfile_path(d.target.container_src) }
}

/// List images holding the container's current tag.
pub open spec fn list_latest_action(d: DeploymentView) -> ActionView {
    ActionView::ListImages { reference: latest_image(d.target.container_name) }
}

/// List the shared network.
pub open spec fn list_network_action() -> ActionView {
    ActionView::ListNetworks { name: SHARED_NETWORK@ }
}

/// Create the container from the current image, with the environment,
/// routing labels and resource limits.
pub open spec fn create_action(d: DeploymentView) -> ActionView {
    let n = d.target.container_name;
    ActionView::CreateContainer(
        ContainerSpecView {
            name: n,
            image: latest_image(n),
            env: assignments(d.environment),
            labels: routing_labels(n, d.domain),
            limits: d.limits,
            restart_policy: RestartPolicy::OnFailure,
        },
    )
}

/// Build from the tenant's own Dockerfile, with one build argument per
/// environment entry.
pub open spec fn custom_build_action(d: DeploymentView) -> ActionView {
    let src = d.target.container_src;
    ActionView::RunBuild {
        args: build_command(
            d.limits,
            d.target.container_name,
            custom_dockerfile_path(src),
            build_arg_flags(d.environment),
            src,
        ),
    }
}

/// Build from the generated Dockerfile written at `path`.
pub open spec fn generated_build_action(d: DeploymentView, path: Seq<char>) -> ActionView {
    ActionView::RunBuild {
        args: build_command(
            d.limits,
            d.target.container_name,
            path,
            Seq::empty(),
            d.target.container_src,
        ),
    }
}

/// Write the generated Dockerfile to a temporary file of its own.
pub open spec fn write_action(d: DeploymentView) -> ActionView {
    ActionView::WriteTempFile {
        file_name: temp_dockerfile_name(d.target.container_name, d.build_id),
        content: dockerfile_text(assignments(d.environment)),
    }
}

/// Before the build: fetch the environment, and free the `latest` tag,
/// keeping the previous image as `old`.
pub open spec fn next_prepare(d: DeploymentView, e: EventView) -> (DeploymentView, ActionView) {
    let n = d.target.container_name;
    match d.phase {
        Phase::FetchingEnvironment => match e {
            EventView::Environment(blob) => match environment_of(blob) {
                Some(env) => (
                    DeploymentView { phase: Phase::ListingImages, environment: env, ..d },
                    list_latest_action(d),
                ),
                None => fail(d, DeployErrorView::Configuration(n)),
            },
            _ => fail(d, step_error(d, e)),
        },
        Phase::ListingImages => match e {
            EventView::Found(Some(_)) => go(
                d,
                Phase::TaggingOld,
                ActionView::TagImage { image: n, repo: n, tag: "old"@ },
            ),
            EventView::Found(None) => go(d, Phase::ProbingDockerfile, probe_action(d)),
            _ => fail(d, step_error(d, e)),
        },
        Phase::TaggingOld => match e {
            EventView::Completed => (
                DeploymentView { phase: Phase::RemovingLatest, old_tagged: true, ..d },
                ActionView::RemoveImage { reference: latest_image(n) },
            ),
            _ => fail(d, step_error(d, e)),
        },
        _ => match e {
            EventView::Completed => go(d, Phase::ProbingDockerfile, probe_action(d)),
            _ => fail(d, step_error(d, e)),
        },
    }
}

/// The build: choose the Dockerfile, run the build, remove any temporary
/// Dockerfile whatever the outcome, and check that the image is there.
pub open spec fn next_build(d: DeploymentView, e: EventView) -> (DeploymentView, ActionView) {
    let n = d.target.container_name;
    match d.phase {
        Phase::ProbingDockerfile => match e {
            EventView::Probed(true) => (
                DeploymentView { phase: Phase::Building, custom_dockerfile: true, ..d },
                custom_build_action(d),
            ),
            EventView::Probed(false) => (
                DeploymentView { phase: Phase::WritingDockerfile, custom_dockerfile: false, ..d },
                write_action(d),
            ),
            _ => fail(d, step_error(d, e)),
        },
        Phase::WritingDockerfile => match e {
            EventView::Written(path) => (
                DeploymentView { phase: Phase::Building, temp_dockerfile: path, ..d },
                generated_build_action(d, path),
            ),
            _ => fail(d, step_error(d, e)),
        },
        Phase::Building => match e {
            EventView::BuildFinished { success, log } => if d.custom_dockerfile {
                if success {
                    (
                        DeploymentView { phase: Phase::CheckingImage, build_log: log, ..d },
                        list_latest_action(d),
                    )
                } else {
                    fail(DeploymentView { build_log: log, ..d }, DeployErrorView::Build(log))
                }
            } else {
                (
                    DeploymentView {
                        phase: Phase::RemovingDockerfile,
                        build_log: log,
                        failure: if success {
                            None
                        } else {
                            Some(DeployErrorView::Build(log))
                        },
                        ..d
                    },
                    ActionView::RemoveTempFile { path: d.temp_dockerfile },
                )
            },
            _ => if d.custom_dockerfile {
                fail(d, step_error(d, e))
            } else {
                (
                    DeploymentView {
                        phase: Phase::RemovingDockerfile,
                        failure: Some(step_error(d, e)),
                        ..d
                    },
                    ActionView::RemoveTempFile { path: d.temp_dockerfile },
                )
            },
        },
        Phase::RemovingDockerfile => match d.failure {
            Some(err) => (
                DeploymentView { phase: Phase::Failed, warnings: noted(d, e), ..d },
                ActionView::Abort(err),
            ),
            None => (
                DeploymentView { phase: Phase::CheckingImage, warnings: noted(d, e), ..d },
                list_latest_action(d),
            ),
        },
        _ => match e {
            EventView::Found(Some(_)) => go(
                d,
                Phase::ListingContainers,
                ActionView::ListContainers { name_pattern: exact_name_pattern(n) },
            ),
            EventView::Found(None) => fail(d, DeployErrorView::ResourceLookup(latest_image(n))),
            _ => fail(d, step_error(d, e)),
        },
    }
}

/// Replace the previous container: stop it, remove it, then remove the
/// rollback image if one was kept.
pub open spec fn next_replace(d: DeploymentView, e: EventView) -> (DeploymentView, ActionView) {
    let n = d.target.container_name;
    match d.phase {
        Phase::ListingContainers => match e {
            EventView::Found(Some(id)) => (
                DeploymentView { phase: Phase::StoppingContainer, previous_container: id, ..d },
                ActionView::StopContainer { name: n },
            ),
            EventView::Found(None) => go(d, Phase::ListingNetworks, list_network_action()),
            _ => fail(d, step_error(d, e)),
        },
        Phase::StoppingContainer => match e {
            EventView::Completed => go(
                d,
                Phase::RemovingContainer,
                ActionView::RemoveContainer { id: d.previous_container },
            ),
            _ => fail(d, step_error(d, e)),
        },
        Phase::RemovingContainer => match e {
            EventView::Completed => if d.old_tagged {
                go(d, Phase::RemovingOldImage, ActionView::RemoveImage { reference: old_image(n) })
            } else {
                go(d, Phase::ListingNetworks, list_network_action())
            },
            _ => fail(d, step_error(d, e)),
        },
        _ => (
            DeploymentView { phase: Phase::ListingNetworks, warnings: noted(d, e), ..d },
            list_network_action(),
        ),
    }
}

/// Make sure the shared network exists, then create the container.
pub open spec fn next_network(d: DeploymentView, e: EventView) -> (DeploymentView, ActionView) {
    match d.phase {
        Phase::ListingNetworks => match e {
            EventView::Found(Some(id)) => (
                DeploymentView { phase: Phase::CreatingContainer, network_id: id, ..d },
                create_action(d),
            ),
            EventView::Found(None) => go(
                d,
                Phase::CreatingNetwork,
                ActionView::CreateNetwork { name: SHARED_NETWORK@ },
            ),
            _ => fail(d, step_error(d, e)),
        },
        Phase::CreatingNetwork => match e {
            EventView::Completed => go(d, Phase::RelistingNetworks, list_network_action()),
            EventView::Conflict => go(d, Phase::RelistingNetworks, list_network_action()),
            _ => fail(d, step_error(d, e)),
        },
        _ => match e {
            EventView::Found(Some(id)) => (
                DeploymentView { phase: Phase::CreatingContainer, network_id: id, ..d },
                create_action(d),
            ),
            EventView::Found(None) => fail(d, DeployErrorView::ResourceLookup(SHARED_NETWORK@)),
            _ => fail(d, step_error(d, e)),
        },
    }
}

/// Start the container on the shared network, resolve its address, and
/// detach it from the default network.
pub open spec fn next_start(d: DeploymentView, e: EventView) -> (DeploymentView, ActionView) {
    let n = d.target.container_name;
    match d.phase {
        Phase::CreatingContainer => match e {
            EventView::Created(id) => (
                DeploymentView { phase: Phase::ConnectingNetwork, container_id: id, ..d },
                ActionView::ConnectNetwork { network: SHARED_NETWORK@, container: n },
            ),
            _ => fail(d, step_error(d, e)),
        },
        Phase::ConnectingNetwork => match e {
            EventView::Completed => go(
                d,
                Phase::StartingContainer,
                ActionView::StartContainer { name: n },
            ),
            _ => fail(d, step_error(d, e)),
        },
        Phase::StartingContainer => match e {
            EventView::Completed => go(
                d,
                Phase::InspectingNetwork,
                ActionView::InspectNetwork { network: d.network_id, container: d.container_id },
            ),
            _ => fail(d, step_error(d, e)),
        },
        Phase::InspectingNetwork => match e {
            EventView::Inspected(Some(ep)) => match resolved_address(ep.0, ep.1) {
                Some(ip) => (
                    DeploymentView { phase: Phase::DetachingDefault, ip, ..d },
                    ActionView::DisconnectNetwork { network: DEFAULT_NETWORK@, container: n },
                ),
                None => fail(d, DeployErrorView::Address(n)),
            },
            EventView::Inspected(None) => fail(d, DeployErrorView::Address(n)),
            _ => fail(d, step_error(d, e)),
        },
        _ => (
            DeploymentView { phase: Phase::Done, warnings: noted(d, e), ..d },
            ActionView::Finish(
                DockerContainerView { ip: d.ip, port: APPLICATION_PORT, build_log: d.build_log },
            ),
        ),
    }
}

/// What a deployment in state `d` does on event `e`: its next state and
/// the next action.
pub open spec fn next(d: DeploymentView, e: EventView) -> (DeploymentView, ActionView) {
    match d.phase {
        Phase::FetchingEnvironment | Phase::ListingImages | Phase::TaggingOld
        | Phase::RemovingLatest => next_prepare(d, e),
        Phase::ProbingDockerfile | Phase::WritingDockerfile | Phase::Building
        | Phase::RemovingDockerfile | Phase::CheckingImage => next_build(d, e),
        Phase::ListingContainers | Phase::StoppingContainer | Phase::RemovingContainer
        | Phase::RemovingOldImage => next_replace(d, e),
        Phase::ListingNetworks | Phase::CreatingNetwork | Phase::RelistingNetworks => next_network(
            d,
            e,
        ),
        Phase::CreatingContainer | Phase::ConnectingNetwork | Phase::StartingContainer
        | Phase::InspectingNetwork | Phase::DetachingDefault => next_start(d, e),
        Phase::Done | Phase::Failed => (d, ActionView::Idle),
    }
}

/// The environment held by a blob, when it is an object of strings.
pub fn environment_from_blob(blob: EnvironBlob) -> (r: Option<Vec<(String, String)>>)
    ensures
        r is Some ==> environment_of(blob@) == Some(r->0.deep_view()),
        r is None ==> environment_of(blob@) is None,
{
    let ghost b = blob@;
    match blob {
        EnvironBlob::NotObject => None,
        EnvironBlob::Object(entries) => {
            let ghost es = b->Object_0;
            let mut out: Vec<(String, String)> = Vec::new();
            let n = entries.len();
            let mut i: usize = 0;
            while i < n
                invariant
                    n == entries.len(),
                    b == blob@,
                    b == EnvironBlobView::Object(es),
                    es == Seq::new(entries@.len(), |j: int| (entries@[j].0@, entries@[j].1@)),
                    0 <= i <= n,
                    out@.len() == i,
                    forall|j: int| 0 <= j < i ==> (#[trigger] es[j]).1 is Some,
                    out.deep_view() == Seq::new(i as nat, |j: int| (es[j].0, es[j].1->0)),
                decreases n - i,
            {
                assert(es[i as int] == (entries@[i as int].0@, entries@[i as int].1@));
                match &entries[i].1 {
                    EnvironValue::Text(v) => {
                        let entry = (entries[i].0.clone(), v.clone());
                        let ghost before = out@;
                        out.push(entry);
                        proof {
                            lemma_deep_view_push(before, out@, entry);
                            assert(entries@[i as int].1@ == Some(v@));
                            assert(out.deep_view() =~= Seq::new(
                                (i + 1) as nat,
                                |j: int| (es[j].0, es[j].1->0),
                            ));
                        }
                    },
                    EnvironValue::Other => {
                        assert(entries@[i as int].1@ is None);
                        assert(es[i as int].1 is None);
                        assert(environment_of(b) is None);
                        return None;
                    },
                }
                i = i + 1;
            }
            assert(out.deep_view() =~= Seq::new(es.len(), |j: int| (es[j].0, es[j].1->0)));
            Some(out)
        },
    }
}

/// The reason an event gives for a failed step.
fn message_of(e: &Event) -> (r: String)
    ensures
        r@ == event_message(e@),
{
    match e {
        Event::Failed(m) => m.clone(),
        _ => String::from_str("unexpected response"),
    }
}

impl Deployment {
    /// A deployment of `target` that has not started, and its first action.
    pub fn new(target: DeploymentTarget, limits: ResourceLimits, domain: String, build_id: String) -> (r: (
        Deployment,
        Action,
    ))
        ensures
            r.0@ == initial(target@, limits, domain@, build_id@),
            r.1@ == first_action(target@),
    {
        let action = Action::FetchEnvironment {
            owner: target.owner.clone(),
            project: target.project_name.clone(),
        };
        let d = Deployment {
            target,
            limits,
            domain,
            build_id,
            phase: Phase::FetchingEnvironment,
            environment: Vec::new(),
            custom_dockerfile: false,
            old_tagged: false,
            temp_dockerfile: String::new(),
            build_log: String::new(),
            previous_container: String::new(),
            network_id: String::new(),
            container_id: String::new(),
            ip: String::new(),
            failure: None,
            warnings: Vec::new(),
        };
        assert(d@.environment =~= Seq::<(Seq<char>, Seq<char>)>::empty());
        assert(d@.warnings =~= Seq::<Seq<char>>::empty());
        (d, action)
    }

    fn fail(self, err: DeployError) -> (r: (Deployment, Action))
        ensures
            (r.0@, r.1@) == fail(self@, err@),
    {
        let copy = err.duplicate();
        let mut d = self;
        d.phase = Phase::Failed;
        d.failure = Some(err);
        (d, Action::Abort(copy))
    }

    fn step_failed(self, e: &Event) -> (r: (Deployment, Action))
        ensures
            (r.0@, r.1@) == fail(self@, step_error(self@, e@)),
    {
        let err = DeployError::Engine { phase: self.phase, message: message_of(e) };
        self.fail(err)
    }

    fn go(self, phase: Phase, a: Action) -> (r: (Deployment, Action))
        ensures
            (r.0@, r.1@) == go(self@, phase, a@),
    {
        let mut d = self;
        d.phase = phase;
        (d, a)
    }

    fn note(&mut self, e: &Event)
        ensures
            final(self)@ == (DeploymentView { warnings: noted(old(self)@, e@), ..old(self)@ }),
    {
        match e {
            Event::Completed => {},
            _ => {
                let m = message_of(e);
                let ghost before = self.warnings@;
                self.warnings.push(m);
                proof {
                    lemma_deep_view_push(before, self.warnings@, m);
                }
            },
        }
    }

    fn name(&self) -> (r: String)
        ensures
            r@ == self.target.container_name@,
    {
        self.target.container_name.clone()
    }

    fn probe(&self) -> (r: Action)
        ensures
            r@ == probe_action(self@),
    {
        Action::ProbeFile { path: dockerfile_path(self.target.container_src.as_str()) }
    }

    fn list_latest(&self) -> (r: Action)
        ensures
            r@ == list_latest_action(self@),
    {
        Action::ListImages { reference: latest_image_name(self.target.container_name.as_str()) }
    }

    fn create(&self) -> (r: Action)
        ensures
            r@ == create_action(self@),
    {
        let n = self.target.container_name.as_str();
        Action::CreateContainer(
            ContainerSpec {
                name: self.name(),
                image: latest_image_name(n),
                env: environment_assignments(&self.environment),
                labels: routing_labels_for(n, self.domain.as_str()),
                limits: self.limits,
                restart_policy: RestartPolicy::OnFailure,
            },
        )
    }

    fn custom_build(&self) -> (r: Action)
        ensures
            r@ == custom_build_action(self@),
    {
        let src = self.target.container_src.as_str();
        let dockerfile = dockerfile_path(src);
        let extra = build_arguments(&self.environment);
        Action::RunBuild {
            args: build_command_args(
                &self.limits,
                self.target.container_name.as_str(),
                dockerfile.as_str(),
                extra,
                src,
            ),
        }
    }

    fn generated_build(&self, path: &str) -> (r: Action)
        ensures
            r@ == generated_build_action(self@, path@),
    {
        let extra: Vec<String> = Vec::new();
        assert(extra.deep_view() =~= Seq::<Seq<char>>::empty());
        Action::RunBuild {
            args: build_command_args(
                &self.limits,
                self.target.container_name.as_str(),
                path,
                extra,
                self.target.container_src.as_str(),
            ),
        }
    }

    fn write(&self) -> (r: Action)
        ensures
            r@ == write_action(self@),
    {
        Action::WriteTempFile {
            file_name: temp_dockerfile_file_name(
                self.target.container_name.as_str(),
                self.build_id.as_str(),
            ),
            content: generated_dockerfile(&self.environment),
        }
    }

    fn list_network() -> (r: Action)
        ensures
            r@ == list_network_action(),
    {
        Action::ListNetworks { name: String::from_str(SHARED_NETWORK) }
    }

    fn step_prepare(self, e: Event) -> (r: (Deployment, Action))
        requires
            self.phase == Phase::FetchingEnvironment || self.phase == Phase::ListingImages
                || self.phase == Phase::TaggingOld || self.phase == Phase::RemovingLatest,
        ensures
            (r.0@, r.1@) == next_prepare(self@, e@),
    {
        match self.phase {
            Phase::FetchingEnvironment => match e {
                Event::Environment(blob) => match environment_from_blob(blob) {
                    Some(env) => {
                        let a = self.list_latest();
                        let mut d = self;
                        d.phase = Phase::ListingImages;
                        d.environment = env;
                        (d, a)
                    },
                    None => {
                        let err = DeployError::Configuration(self.name());
                        self.fail(err)
                    },
                },
                _ => self.step_failed(&e),
            },
            Phase::ListingImages => match e {
                Event::Found(Some(_)) => {
                    let a = Action::TagImage {
                        image: self.name(),
                        repo: self.name(),
                        tag: String::from_str("old"),
                    };
                    self.go(Phase::TaggingOld, a)
                },
                Event::Found(None) => {
                    let a = self.probe();
                    self.go(Phase::ProbingDockerfile, a)
                },
                _ => self.step_failed(&e),
            },
            Phase::TaggingOld => match e {
                Event::Completed => {
                    let a = Action::RemoveImage {
                        reference: latest_image_name(self.target.container_name.as_str()),
                    };
                    let mut d = self;
                    d.phase = Phase::RemovingLatest;
                    d.old_tagged = true;
                    (d, a)
                },
                _ => self.step_failed(&e),
            },
            _ => match e {
                Event::Completed => {
                    let a = self.probe();
                    self.go(Phase::ProbingDockerfile, a)
                },
                _ => self.step_failed(&e),
            },
        }
    }

    fn step_build(self, e: Event) -> (r: (Deployment, Action))
        requires
            self.phase == Phase::ProbingDockerfile || self.phase == Phase::WritingDockerfile
                || self.phase == Phase::Building || self.phase == Phase::RemovingDockerfile
                || self.phase == Phase::CheckingImage,
        ensures
            (r.0@, r.1@) == next_build(self@, e@),
    {
        match self.phase {
            Phase::ProbingDockerfile => match e {
                Event::Probed(true) => {
                    let a = self.custom_build();
                    let mut d = self;
                    d.phase = Phase::Building;
                    d.custom_dockerfile = true;
                    (d, a)
                },
                Event::Probed(false) => {
                    let a = self.write();
                    let mut d = self;
                    d.phase = Phase::WritingDockerfile;
                    d.custom_dockerfile = false;
                    (d, a)
                },
                _ => self.step_failed(&e),
            },
            Phase::WritingDockerfile => match e {
                Event::Written(path) => {
                    let a = self.generated_build(path.as_str());
                    let mut d = self;
                    d.phase = Phase::Building;
                    d.temp_dockerfile = path;
                    (d, a)
                },
                _ => self.step_failed(&e),
            },
            Phase::Building => match e {
                Event::BuildFinished { success, log } => {
                    if self.custom_dockerfile {
                        if success {
                            let a = self.list_latest();
                            let mut d = self;
                            d.phase = Phase::CheckingImage;
                            d.build_log = log;
                            (d, a)
                        } else {
                            let err = DeployError::Build(log.clone());
                            let mut d = self;
                            d.build_log = log;
                            d.fail(err)
                        }
                    } else {
                        let a = Action::RemoveTempFile { path: self.temp_dockerfile.clone() };
                        let failure = if success {
                            None
                        } else {
                            Some(DeployError::Build(log.clone()))
                        };
                        let mut d = self;
                        d.phase = Phase::RemovingDockerfile;
                        d.build_log = log;
                        d.failure = failure;
                        (d, a)
                    }
                },
                _ => {
                    if self.custom_dockerfile {
                        self.step_failed(&e)
                    } else {
                        let a = Action::RemoveTempFile { path: self.temp_dockerfile.clone() };
                        let err = DeployError::Engine { phase: self.phase, message: message_of(&e) };
                        let mut d = self;
                        d.phase = Phase::RemovingDockerfile;
                        d.failure = Some(err);
                        (d, a)
                    }
                },
            },
            Phase::RemovingDockerfile => {
                let mut d = self;
                d.note(&e);
                match &d.failure {
                    Some(err) => {
                        let a = Action::Abort(err.duplicate());
                        d.phase = Phase::Failed;
                        (d, a)
                    },
                    None => {
                        let a = d.list_latest();
                        d.phase = Phase::CheckingImage;
                        (d, a)
                    },
                }
            },
            _ => match e {
                Event::Found(Some(_)) => {
                    let a = Action::ListContainers {
                        name_pattern: exact_name_filter(self.target.container_name.as_str()),
                    };
                    self.go(Phase::ListingContainers, a)
                },
                Event::Found(None) => {
                    let err = DeployError::ResourceLookup(
                        latest_image_name(self.target.container_name.as_str()),
                    );
                    self.fail(err)
                },
                _ => self.step_failed(&e),
            },
        }
    }

    fn step_replace(self, e: Event) -> (r: (Deployment, Action))
        requires
            self.phase == Phase::ListingContainers || self.phase == Phase::StoppingContainer
                || self.phase == Phase::RemovingContainer || self.phase == Phase::RemovingOldImage,
        ensures
            (r.0@, r.1@) == next_replace(self@, e@),
    {
        match self.phase {
            Phase::ListingContainers => match e {
                Event::Found(Some(id)) => {
                    let a = Action::StopContainer { name: self.name() };
                    let mut d = self;
                    d.phase = Phase::StoppingContainer;
                    d.previous_container = id;
                    (d, a)
                },
                Event::Found(None) => self.go(Phase::ListingNetworks, Self::list_network()),
                _ => self.step_failed(&e),
            },
            Phase::StoppingContainer => match e {
                Event::Completed => {
                    let a = Action::RemoveContainer { id: self.previous_container.clone() };
                    self.go(Phase::RemovingContainer, a)
                },
                _ => self.step_failed(&e),
            },
            Phase::RemovingContainer => match e {
                Event::Completed => {
                    if self.old_tagged {
                        let a = Action::RemoveImage {
                            reference: old_image_name(self.target.container_name.as_str()),
                        };
                        self.go(Phase::RemovingOldImage, a)
                    } else {
                        self.go(Phase::ListingNetworks, Self::list_network())
                    }
                },
                _ => self.step_failed(&e),
            },
            _ => {
                let mut d = self;
                d.note(&e);
                d.go(Phase::ListingNetworks, Self::list_network())
            },
        }
    }

    fn step_network(self, e: Event) -> (r: (Deployment, Action))
        requires
            self.phase == Phase::ListingNetworks || self.phase == Phase::CreatingNetwork
                || self.phase == Phase::RelistingNetworks,
        ensures
            (r.0@, r.1@) == next_network(self@, e@),
    {
        match self.phase {
            Phase::ListingNetworks => match e {
                Event::Found(Some(id)) => {
                    let a = self.create();
                    let mut d = self;
                    d.phase = Phase::CreatingContainer;
                    d.network_id = id;
                    (d, a)
                },
                Event::Found(None) => {
                    let a = Action::CreateNetwork { name: String::from_str(SHARED_NETWORK) };
                    self.go(Phase::CreatingNetwork, a)
                },
                _ => self.step_failed(&e),
            },
            Phase::CreatingNetwork => match e {
                Event::Completed => self.go(Phase::RelistingNetworks, Self::list_network()),
                Event::Conflict => self.go(Phase::RelistingNetworks, Self::list_network()),
                _ => self.step_failed(&e),
            },
            _ => match e {
                Event::Found(Some(id)) => {
                    let a = self.create();
                    let mut d = self;
                    d.phase = Phase::CreatingContainer;
                    d.network_id = id;
                    (d, a)
                },
                Event::Found(None) => {
                    let err = DeployError::ResourceLookup(String::from_str(SHARED_NETWORK));
                    self.fail(err)
                },
                _ => self.step_failed(&e),
            },
        }
    }

    fn step_start(self, e: Event) -> (r: (Deployment, Action))
        requires
            self.phase == Phase::CreatingContainer || self.phase == Phase::ConnectingNetwork
                || self.phase == Phase::StartingContainer || self.phase == Phase::InspectingNetwork
                || self.phase == Phase::DetachingDefault,
        ensures
            (r.0@, r.1@) == next_start(self@, e@),
    {
        match self.phase {
            Phase::CreatingContainer => match e {
                Event::Created(id) => {
                    let a = Action::ConnectNetwork {
                        network: String::from_str(SHARED_NETWORK),
                        container: self.name(),
                    };
                    let mut d = self;
                    d.phase = Phase::ConnectingNetwork;
                    d.container_id = id;
                    (d, a)
                },
                _ => self.step_failed(&e),
            },
            Phase::ConnectingNetwork => match e {
                Event::Completed => {
                    let a = Action::StartContainer { name: self.name() };
                    self.go(Phase::StartingContainer, a)
                },
                _ => self.step_failed(&e),
            },
            Phase::StartingContainer => match e {
                Event::Completed => {
                    let a = Action::InspectNetwork {
                        network: self.network_id.clone(),
                        container: self.container_id.clone(),
                    };
                    self.go(Phase::InspectingNetwork, a)
                },
                _ => self.step_failed(&e),
            },
            Phase::InspectingNetwork => match e {
                Event::Inspected(Some(ep)) => match resolve_address(&ep.ipv4, &ep.ipv6) {
                    Some(ip) => {
                        let a = Action::DisconnectNetwork {
                            network: String::from_str(DEFAULT_NETWORK),
                            container: self.name(),
                        };
                        let mut d = self;
                        d.phase = Phase::DetachingDefault;
                        d.ip = ip;
                        (d, a)
                    },
                    None => {
                        let err = DeployError::Address(self.name());
                        self.fail(err)
                    },
                },
                Event::Inspected(None) => {
                    let err = DeployError::Address(self.name());
                    self.fail(err)
                },
                _ => self.step_failed(&e),
            },
            _ => {
                let mut d = self;
                d.note(&e);
                let a = Action::Finish(
                    DockerContainer {
                        ip: d.ip.clone(),
                        port: APPLICATION_PORT,
                        build_log: d.build_log.clone(),
                    },
                );
                d.phase = Phase::Done;
                (d, a)
            },
        }
    }

    /// Takes the outcome of the last action and returns the deployment's
    /// next state with the action to perform next.
    pub fn step(self, e: Event) -> (r: (Deployment, Action))
        ensures
            (r.0@, r.1@) == next(self@, e@),
    {
        match self.phase {
            Phase::FetchingEnvironment | Phase::ListingImages | Phase::TaggingOld
            | Phase::RemovingLatest => self.step_prepare(e),
            Phase::ProbingDockerfile | Phase::WritingDockerfile | Phase::Building
            | Phase::RemovingDockerfile | Phase::CheckingImage => self.step_build(e),
            Phase::ListingContainers | Phase::StoppingContainer | Phase::RemovingContainer
            | Phase::RemovingOldImage => self.step_replace(e),
            Phase::ListingNetworks | Phase::CreatingNetwork | Phase::RelistingNetworks => self.step_network(e),
            Phase::CreatingContainer | Phase::ConnectingNetwork | Phase::StartingContainer
            | Phase::InspectingNetwork | Phase::DetachingDefault => self.step_start(e),
            Phase::Done | Phase::Failed => (self, Action::Idle),
        }
    }
}

/// Relies on `uuid::Uuid::new_v4` for a fresh random identifier, written in
/// the hyphenated form of its `Display`, which is 36 characters long.
#[verifier::external_body]
fn new_build_id() -> (r: String)
    ensures
        r@.len() == 36,
{
    uuid::Uuid::new_v4().to_string()
}

/// Starts a deployment of `target` under a freshly drawn build identifier:
/// the deployment and its first action.
pub fn begin(target: DeploymentTarget, limits: ResourceLimits, domain: String) -> (r: (
    Deployment,
    Action,
))
    ensures
        r.0@ == initial(target@, limits, domain@, r.0.build_id@),
        r.0.build_id@.len() == 36,
        r.1@ == first_action(target@),
{
    let id = new_build_id();
    Deployment::new(target, limits, domain, id)
}

} // verus!
