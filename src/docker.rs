//! Image names, build command lines, resource limits, routing labels and
//! address resolution for one tenant deployment.

use vstd::prelude::*;
use crate::dockerfile_templates::DjangoDockerfile;
use crate::text::{
    before_slash, concat, concat3, i64_to_decimal, lemma_deep_view_push, opt_text,
    prefix_before_slash, signed_decimal,
};

verus! {

/// The network that every deployed container joins, so that the reverse
/// proxy can reach it.
pub const SHARED_NETWORK: &'static str = "pemasak";

/// The engine's default bridge network, which deployed containers leave.
pub const DEFAULT_NETWORK: &'static str = "bridge";

/// The port a deployed application serves on.
pub const APPLICATION_PORT: i32 = 80;

/// Memory ceiling used when the configuration gives none: 256 MiB.
pub const DEFAULT_MEMORY_BYTES: i64 = 256 * 1024 * 1024;

/// Memory-plus-swap ceiling used when the configuration gives none: 320 MiB.
pub const DEFAULT_MEMORY_SWAP_BYTES: i64 = 320 * 1024 * 1024;

/// CPU quota used when the configuration gives none (half of one CPU with
/// the default period).
pub const DEFAULT_CPU_QUOTA: i64 = 50000;

/// CPU period used when the configuration gives none.
pub const DEFAULT_CPU_PERIOD: i64 = 100000;

/// One deployment: whose project it is, the container's name, and where its
/// source tree lies.
pub struct DeploymentTarget {
    pub owner: String,
    pub project_name: String,
    pub container_name: String,
    pub container_src: String,
}

pub struct TargetView {
    pub owner: Seq<char>,
    pub project_name: Seq<char>,
    pub container_name: Seq<char>,
    pub container_src: Seq<char>,
}

impl View for DeploymentTarget {
    type V = TargetView;

    open spec fn view(&self) -> TargetView {
        TargetView {
            owner: self.owner@,
            project_name: self.project_name@,
            container_name: self.container_name@,
            container_src: self.container_src@,
        }
    }
}

/// What a finished deployment reports: where the container is reached, and
/// the build's log.
pub struct DockerContainer {
    pub ip: String,
    pub port: i32,
    pub build_log: String,
}

pub struct DockerContainerView {
    pub ip: Seq<char>,
    pub port: i32,
    pub build_log: Seq<char>,
}

impl View for DockerContainer {
    type V = DockerContainerView;

    open spec fn view(&self) -> DockerContainerView {
        DockerContainerView { ip: self.ip@, port: self.port, build_log: self.build_log@ }
    }
}

/// Resource ceilings applied to the build and to the running container.
#[derive(Clone, Copy, Debug, PartialEq, Eq, Structural)]
pub struct ResourceLimits {
    pub memory_bytes: i64,
    pub memory_swap_bytes: i64,
    pub cpu_quota: i64,
    pub cpu_period: i64,
}

/// A configured value, or its fallback.
pub open spec fn or_default(v: Option<i64>, fallback: i64) -> i64 {
    match v {
        Some(x) => x,
        None => fallback,
    }
}

/// The limits for the configured values, each unset one replaced by its
/// default.
pub open spec fn configured_limits(
    memory_bytes: Option<i64>,
    memory_swap_bytes: Option<i64>,
    cpu_quota: Option<i64>,
    cpu_period: Option<i64>,
) -> ResourceLimits {
    ResourceLimits {
        memory_bytes: or_default(memory_bytes, DEFAULT_MEMORY_BYTES),
        memory_swap_bytes: or_default(memory_swap_bytes, DEFAULT_MEMORY_SWAP_BYTES),
        cpu_quota: or_default(cpu_quota, DEFAULT_CPU_QUOTA),
        cpu_period: or_default(cpu_period, DEFAULT_CPU_PERIOD),
    }
}

impl ResourceLimits {
    /// The limits from the configured values, each unset one replaced by its
    /// default.
    pub fn from_settings(
        memory_bytes: Option<i64>,
        memory_swap_bytes: Option<i64>,
        cpu_quota: Option<i64>,
        cpu_period: Option<i64>,
    ) -> (r: Self)
        ensures
            r == configured_limits(memory_bytes, memory_swap_bytes, cpu_quota, cpu_period),
    {
        ResourceLimits {
            memory_bytes: match memory_bytes {
                Some(x) => x,
                None => DEFAULT_MEMORY_BYTES,
            },
            memory_swap_bytes: match memory_swap_bytes {
                Some(x) => x,
                None => DEFAULT_MEMORY_SWAP_BYTES,
            },
            cpu_quota: match cpu_quota {
                Some(x) => x,
                None => DEFAULT_CPU_QUOTA,
            },
            cpu_period: match cpu_period {
                Some(x) => x,
                None => DEFAULT_CPU_PERIOD,
            },
        }
    }
}

/// The reference of the current image of a container.
pub open spec fn latest_image(name: Seq<char>) -> Seq<char> {
    name + ":latest"@
}

/// The reference of the rollback image of a container.
pub open spec fn old_image(name: Seq<char>) -> Seq<char> {
    name + ":old"@
}

/// The name filter that matches exactly one container name.
pub open spec fn exact_name_pattern(name: Seq<char>) -> Seq<char> {
    "^"@ + name + "$"@
}

/// Where a tenant's own Dockerfile would be: the source directory joined
/// with `Dockerfile`, as a path join does.
pub open spec fn custom_dockerfile_path(src: Seq<char>) -> Seq<char> {
    if src.len() == 0 {
        "Dockerfile"@
    } else if src.last() == '/' {
        src + "Dockerfile"@
    } else {
        src + "/Dockerfile"@
    }
}

/// The name of the temporary file a generated Dockerfile is written to,
/// unique per container and build.
pub open spec fn temp_dockerfile_name(name: Seq<char>, build_id: Seq<char>) -> Seq<char> {
    "Dockerfile."@ + name + "."@ + build_id + ".tmp"@
}

/// `key=value`.
pub open spec fn assignment(entry: (Seq<char>, Seq<char>)) -> Seq<char> {
    entry.0 + "="@ + entry.1
}

/// The `key=value` assignments of an environment, in its order.
pub open spec fn assignments(env: Seq<(Seq<char>, Seq<char>)>) -> Seq<Seq<char>> {
    env.map_values(|entry: (Seq<char>, Seq<char>)| assignment(entry))
}

/// A `--build-arg key=value` pair of arguments per environment entry, in
/// its order.
pub open spec fn build_arg_flags(env: Seq<(Seq<char>, Seq<char>)>) -> Seq<Seq<char>>
    decreases env.len(),
{
    if env.len() == 0 {
        Seq::empty()
    } else {
        build_arg_flags(env.drop_last()) + seq!["--build-arg"@, assignment(env.last())]
    }
}

/// The arguments of the build command: CPU limits, the image tag, the
/// Dockerfile, any build arguments, and the source directory last.
pub open spec fn build_command(
    limits: ResourceLimits,
    name: Seq<char>,
    dockerfile: Seq<char>,
    extra: Seq<Seq<char>>,
    src: Seq<char>,
) -> Seq<Seq<char>> {
    seq![
        "build"@,
        "--cpu-period="@ + signed_decimal(limits.cpu_period as int),
        "--cpu-quota="@ + signed_decimal(limits.cpu_quota as int),
        "-t"@,
        latest_image(name),
        "-f"@,
        dockerfile,
    ] + extra + seq![src]
}

/// The routing labels the reverse proxy reads for a container served at
/// `<name>.<domain>` over HTTPS.
pub open spec fn routing_labels(name: Seq<char>, domain: Seq<char>) -> Seq<(Seq<char>, Seq<char>)> {
    seq![
        ("traefik.enable"@, "true"@),
        ("traefik.http.routers."@ + name + ".rule"@, "Host(`"@ + name + "."@ + domain + "`)"@),
        ("traefik.http.routers."@ + name + ".entrypoints"@, "websecure"@),
        ("traefik.http.routers."@ + name + ".tls.certresolver"@, "letsencrypt"@),
        ("traefik.http.services."@ + name + ".loadbalancer.server.port"@, "80"@),
    ]
}

/// Whether an address field holds a usable value.
pub open spec fn usable(a: Option<Seq<char>>) -> bool {
    a is Some && a->0.len() > 0
}

/// The reachable address: the IPv6 one when usable, else the IPv4 one when
/// usable, without any prefix-length suffix.
pub open spec fn resolved_address(ipv4: Option<Seq<char>>, ipv6: Option<Seq<char>>) -> Option<
    Seq<char>,
> {
    if usable(ipv6) {
        Some(before_slash(ipv6->0))
    } else if usable(ipv4) {
        Some(before_slash(ipv4->0))
    } else {
        None
    }
}

fn is_usable(a: &Option<String>) -> (r: bool)
    ensures
        r == usable(opt_text(*a)),
{
    match a {
        Some(s) => s.unicode_len() > 0,
        None => false,
    }
}

/// The address at which a container is reached, from the two address
/// fields of its network entry.
pub fn resolve_address(ipv4: &Option<String>, ipv6: &Option<String>) -> (r: Option<String>)
    ensures
        opt_text(r) == resolved_address(opt_text(*ipv4), opt_text(*ipv6)),
{
    if is_usable(ipv6) {
        match ipv6 {
            Some(s) => Some(prefix_before_slash(s.as_str())),
            None => None,
        }
    } else if is_usable(ipv4) {
        match ipv4 {
            Some(s) => Some(prefix_before_slash(s.as_str())),
            None => None,
        }
    } else {
        None
    }
}

/// `<name>:latest`.
pub fn latest_image_name(name: &str) -> (r: String)
    ensures
        r@ == latest_image(name@),
{
    concat(name, ":latest")
}

/// `<name>:old`.
pub fn old_image_name(name: &str) -> (r: String)
    ensures
        r@ == old_image(name@),
{
    concat(name, ":old")
}

/// `^<name>$`.
pub fn exact_name_filter(name: &str) -> (r: String)
    ensures
        r@ == exact_name_pattern(name@),
{
    concat3("^", name, "$")
}

/// The path of the Dockerfile in the source directory `src`.
pub fn dockerfile_path(src: &str) -> (r: String)
    ensures
        r@ == custom_dockerfile_path(src@),
{
    let n = src.unicode_len();
    if n == 0 {
        String::from_str("Dockerfile")
    } else if src.get_char(n - 1) == '/' {
        concat(src, "Dockerfile")
    } else {
        concat(src, "/Dockerfile")
    }
}

/// The temporary file name for a generated Dockerfile.
pub fn temp_dockerfile_file_name(name: &str, build_id: &str) -> (r: String)
    ensures
        r@ == temp_dockerfile_name(name@, build_id@),
{
    let s = concat3("Dockerfile.", name, ".");
    let s = s.concat(build_id);
    s.concat(".tmp")
}

/// The environment as `key=value` strings, in its order.
pub fn environment_assignments(env: &Vec<(String, String)>) -> (r: Vec<String>)
    ensures
        r.deep_view() == assignments(env.deep_view()),
{
    let mut out: Vec<String> = Vec::new();
    let n = env.len();
    let mut i: usize = 0;
    while i < n
        invariant
            n == env.len(),
            0 <= i <= n,
            out.deep_view() == assignments(env.deep_view().take(i as int)),
        decreases n - i,
    {
        let a = concat3(env[i].0.as_str(), "=", env[i].1.as_str());
        let ghost before = out@;
        out.push(a);
        proof {
            lemma_deep_view_push(before, out@, a);
            assert(env.deep_view()[i as int] == (env@[i as int].0@, env@[i as int].1@));
            assert(assignments(env.deep_view().take(i + 1)) =~= assignments(
                env.deep_view().take(i as int),
            ).push(assignment(env.deep_view()[i as int])));
        }
        i = i + 1;
    }
    assert(env.deep_view().take(n as int) =~= env.deep_view());
    out
}

/// The `--build-arg` flags for an environment.
pub fn build_arguments(env: &Vec<(String, String)>) -> (r: Vec<String>)
    ensures
        r.deep_view() == build_arg_flags(env.deep_view()),
{
    let mut out: Vec<String> = Vec::new();
    let n = env.len();
    let mut i: usize = 0;
    while i < n
        invariant
            n == env.len(),
            0 <= i <= n,
            out.deep_view() == build_arg_flags(env.deep_view().take(i as int)),
        decreases n - i,
    {
        let ghost before = out.deep_view();
        let flag = String::from_str("--build-arg");
        let ghost v0 = out@;
        out.push(flag);
        let a = concat3(env[i].0.as_str(), "=", env[i].1.as_str());
        let ghost v1 = out@;
        out.push(a);
        proof {
            lemma_deep_view_push(v0, v1, flag);
            lemma_deep_view_push(v1, out@, a);
            let next = env.deep_view().take(i + 1);
            assert(next.drop_last() =~= env.deep_view().take(i as int));
            assert(env.deep_view()[i as int] == (env@[i as int].0@, env@[i as int].1@));
            assert(out.deep_view() =~= before + seq!["--build-arg"@, assignment(next.last())]);
        }
        i = i + 1;
    }
    assert(env.deep_view().take(n as int) =~= env.deep_view());
    out
}

/// The build command's arguments.
pub fn build_command_args(
    limits: &ResourceLimits,
    name: &str,
    dockerfile: &str,
    extra: Vec<String>,
    src: &str,
) -> (r: Vec<String>)
    ensures
        r.deep_view() == build_command(*limits, name@, dockerfile@, extra.deep_view(), src@),
{
    let mut args: Vec<String> = Vec::new();
    args.push(String::from_str("build"));
    let period = i64_to_decimal(limits.cpu_period);
    args.push(concat("--cpu-period=", period.as_str()));
    let quota = i64_to_decimal(limits.cpu_quota);
    args.push(concat("--cpu-quota=", quota.as_str()));
    args.push(String::from_str("-t"));
    args.push(latest_image_name(name));
    args.push(String::from_str("-f"));
    args.push(String::from_str(dockerfile));
    let ghost head = args.deep_view();
    let n = extra.len();
    let mut i: usize = 0;
    while i < n
        invariant
            n == extra.len(),
            0 <= i <= n,
            args.deep_view() == head + extra.deep_view().take(i as int),
        decreases n - i,
    {
        let x = extra[i].clone();
        let ghost v0 = args@;
        args.push(x);
        proof {
            lemma_deep_view_push(v0, args@, x);
            assert(args.deep_view() =~= head + extra.deep_view().take(i + 1));
        }
        i = i + 1;
    }
    let last = String::from_str(src);
    let ghost v0 = args@;
    args.push(last);
    proof {
        lemma_deep_view_push(v0, args@, last);
    }
    assert(extra.deep_view().take(n as int) =~= extra.deep_view());
    assert(args.deep_view() =~= build_command(*limits, name@, dockerfile@, extra.deep_view(), src@));
    args
}

/// The routing labels for a container named `name` under `domain`.
pub fn routing_labels_for(name: &str, domain: &str) -> (r: Vec<(String, String)>)
    ensures
        r.deep_view() == routing_labels(name@, domain@),
{
    let mut labels: Vec<(String, String)> = Vec::new();
    labels.push((String::from_str("traefik.enable"), String::from_str("true")));
    let host = concat3("Host(`", name, ".");
    let host = host.concat(domain);
    let host = host.concat("`)");
    labels.push((concat3("traefik.http.routers.", name, ".rule"), host));
    labels.push(
        (concat3("traefik.http.routers.", name, ".entrypoints"), String::from_str("websecure")),
    );
    labels.push(
        (
            concat3("traefik.http.routers.", name, ".tls.certresolver"),
            String::from_str("letsencrypt"),
        ),
    );
    labels.push(
        (
            concat3("traefik.http.services.", name, ".loadbalancer.server.port"),
            String::from_str("80"),
        ),
    );
    assert(labels.deep_view() =~= routing_labels(name@, domain@));
    labels
}

/// The generated Dockerfile for an environment.
pub fn generated_dockerfile(env: &Vec<(String, String)>) -> (r: String)
    ensures
        r@ == crate::dockerfile_templates::dockerfile_text(assignments(env.deep_view())),
{
    let template = DjangoDockerfile::new().with_environment(environment_assignments(env));
    template.generate()
}

} // verus!
