//! Build-and-deploy orchestration for tenant containers: Dockerfile
//! generation, build command lines, routing labels, resource limits,
//! address resolution and the deployment state machine, together with
//! the small pieces of logic behind the platform's single-sign-on and
//! git credential endpoints.

pub mod credentials;
pub mod deploy;
pub mod deploy_laws;
pub mod docker;
pub mod dockerfile_templates;
pub mod get_env;
pub mod projects;
pub mod sso;
pub mod text;
