//! The Dockerfile generated for a tenant whose source tree holds none of
//! its own: a dependency-install stage, a slim runtime stage, one `ENV`
//! line per environment entry, and an entrypoint that migrates and serves
//! on port 80.

use vstd::prelude::*;

verus! {

/// Everything before the environment section.
pub const DOCKERFILE_HEAD: &'static str = r#"
# Multi-stage build for smaller image
FROM python:3.11-alpine AS builder

WORKDIR /app

# Install build dependencies
RUN apk add --no-cache gcc musl-dev

# Install Python packages
COPY requirements.txt .
RUN pip install --no-cache-dir -r requirements.txt

# Runtime stage
FROM python:3.11-alpine AS runtime

WORKDIR /app

# Copy Python packages from builder
COPY --from=builder /usr/local/lib/python3.11/site-packages /usr/local/lib/python3.11/site-packages
COPY --from=builder /usr/local/bin /usr/local/bin

# Copy app
COPY . .
"#;

/// The heading of the environment section, present only when there is at
/// least one entry.
pub const ENV_HEADING: &'static str = "\n# Environment variables\n";

/// The production entrypoint that ends every generated Dockerfile.
pub const DOCKERFILE_TAIL: &'static str = r#"
# Production setup
EXPOSE 80

# Django production server
CMD ["sh", "-c", "\
    python manage.py migrate --noinput 2>/dev/null || true; \
    WSGI_MODULE=$(python -c \"import glob; files = glob.glob('*/wsgi.py'); print(files[0].split('/')[0] if files else 'wsgi')\"); \
    gunicorn --bind 0.0.0.0:80 --workers 2 $WSGI_MODULE.wsgi:application"]
"#;

/// One `ENV` line.
pub open spec fn env_line(assignment: Seq<char>) -> Seq<char> {
    "ENV "@ + assignment + "\n"@
}

/// The `ENV` lines of the given assignments, in their order.
pub open spec fn env_lines(assignments: Seq<Seq<char>>) -> Seq<char>
    decreases assignments.len(),
{
    if assignments.len() == 0 {
        Seq::empty()
    } else {
        env_lines(assignments.drop_last()) + env_line(assignments.last())
    }
}

/// The environment section: empty when there are no assignments.
pub open spec fn env_section(assignments: Seq<Seq<char>>) -> Seq<char> {
    if assignments.len() == 0 {
        Seq::empty()
    } else {
        ENV_HEADING@ + env_lines(assignments)
    }
}

/// The whole generated Dockerfile for the given `key=value` assignments.
pub open spec fn dockerfile_text(assignments: Seq<Seq<char>>) -> Seq<char> {
    DOCKERFILE_HEAD@ + env_section(assignments) + DOCKERFILE_TAIL@
}

/// A Dockerfile template holding the `key=value` assignments that become
/// its `ENV` lines.
pub struct DjangoDockerfile {
    pub environment_vars: Vec<String>,
}

impl DjangoDockerfile {
    /// The assignments as character sequences.
    pub open spec fn assignments(&self) -> Seq<Seq<char>> {
        self.environment_vars.deep_view()
    }

    /// A template with no environment entries.
    pub fn new() -> (r: Self)
        ensures
            r.assignments() == Seq::<Seq<char>>::empty(),
    {
        let r = Self { environment_vars: Vec::new() };
        assert(r.assignments() =~= Seq::<Seq<char>>::empty());
        r
    }

    /// The template with its assignments replaced by `env_vars`.
    pub fn with_environment(self, env_vars: Vec<String>) -> (r: Self)
        ensures
            r.assignments() == env_vars.deep_view(),
    {
        let mut s = self;
        s.environment_vars = env_vars;
        s
    }

    /// The Dockerfile text.
    pub fn generate(&self) -> (r: String)
        ensures
            r@ == dockerfile_text(self.assignments()),
    {
        let mut dockerfile = String::from_str(DOCKERFILE_HEAD);
        let n = self.environment_vars.len();
        if n > 0 {
            dockerfile.append(ENV_HEADING);
            let mut i: usize = 0;
            while i < n
                invariant
                    n == self.environment_vars.len(),
                    0 < n,
                    0 <= i <= n,
                    dockerfile@ == DOCKERFILE_HEAD@ + ENV_HEADING@ + env_lines(
                        self.assignments().take(i as int),
                    ),
                decreases n - i,
            {
                let ghost before = self.assignments().take(i as int);
                dockerfile.append("ENV ");
                dockerfile.append(self.environment_vars[i].as_str());
                dockerfile.append("\n");
                proof {
                    let next = self.assignments().take(i + 1);
                    assert(next.drop_last() =~= before);
                    assert(next.last() == self.environment_vars[i as int]@);
                }
                i = i + 1;
            }
            assert(self.assignments().take(n as int) =~= self.assignments());
        }
        dockerfile.append(DOCKERFILE_TAIL);
        dockerfile
    }
}

} // verus!
