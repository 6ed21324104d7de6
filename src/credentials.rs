//! Git credentials of a project: the URL it is pushed to, and freshly
//! generated passwords.

use vstd::prelude::*;
use crate::text::concat;
use rand::{Rng, SeedableRng};
use argon2::PasswordHasher;

verus! {

/// The characters a generated password is drawn from.
pub const CHARSET: &'static str = "ABCDEFGHIJKLMNOPQRSTUVWXYZabcdefghijklmnopqrstuvwxyz0123456789-_";

/// The number of characters in a generated password.
pub const TOKEN_LENGTH: usize = 32;

/// The URL a project's repository is reached at.
pub open spec fn git_url_text(secure: bool, domain: Seq<char>, owner: Seq<char>, project: Seq<char>) -> Seq<char> {
    (if secure {
        "https"@
    } else {
        "http"@
    }) + "://"@ + domain + "/"@ + owner + "/"@ + project
}

/// `<protocol>://<domain>/<owner>/<project>`, over HTTPS when `secure`.
pub fn git_url(secure: bool, domain: &str, owner: &str, project: &str) -> (r: String)
    ensures
        r@ == git_url_text(secure, domain@, owner@, project@),
{
    let protocol = if secure {
        "https"
    } else {
        "http"
    };
    let s = concat(protocol, "://");
    let s = s.concat(domain);
    let s = s.concat("/");
    let s = s.concat(owner);
    let s = s.concat("/");
    s.concat(project)
}

/// The password spelled by indices into the character set.
pub open spec fn password_text(indices: Seq<usize>) -> Seq<char> {
    Seq::new(indices.len(), |i: int| CHARSET@[indices[i] as int])
}

/// Whether `c` is one of the characters passwords are drawn from.
pub open spec fn in_charset(c: char) -> bool {
    exists|j: int| 0 <= j < CHARSET@.len() && CHARSET@[j] == c
}

/// Whether `s` is a password as generated here: `TOKEN_LENGTH` characters
/// of the character set.
pub open spec fn is_token(s: Seq<char>) -> bool {
    &&& s.len() == TOKEN_LENGTH
    &&& forall|i: int| 0 <= i < s.len() ==> in_charset(#[trigger] s[i])
}

/// The password spelled by `indices`, each picking a character of the
/// character set.
pub fn password_from_indices(indices: &Vec<usize>) -> (r: String)
    requires
        forall|i: int| 0 <= i < indices.len() ==> #[trigger] indices[i] < 64,
    ensures
        r@ == password_text(indices@),
{
    proof {
        reveal_strlit("ABCDEFGHIJKLMNOPQRSTUVWXYZabcdefghijklmnopqrstuvwxyz0123456789-_");
    }
    let mut s = String::new();
    let n = indices.len();
    let mut i: usize = 0;
    while i < n
        invariant
            n == indices.len(),
            CHARSET@.len() == 64,
            forall|k: int| 0 <= k < indices.len() ==> #[trigger] indices[k] < 64,
            0 <= i <= n,
            s@ == password_text(indices@.take(i as int)),
        decreases n - i,
    {
        let k = indices[i];
        let c = CHARSET.substring_char(k, k + 1);
        s.append(c);
        assert(s@ =~= password_text(indices@.take(i + 1)));
        i = i + 1;
    }
    assert(indices@.take(n as int) =~= indices@);
    s
}

#[verifier::external_type_specification]
#[verifier::external_body]
pub struct ExStdRng(rand::rngs::StdRng);

/// Relies on `rand::SeedableRng::from_entropy`: a generator seeded from the
/// operating system's entropy source.
#[verifier::external_body]
fn seeded_rng() -> (r: rand::rngs::StdRng) {
    rand::rngs::StdRng::from_entropy()
}

/// Relies on `rand::Rng::gen_range`: a value drawn from `0..bound`, which
/// must not be empty.
#[verifier::external_body]
fn draw_below(rng: &mut rand::rngs::StdRng, bound: usize) -> (r: usize)
    requires
        bound > 0,
    ensures
        r < bound,
{
    rng.gen_range(0..bound)
}

/// Relies on `argon2::Argon2::default` and `PasswordHasher::hash_password`,
/// with a salt drawn from `OsRng`: the PHC string of the hash, or none when
/// hashing fails.
#[verifier::external_body]
fn argon2_hash(secret: &str) -> (r: Option<String>) {
    let salt = argon2::password_hash::SaltString::generate(
        &mut argon2::password_hash::rand_core::OsRng,
    );
    match argon2::Argon2::default().hash_password(secret.as_bytes(), &salt) {
        Ok(h) => Some(h.to_string()),
        Err(_) => None,
    }
}

/// A fresh random password.
pub fn generate_password() -> (r: String)
    ensures
        is_token(r@),
{
    proof {
        reveal_strlit("ABCDEFGHIJKLMNOPQRSTUVWXYZabcdefghijklmnopqrstuvwxyz0123456789-_");
    }
    let mut rng = seeded_rng();
    let mut indices: Vec<usize> = Vec::new();
    let mut i: usize = 0;
    while i < TOKEN_LENGTH
        invariant
            0 <= i <= TOKEN_LENGTH,
            indices.len() == i,
            forall|k: int| 0 <= k < indices.len() ==> #[trigger] indices[k] < 64,
        decreases TOKEN_LENGTH - i,
    {
        let k = draw_below(&mut rng, 64);
        indices.push(k);
        i = i + 1;
    }
    let s = password_from_indices(&indices);
    assert(indices@.len() == TOKEN_LENGTH);
    assert(s@.len() == TOKEN_LENGTH);
    assert forall|p: int| 0 <= p < s@.len() implies in_charset(#[trigger] s@[p]) by {
        let j = indices@[p] as int;
        assert(0 <= j < CHARSET@.len() && CHARSET@[j] == s@[p]);
    }
    s
}

/// A new git password with its hash for storage.
pub struct GitPassword {
    pub password: String,
    pub hash: String,
}

/// A fresh git password and its hash; none when hashing fails.
pub fn new_git_password() -> (r: Option<GitPassword>)
    ensures
        r is Some ==> is_token(r->0.password@),
{
    let password = generate_password();
    match argon2_hash(password.as_str()) {
        Some(hash) => Some(GitPassword { password, hash }),
        None => None,
    }
}

} // verus!
