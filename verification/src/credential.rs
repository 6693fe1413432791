//! The session credential and its persistence format.
//!
//! A credential is two opaque cookie values: the primary session cookie and
//! the second-factor cookie (which may legitimately be empty). The persisted
//! form is exactly two newline-separated text fields; a file with fewer than
//! two fields decodes to "no stored credential" rather than an error, so a
//! missing or garbled file degrades to "please re-authenticate".

use vstd::prelude::*;

use crate::text::{
    find_char, find_idx, lemma_find_idx, lemma_find_idx_absent, lemma_find_idx_at, starts_with,
    starts_with_spec, trim, trim_spec,
};

verus! {

/// The bearer material that authorizes remote calls without re-submitting
/// username and password: a primary session cookie and an optional
/// second-factor cookie, both kept verbatim (name, `=`, value).
#[derive(Debug, PartialEq, Eq)]
pub struct SessionCredential {
    /// The primary session cookie; a credential with an empty primary
    /// cookie is not usable.
    pub auth: String,
    /// The second-factor cookie; may be the empty string on accounts
    /// whose login never required a second factor.
    pub two_factor: String,
}

/// A field that survives the persisted form unchanged: no newline (which
/// would split it into two fields) and no whitespace at its edges (which
/// decoding strips).
pub open spec fn storable_field(f: Seq<char>) -> bool {
    &&& trim_spec(f) == f
    &&& forall|j: int| 0 <= j < f.len() ==> f[j] != '\n'
}

impl SessionCredential {
    /// Both fields survive a save/load round trip unchanged.
    pub open spec fn storable(&self) -> bool {
        storable_field(self.auth@) && storable_field(self.two_factor@)
    }

    /// A credential authorizes calls only when its primary cookie is present;
    /// an empty second-factor cookie is legitimate.
    pub open spec fn spec_usable(&self) -> bool {
        self.auth@.len() > 0
    }

    /// Both cookies were found when the credential was extracted.
    pub open spec fn spec_complete(&self) -> bool {
        self.auth@.len() > 0 && self.two_factor@.len() > 0
    }

    pub fn new(auth: String, two_factor: String) -> (c: Self)
        ensures
            c.auth == auth,
            c.two_factor == two_factor,
    {
        SessionCredential { auth, two_factor }
    }

    /// The credential's primary cookie is present.
    pub fn is_usable(&self) -> (r: bool)
        ensures
            r == self.spec_usable(),
    {
        self.auth.as_str().unicode_len() > 0
    }

    /// Both of the credential's cookies are present.
    pub fn is_complete(&self) -> (r: bool)
        ensures
            r == self.spec_complete(),
    {
        self.auth.as_str().unicode_len() > 0 && self.two_factor.as_str().unicode_len() > 0
    }
}

impl Clone for SessionCredential {
    fn clone(&self) -> (r: Self)
        ensures
            r == *self,
    {
        SessionCredential { auth: self.auth.clone(), two_factor: self.two_factor.clone() }
    }
}

/// The persisted form of a credential: the two fields separated by a newline.
pub open spec fn encode_spec(auth: Seq<char>, two_factor: Seq<char>) -> Seq<char> {
    auth + seq!['\n'] + two_factor
}

/// What decoding persisted content yields: `None` when the content has fewer
/// than two newline-separated fields, otherwise the first two fields, each
/// trimmed, with any further fields ignored.
pub open spec fn decode_spec(s: Seq<char>) -> Option<(Seq<char>, Seq<char>)> {
    let i = find_idx(s, '\n');
    if i < 0 {
        None
    } else {
        let rest = s.subrange(i + 1, s.len() as int);
        let j = find_idx(rest, '\n');
        let second = if j < 0 {
            rest
        } else {
            rest.subrange(0, j)
        };
        Some((trim_spec(s.subrange(0, i)), trim_spec(second)))
    }
}

/// Render a credential in its persisted two-field form. Both fields are
/// always written, even when one is empty, so that what was saved decodes
/// to a credential rather than to "nothing stored".
pub fn encode_credential(c: &SessionCredential) -> (r: String)
    ensures
        r@ == encode_spec(c.auth@, c.two_factor@),
{
    proof {
        reveal_strlit("\n");
    }
    let mut out = c.auth.clone();
    out.append("\n");
    out.append(c.two_factor.as_str());
    proof {
        assert(out@ =~= encode_spec(c.auth@, c.two_factor@));
    }
    out
}

/// Decode persisted content into a credential. Content with fewer than two
/// newline-separated fields yields `None`; otherwise the first two fields
/// are taken, trimmed, and any further fields are ignored.
pub fn decode_credential(s: &str) -> (r: Option<SessionCredential>)
    ensures
        match r {
            None => decode_spec(s@) is None,
            Some(c) => decode_spec(s@) == Some((c.auth@, c.two_factor@)),
        },
{
    let sl = s.unicode_len();
    match find_char(s, '\n') {
        None => None,
        Some(i) => {
            proof {
                lemma_find_idx(s@, '\n');
            }
            let first = s.substring_char(0, i);
            let rest = s.substring_char(i + 1, sl);
            let second = match find_char(rest, '\n') {
                None => rest,
                Some(j) => {
                    proof {
                        lemma_find_idx(rest@, '\n');
                    }
                    rest.substring_char(0, j)
                },
            };
            let auth = String::from_str(trim(first));
            let two_factor = String::from_str(trim(second));
            Some(SessionCredential { auth, two_factor })
        },
    }
}

/// A storable credential survives the save/load round trip: decoding what
/// was encoded gives back exactly the two fields that were saved.
pub proof fn lemma_credential_round_trip(auth: Seq<char>, two_factor: Seq<char>)
    requires
        storable_field(auth),
        storable_field(two_factor),
    ensures
        decode_spec(encode_spec(auth, two_factor)) == Some((auth, two_factor)),
{
    let s = encode_spec(auth, two_factor);
    assert(s[auth.len() as int] == '\n');
    assert(forall|j: int| 0 <= j < auth.len() ==> s[j] == auth[j]);
    lemma_find_idx_at(s, '\n', auth.len() as int);
    let i = find_idx(s, '\n');
    let rest = s.subrange(i + 1, s.len() as int);
    assert(rest =~= two_factor);
    lemma_find_idx_absent(rest, '\n');
    assert(s.subrange(0, i) =~= auth);
}

/// The cookie whose name the primary session cookie carries.
pub open spec fn auth_cookie_name() -> Seq<char> {
    "auth="@
}

/// The cookie whose name the second-factor cookie carries.
pub open spec fn two_factor_cookie_name() -> Seq<char> {
    "twoFactorAuth="@
}

/// The first `;`-separated piece of `header` that, trimmed, starts with
/// `name`; the empty sequence when no piece does.
pub open spec fn extract_cookie_spec(header: Seq<char>, name: Seq<char>) -> Seq<char>
    decreases header.len(),
{
    let i = find_idx(header, ';');
    if 0 <= i < header.len() {
        let piece = trim_spec(header.subrange(0, i));
        if starts_with_spec(piece, name) {
            piece
        } else {
            extract_cookie_spec(header.subrange(i + 1, header.len() as int), name)
        }
    } else {
        let piece = trim_spec(header);
        if starts_with_spec(piece, name) {
            piece
        } else {
            Seq::<char>::empty()
        }
    }
}

/// Pick the named cookie out of a `;`-separated cookie header: the first
/// piece that, trimmed, starts with `name`, or the empty string when no
/// piece does.
pub fn extract_cookie(header: &str, name: &str) -> (r: String)
    ensures
        r@ == extract_cookie_spec(header@, name@),
{
    let mut rest: &str = header;
    loop
        invariant
            extract_cookie_spec(header@, name@) == extract_cookie_spec(rest@, name@),
        decreases rest@.len(),
    {
        match find_char(rest, ';') {
            Some(i) => {
                proof {
                    lemma_find_idx(rest@, ';');
                }
                let piece = trim(rest.substring_char(0, i));
                if starts_with(piece, name) {
                    return String::from_str(piece);
                }
                let rl = rest.unicode_len();
                rest = rest.substring_char(i + 1, rl);
            },
            None => {
                proof {
                    lemma_find_idx(rest@, ';');
                }
                let piece = trim(rest);
                if starts_with(piece, name) {
                    return String::from_str(piece);
                }
                return String::new();
            },
        }
    }
}

/// Build a credential from a raw cookie header by extracting the primary
/// and the second-factor cookie; either may come out empty when absent.
pub fn credential_from_cookie_header(header: &str) -> (c: SessionCredential)
    ensures
        c.auth@ == extract_cookie_spec(header@, auth_cookie_name()),
        c.two_factor@ == extract_cookie_spec(header@, two_factor_cookie_name()),
{
    let auth = extract_cookie(header, "auth=");
    let two_factor = extract_cookie(header, "twoFactorAuth=");
    SessionCredential { auth, two_factor }
}

/// Render a credential as the cookie header that replays both cookies
/// against the remote service, in the form `first; second`.
pub fn cookie_header(c: &SessionCredential) -> (r: String)
    ensures
        r@ == c.auth@ + seq![';', ' '] + c.two_factor@,
{
    proof {
        reveal_strlit("; ");
    }
    let mut out = c.auth.clone();
    out.append("; ");
    out.append(c.two_factor.as_str());
    proof {
        assert(out@ =~= c.auth@ + seq![';', ' '] + c.two_factor@);
    }
    out
}

} // verus!

