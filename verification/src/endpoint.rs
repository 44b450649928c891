//! The endpoint resolver: how an explicit endpoint and the TLS flag give
//! the address that the connection is made to.
//!
//! An endpoint may state its scheme itself, as `https://` or `http://` in
//! lower case at its start. Where it does and the flag is given too, the
//! two must agree: neither overrides the other.

use vstd::prelude::*;
use crate::error::{ConfigField, StorageError};

verus! {

/// The scheme of a connection over TLS.
pub open spec fn secure_scheme() -> Seq<char> {
    seq!['h', 't', 't', 'p', 's', ':', '/', '/']
}

/// The scheme of a connection without TLS.
pub open spec fn plain_scheme() -> Seq<char> {
    seq!['h', 't', 't', 'p', ':', '/', '/']
}

/// The scheme that an endpoint states itself: `Some(true)` for
/// `https://`, `Some(false)` for `http://`, `None` where it states none.
pub open spec fn stated_scheme(endpoint: Seq<char>) -> Option<bool> {
    if secure_scheme().is_prefix_of(endpoint) {
        Some(true)
    } else if plain_scheme().is_prefix_of(endpoint) {
        Some(false)
    } else {
        None
    }
}

/// What an endpoint holds behind the scheme that it states.
pub open spec fn authority(endpoint: Seq<char>) -> Seq<char> {
    match stated_scheme(endpoint) {
        Some(true) => endpoint.skip(8),
        Some(false) => endpoint.skip(7),
        None => endpoint,
    }
}

/// A character of the visible part of ASCII: neither blank nor control.
pub open spec fn visible(c: char) -> bool {
    '!' <= c <= '~'
}

/// Whether `://` stands at position `i` of `s`.
pub open spec fn scheme_mark_at(s: Seq<char>, i: int) -> bool {
    &&& 0 <= i
    &&& i + 3 <= s.len()
    &&& s[i] == ':'
    &&& s[i + 1] == '/'
    &&& s[i + 2] == '/'
}

/// An authority is well formed where it is not empty, holds visible ASCII
/// only, and holds no further `://`.
pub open spec fn well_formed(authority: Seq<char>) -> bool {
    &&& authority.len() > 0
    &&& forall|i: int| 0 <= i < authority.len() ==> visible(#[trigger] authority[i])
    &&& forall|i: int| !scheme_mark_at(authority, i)
}

/// The address that an endpoint and the TLS flag resolve to, or the option
/// that is at fault.
///
/// A malformed endpoint is at fault itself. A stated scheme stays, unless
/// the flag contradicts it: then the flag is at fault. Without a stated
/// scheme the flag selects one, and `https://` is taken where there is no
/// flag.
pub open spec fn resolved(endpoint: Seq<char>, use_ssl: Option<bool>) -> Result<
    Seq<char>,
    ConfigField,
> {
    if !well_formed(authority(endpoint)) {
        Err(ConfigField::Endpoint)
    } else {
        match (stated_scheme(endpoint), use_ssl) {
            (Some(stated), Some(flag)) => if stated == flag {
                Ok(endpoint)
            } else {
                Err(ConfigField::UseSsl)
            },
            (Some(_), None) => Ok(endpoint),
            (None, Some(false)) => Ok(plain_scheme() + endpoint),
            (None, _) => Ok(secure_scheme() + endpoint),
        }
    }
}

/// Whether the address that [`resolved`] gives is reached over TLS.
pub open spec fn resolved_secure(endpoint: Seq<char>, use_ssl: Option<bool>) -> bool {
    match stated_scheme(endpoint) {
        Some(stated) => stated,
        None => use_ssl != Some(false),
    }
}

/// Every address that is resolved states its scheme, as the flag asked
/// where there was one.
pub proof fn lemma_resolved_states_scheme(endpoint: Seq<char>, use_ssl: Option<bool>)
    requires
        resolved(endpoint, use_ssl) is Ok,
    ensures
        stated_scheme(resolved(endpoint, use_ssl)->Ok_0) == Some(
            resolved_secure(endpoint, use_ssl),
        ),
        use_ssl is Some ==> resolved_secure(endpoint, use_ssl) == use_ssl->Some_0,
        authority(resolved(endpoint, use_ssl)->Ok_0) == authority(endpoint),
{
    let out = resolved(endpoint, use_ssl)->Ok_0;
    if stated_scheme(endpoint) is None {
        if use_ssl == Some(false) {
            assert(out.subrange(0, 7) =~= plain_scheme());
            assert(out[4] == ':');
            assert(!secure_scheme().is_prefix_of(out)) by {
                if secure_scheme().is_prefix_of(out) {
                    assert(out.subrange(0, 8)[4] == 's');
                }
            }
            assert(out.skip(7) =~= endpoint);
        } else {
            assert(out.subrange(0, 8) =~= secure_scheme());
            assert(out.skip(8) =~= endpoint);
        }
    }
}

/// Whether `text` starts with `start`.
fn starts_with(text: &str, start: &str) -> (out: bool)
    ensures
        out == start@.is_prefix_of(text@),
{
    let n: usize = start.unicode_len();
    if text.unicode_len() < n {
        return false;
    }
    let mut i: usize = 0;
    while i < n
        invariant
            i <= n,
            n == start@.len(),
            n <= text@.len(),
            forall|j: int| 0 <= j < i ==> text@[j] == start@[j],
        decreases n - i,
    {
        if text.get_char(i) != start.get_char(i) {
            assert(text@.subrange(0, n as int)[i as int] != start@[i as int]);
            return false;
        }
        i += 1;
    }
    assert(start@ =~= text@.subrange(0, n as int));
    true
}

/// The scheme that an endpoint states itself, if it states one.
pub fn scheme_of(endpoint: &str) -> (out: Option<bool>)
    ensures
        out == stated_scheme(endpoint@),
{
    proof {
        reveal_strlit("https://");
        reveal_strlit("http://");
        assert("https://"@ =~= secure_scheme());
        assert("http://"@ =~= plain_scheme());
    }
    if starts_with(endpoint, "https://") {
        Some(true)
    } else if starts_with(endpoint, "http://") {
        Some(false)
    } else {
        None
    }
}

/// Whether an authority is well formed.
fn is_well_formed(authority: &str) -> (out: bool)
    requires
        authority.is_ascii(),
    ensures
        out == well_formed(authority@),
{
    let n: usize = authority.unicode_len();
    if n == 0 {
        return false;
    }
    let mut i: usize = 0;
    while i < n
        invariant
            i <= n,
            n == authority@.len(),
            authority.is_ascii(),
            forall|j: int| 0 <= j < i ==> visible(#[trigger] authority@[j]),
            forall|j: int| j < i ==> !scheme_mark_at(authority@, j),
        decreases n - i,
    {
        let c: u8 = authority.get_ascii(i);
        if c < 0x21 || c > 0x7e {
            assert(!visible(authority@[i as int]));
            return false;
        }
        if c == 0x3a && n - i >= 3 && authority.get_ascii(i + 1) == 0x2f && authority.get_ascii(
            i + 2,
        ) == 0x2f {
            assert(scheme_mark_at(authority@, i as int));
            return false;
        }
        i += 1;
    }
    true
}

/// Resolves an explicit endpoint and the TLS flag to the address of the
/// connection.
///
/// Fails with `StorageError::Config(ConfigField::Endpoint)` on a malformed
/// endpoint, and with `StorageError::Config(ConfigField::UseSsl)` where the
/// flag contradicts the scheme that the endpoint states.
pub fn endpoint_resolver(endpoint: &str, use_ssl: Option<bool>) -> (out: Result<
    String,
    StorageError,
>)
    ensures
        match resolved(endpoint@, use_ssl) {
            Ok(address) => out matches Ok(s) && s@ == address,
            Err(field) => out == Err::<String, StorageError>(StorageError::Config(field)),
        },
{
    if !endpoint.is_ascii() {
        proof {
            lemma_other_than_ascii_is_malformed(endpoint@);
        }
        return Err(StorageError::Config(ConfigField::Endpoint));
    }
    proof {
        reveal_strlit("https://");
        reveal_strlit("http://");
        assert("https://"@ =~= secure_scheme());
        assert("http://"@ =~= plain_scheme());
    }
    let n: usize = endpoint.unicode_len();
    let stated: Option<bool> = scheme_of(endpoint);
    let rest: &str = match stated {
        Some(true) => endpoint.substring_ascii(8, n),
        Some(false) => endpoint.substring_ascii(7, n),
        None => endpoint,
    };
    if !is_well_formed(rest) {
        return Err(StorageError::Config(ConfigField::Endpoint));
    }
    match (stated, use_ssl) {
        (Some(scheme), Some(flag)) => {
            if scheme == flag {
                Ok(endpoint.to_owned())
            } else {
                Err(StorageError::Config(ConfigField::UseSsl))
            }
        },
        (Some(_), None) => Ok(endpoint.to_owned()),
        (None, Some(false)) => {
            let mut address = "http://".to_owned();
            address.append(endpoint);
            Ok(address)
        },
        (None, _) => {
            let mut address = "https://".to_owned();
            address.append(endpoint);
            Ok(address)
        },
    }
}

/// An endpoint with a character outside ASCII has no well-formed
/// authority.
proof fn lemma_other_than_ascii_is_malformed(endpoint: Seq<char>)
    requires
        !vstd::utf8::is_ascii_chars(endpoint),
    ensures
        !well_formed(authority(endpoint)),
{
    let i = choose|i: int|
        0 <= i < endpoint.len() && !('\0' <= #[trigger] endpoint[i] <= '\u{7f}');
    let rest = authority(endpoint);
    let skipped = endpoint.len() - rest.len();
    if i < skipped {
        if stated_scheme(endpoint) == Some(true) {
            assert(endpoint.subrange(0, 8)[i] == secure_scheme()[i]);
        } else {
            assert(endpoint.subrange(0, 7)[i] == plain_scheme()[i]);
        }
    } else {
        assert(rest[i - skipped] == endpoint[i]);
        assert(!visible(rest[i - skipped]));
    }
}

} // verus!
