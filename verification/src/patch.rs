//! The config patcher.  Before a connection attempt the raw protocol config
//! is rewritten: for the credentialed protocol an inline authentication block
//! is appended, three directives that conflict with the host CLI invocation
//! are commented out, and a local management-socket directive with lowered
//! log verbosity is appended.  The other protocol authenticates through keys
//! embedded in the config, which is therefore written unmodified.
use crate::text::{replace_all, replace_str};
use crate::types::{Credentials, Protocol};
use vstd::prelude::*;

verus! {

/// The inline authentication block: username, then password.
pub open spec fn auth_block(user: Seq<char>, pass: Seq<char>) -> Seq<char> {
    "\n\n<auth-user-pass>\n"@ + user + "\n"@ + pass + "\n</auth-user-pass>"@
}

/// The appended management-interface directive and verbosity setting.
pub open spec fn management_suffix() -> Seq<char> {
    "\n\nmanagement localhost 7505\nverb 2"@
}

/// The credentialed protocol's config after patching: the authentication
/// block appended, each conflicting directive commented out, and the
/// management directive appended.
pub open spec fn patched_credentialed(cfg: Seq<char>, user: Seq<char>, pass: Seq<char>) -> Seq<
    char,
> {
    let with_auth = cfg + auth_block(user, pass);
    let c1 = replace_all(with_auth, "route-method exe"@, "# route-method exe"@);
    let c2 = replace_all(c1, "route-delay 2"@, "# route-delay 2"@);
    let c3 = replace_all(c2, "register-dns"@, "# register-dns"@);
    c3 + management_suffix()
}

/// What the generated config file holds for each protocol.
pub open spec fn patched_config(p: Protocol, cfg: Seq<char>, user: Seq<char>, pass: Seq<char>) -> Seq<
    char,
> {
    if p is OpenVPN {
        patched_credentialed(cfg, user, pass)
    } else {
        cfg
    }
}

/// Rewrite a raw config blob for a connection attempt with the given
/// credentials.  The caller writes the result to the protocol's config path.
pub fn patch_config(protocol: &Protocol, config: String, credentials: &Credentials) -> (r: String)
    ensures
        r@ == patched_config(*protocol, config@, credentials.username@, credentials.password@),
{
    if let Protocol::WireGuard = protocol {
        return config;
    }
    let ghost cfg = config@;
    let ghost user = credentials.username@;
    let ghost pass = credentials.password@;
    let mut with_auth = config;
    with_auth.append("\n\n<auth-user-pass>\n");
    with_auth.append(credentials.username.as_str());
    with_auth.append("\n");
    with_auth.append(credentials.password.as_str());
    with_auth.append("\n</auth-user-pass>");
    proof {
        assert(with_auth@ =~= cfg + auth_block(user, pass));
    }
    proof {
        reveal_strlit("route-method exe");
        reveal_strlit("route-delay 2");
        reveal_strlit("register-dns");
    }
    let c1 = replace_str(with_auth.as_str(), "route-method exe", "# route-method exe");
    let c2 = replace_str(c1.as_str(), "route-delay 2", "# route-delay 2");
    let mut c3 = replace_str(c2.as_str(), "register-dns", "# register-dns");
    c3.append("\n\nmanagement localhost 7505\nverb 2");
    c3
}

} // verus!
