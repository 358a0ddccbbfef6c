//! The SSH tunnel through which the database may be reached.
use vstd::prelude::*;
use vstd::string::*;
use crate::config::SshSettings;
use crate::text::push_decimal;

verus! {

/// The characters of an optional string; empty when there is none.
pub open spec fn or_empty(s: Option<String>) -> Seq<char> {
    match s {
        Some(s) => s@,
        None => Seq::empty(),
    }
}

/// The arguments of `ssh` that forward local port `port` to the database
/// port 5432 of `host`, logged in as `user`, with the private key `key`
/// when one is given.
pub open spec fn tunnel_args(user: Seq<char>, host: Seq<char>, key: Seq<char>, port: u16) -> Seq<Seq<char>> {
    seq!["-N"@, "-L"@, crate::text::decimal(port as nat) + ":127.0.0.1:5432"@, user + "@"@ + host]
        + (if key.len() > 0 { seq!["-i"@, key] } else { Seq::empty() })
        + seq!["-o"@, "StrictHostKeyChecking=no"@, "-o"@, "ExitOnForwardFailure=yes"@]
}

/// Where each argument of the tunnel stands: `-N`, then `-L` with the
/// forward of local port `port` to the database port 5432 on the remote
/// side, then `user@host`, then `-i` and the key when a key is given, and
/// last the two `-o` options; nothing else.
pub proof fn lemma_tunnel_args_layout(user: Seq<char>, host: Seq<char>, key: Seq<char>, port: u16)
    ensures
        ({
            let a = tunnel_args(user, host, key, port);
            let n = a.len();
            &&& n == if key.len() > 0 { 10int } else { 8int }
            &&& a[0] == "-N"@
            &&& a[1] == "-L"@
            &&& a[2] == crate::text::decimal(port as nat) + ":127.0.0.1:5432"@
            &&& a[3] == user + "@"@ + host
            &&& key.len() > 0 ==> a[4] == "-i"@ && a[5] == key
            &&& a[n - 4] == "-o"@
            &&& a[n - 3] == "StrictHostKeyChecking=no"@
            &&& a[n - 2] == "-o"@
            &&& a[n - 1] == "ExitOnForwardFailure=yes"@
        }),
{
}

/// The `ssh` arguments of the tunnel to open before connecting to the
/// database on local port `local_port`; none when no SSH user is set.
pub fn ssh_tunnel_args(ssh: &SshSettings, local_port: u16) -> (r: Option<Vec<String>>)
    ensures
        r is None <==> (ssh.user is None || ssh.user.unwrap()@.len() == 0),
        r matches Some(args) ==> crate::text::strings_view(args@) == tunnel_args(
            ssh.user.unwrap()@,
            or_empty(ssh.host),
            or_empty(ssh.key_path),
            local_port,
        ),
        r matches Some(args) ==> {
            let a = crate::text::strings_view(args@);
            let n = a.len();
            let key = or_empty(ssh.key_path);
            &&& n == if key.len() > 0 { 10int } else { 8int }
            &&& a[0] == "-N"@
            &&& a[1] == "-L"@
            &&& a[2] == crate::text::decimal(local_port as nat) + ":127.0.0.1:5432"@
            &&& a[3] == ssh.user.unwrap()@ + "@"@ + or_empty(ssh.host)
            &&& key.len() > 0 ==> a[4] == "-i"@ && a[5] == key
            &&& a[n - 4] == "-o"@
            &&& a[n - 3] == "StrictHostKeyChecking=no"@
            &&& a[n - 2] == "-o"@
            &&& a[n - 1] == "ExitOnForwardFailure=yes"@
        },
{
    let user = match &ssh.user {
        Some(u) => u,
        None => return None,
    };
    if user.as_str().is_empty() {
        return None;
    }
    let mut forward = String::new();
    push_decimal(&mut forward, local_port as u128);
    forward.append(":127.0.0.1:5432");
    let mut login = user.clone();
    login.append("@");
    match &ssh.host {
        Some(h) => login.append(h.as_str()),
        None => {},
    }
    let mut args: Vec<String> = Vec::new();
    args.push(String::from_str("-N"));
    args.push(String::from_str("-L"));
    args.push(forward);
    args.push(login);
    match &ssh.key_path {
        Some(k) => {
            if !k.as_str().is_empty() {
                args.push(String::from_str("-i"));
                args.push(k.clone());
            }
        },
        None => {},
    }
    args.push(String::from_str("-o"));
    args.push(String::from_str("StrictHostKeyChecking=no"));
    args.push(String::from_str("-o"));
    args.push(String::from_str("ExitOnForwardFailure=yes"));
    proof {
        let key = or_empty(ssh.key_path);
        let host = or_empty(ssh.host);
        assert(Seq::<char>::empty() + crate::text::decimal(local_port as nat) =~= crate::text::decimal(
            local_port as nat,
        ));
        assert(user@ + "@"@ + Seq::<char>::empty() =~= user@ + "@"@);
        assert(crate::text::strings_view(args@) =~= tunnel_args(user@, host, key, local_port));
        lemma_tunnel_args_layout(user@, host, key, local_port);
    }
    Some(args)
}

} // verus!
