//! The decisions and names that opening a connection to WMI takes.

use vstd::prelude::*;
use crate::text::{chars_of, push_str_chars, string_of};

verus! {

/// `CO_E_NOTINITIALIZED`: COM is not initialized on the calling thread.
pub const CO_E_NOTINITIALIZED: i32 = -2147221008;

/// `RPC_E_TOO_LATE`: the process security was already set.
pub const RPC_E_TOO_LATE: i32 = -2147417831;

/// The path of a namespace on a remote computer: `\\<server>\<namespace>`.
pub open spec fn remote_path_text(server: Seq<char>, namespace_path: Seq<char>) -> Seq<char> {
    "\\\\"@ + server + "\\"@ + namespace_path
}

/// Builds the path of a namespace on a remote computer.
pub fn remote_namespace_path(server: &str, namespace_path: &str) -> (r: String)
    ensures
        r@ == remote_path_text(server@, namespace_path@),
{
    let mut out = chars_of("\\\\");
    push_str_chars(&mut out, server);
    push_str_chars(&mut out, "\\");
    push_str_chars(&mut out, namespace_path);
    string_of(&out)
}

/// The remote path is two backslashes, the server's name, one backslash and
/// the namespace path: character by character, with nothing else.
pub proof fn lemma_remote_path_layout(server: Seq<char>, namespace_path: Seq<char>)
    ensures
        ({
            let p = remote_path_text(server, namespace_path);
            let n = server.len() as int;
            &&& p.len() == n + namespace_path.len() + 3
            &&& p[0] == '\\' && p[1] == '\\'
            &&& p.subrange(2, n + 2) == server
            &&& p[n + 2] == '\\'
            &&& p.subrange(n + 3, p.len() as int) == namespace_path
        }),
{
    reveal_strlit("\\\\");
    reveal_strlit("\\");
    let p = remote_path_text(server, namespace_path);
    let n = server.len() as int;
    assert(p.subrange(2, n + 2) =~= server);
    assert(p.subrange(n + 3, p.len() as int) =~= namespace_path);
}

/// Whether a failure to create the WMI locator is mended by initializing
/// COM and trying again: exactly when COM was not initialized.
pub fn retry_after_com_init(code: i32) -> (r: bool)
    ensures
        r == (code == CO_E_NOTINITIALIZED),
{
    code == CO_E_NOTINITIALIZED
}

/// Whether a failure to set the default process security ends the
/// connection: any failure but finding the security already set.
pub fn security_failure_is_fatal(code: i32) -> (r: bool)
    ensures
        r == (code != RPC_E_TOO_LATE),
{
    code != RPC_E_TOO_LATE
}

} // verus!
