//! Compositor IPC: socket naming, the command client and the event listener.

use vstd::prelude::*;
use crate::text::{append_chars, chars_of, opt_text, string_of};

pub mod client;
pub mod events;

pub use client::HyprlandClient;
pub use events::{EventListener, HyprEvent};

verus! {

/// Where the compositor's sockets live when `XDG_RUNTIME_DIR` is not set.
pub open spec fn default_runtime_dir() -> Seq<char> {
    "/run/user/1000"@
}

/// The path of the socket file `file` of the compositor instance `signature`.
pub open spec fn socket_path_text(
    runtime_dir: Option<Seq<char>>,
    signature: Seq<char>,
    file: Seq<char>,
) -> Seq<char> {
    let base = match runtime_dir {
        Some(dir) => dir,
        None => default_runtime_dir(),
    };
    base + "/hypr/"@ + signature + "/"@ + file
}

/// Builds the path of the socket file `file` of the compositor instance
/// `signature` below `runtime_dir`, or below `/run/user/1000` without one.
pub fn socket_path(runtime_dir: Option<&str>, signature: &str, file: &str) -> (path: String)
    ensures
        path@ == socket_path_text(opt_text(runtime_dir), signature@, file@),
{
    let mut out = match runtime_dir {
        Some(dir) => chars_of(dir),
        None => chars_of("/run/user/1000"),
    };
    append_chars(&mut out, &chars_of("/hypr/"));
    append_chars(&mut out, &chars_of(signature));
    append_chars(&mut out, &chars_of("/"));
    append_chars(&mut out, &chars_of(file));
    string_of(&out)
}

} // verus!
