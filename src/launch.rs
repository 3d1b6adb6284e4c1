use vstd::prelude::*;
use vstd::string::StringExecFns;

use crate::error::HelperError;
use crate::port_text::{classify_port_text, port_text, PortText};

verus! {

/// What one chunk of the server's output says: `None` while it holds only
/// whitespace, the port once it holds one.
pub open spec fn announced_port(chunk: Seq<u8>) -> Result<Option<u16>, HelperError> {
    match port_text(chunk) {
        PortText::Blank => Ok(None),
        PortText::Port(p) => Ok(Some(p)),
        PortText::Malformed => Err(HelperError::MalformedPort),
    }
}

/// Reads one chunk of the server's output as its port announcement.
pub fn decode_announcement(chunk: &[u8]) -> (r: Result<Option<u16>, HelperError>)
    ensures
        r == announced_port(chunk@),
{
    match classify_port_text(chunk) {
        PortText::Blank => Ok(None),
        PortText::Port(p) => Ok(Some(p)),
        PortText::Malformed => Err(HelperError::MalformedPort),
    }
}

/// Where the server executable lives. A repository root that carries the
/// tool's marker folders ships its own copy; otherwise the Qt installation
/// named by the environment provides it.
pub fn designer_location(repo_root: Option<&str>, qt_dir: Option<&str>) -> (r: Result<
    String,
    HelperError,
>)
    ensures
        repo_root is Some ==> r is Ok && r->Ok_0@ == repo_root->Some_0@
            + "\\Client\\3rd\\qt\\bin\\designer.exe"@,
        repo_root is None && qt_dir is Some ==> r is Ok && r->Ok_0@ == qt_dir->Some_0@
            + "\\bin\\designer.exe"@,
        repo_root is None && qt_dir is None ==> r == Err::<String, HelperError>(
            HelperError::ExecutableNotFound,
        ),
{
    match repo_root {
        Some(root) => {
            let mut path = String::from_str(root);
            path.append("\\Client\\3rd\\qt\\bin\\designer.exe");
            Ok(path)
        },
        None => match qt_dir {
            Some(dir) => {
                let mut path = String::from_str(dir);
                path.append("\\bin\\designer.exe");
                Ok(path)
            },
            None => Err(HelperError::ExecutableNotFound),
        },
    }
}

/// The arguments the server is started with: the flag that makes it run as
/// a server, then the work item's path.
pub fn server_args(work_item: &str) -> (r: Vec<String>)
    ensures
        r@.len() == 2,
        r@[0]@ == "--server"@,
        r@[1]@ == work_item@,
{
    let mut args: Vec<String> = Vec::new();
    args.push(String::from_str("--server"));
    args.push(String::from_str(work_item));
    args
}

} // verus!
