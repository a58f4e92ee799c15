//! Live session control: the commands another shell sends to a running
//! session, how a received command is checked, what is answered, and where
//! the session's socket lives. The socket I/O itself runs outside the library.
use vstd::prelude::*;

use crate::domain::resource_id::{
    canonical_name_spec, error_message, law_canonical_name_reads_back, name_part, parse_spec, without_hint,
    IdView, ResourceId, ResourceIdError,
};
use crate::paths::{join_path, path_join};
use crate::text::{decimal, push_str, push_u64, trim};

verus! {

/// The control protocol version this build speaks.
pub const CONTROL_SCHEMA_VERSION: u32 = 1;

/// A command for a running session.
#[derive(Debug, Clone, PartialEq, Eq)]
pub enum RuntimeCommand {
    Open { request_id: String, resource: ResourceId },
    Configure { request_id: String, key: String, value: String },
}

/// The mathematical content of a `RuntimeCommand`.
pub enum CommandView {
    Open { request_id: Seq<char>, resource: IdView },
    Configure { request_id: Seq<char>, key: Seq<char>, value: Seq<char> },
}

impl View for RuntimeCommand {
    type V = CommandView;

    open spec fn view(&self) -> CommandView {
        match self {
            RuntimeCommand::Open { request_id, resource } => CommandView::Open {
                request_id: request_id@,
                resource: resource@,
            },
            RuntimeCommand::Configure { request_id, key, value } => CommandView::Configure {
                request_id: request_id@,
                key: key@,
                value: value@,
            },
        }
    }
}

impl RuntimeCommand {
    /// The id the sender gave the command.
    pub fn request_id(&self) -> (s: &str)
        ensures
            s@ == match self@ {
                CommandView::Open { request_id, .. } => request_id,
                CommandView::Configure { request_id, .. } => request_id,
            },
    {
        match self {
            RuntimeCommand::Open { request_id, .. } => request_id.as_str(),
            RuntimeCommand::Configure { request_id, .. } => request_id.as_str(),
        }
    }
}

/// The answer to a command.
#[derive(Debug, Clone, PartialEq, Eq)]
pub struct ControlReply {
    pub ok: bool,
    pub result: Option<String>,
    pub error: Option<String>,
}

impl ControlReply {
    /// A success carrying `result`.
    pub fn ok(result: String) -> (r: Self)
        ensures
            r.ok,
            r.result == Some(result),
            r.error is None,
    {
        ControlReply { ok: true, result: Some(result), error: None }
    }

    /// A failure carrying `error`.
    pub fn error(error: String) -> (r: Self)
        ensures
            !r.ok,
            r.result is None,
            r.error == Some(error),
    {
        ControlReply { ok: false, result: None, error: Some(error) }
    }
}

/// A command as it travels over the socket, one JSON object per line.
#[derive(Debug, Clone, PartialEq, Eq)]
pub struct WireCommand {
    pub schema_version: u32,
    pub id: String,
    pub method: String,
    pub resource: Option<String>,
    pub key: Option<String>,
    pub value: Option<String>,
}

/// A reply as it travels over the socket.
#[derive(Debug, Clone, PartialEq, Eq)]
pub struct WireReply {
    pub schema_version: u32,
    pub id: String,
    pub ok: bool,
    pub result: Option<String>,
    pub error: Option<String>,
}

/// How a received command is read: the protocol version must match; `open`
/// needs a resource that parses, `set` a key and a value; any other method
/// is refused. A refusal carries the command's id and the reason.
pub open spec fn wire_command_spec(w: WireCommand) -> Result<CommandView, (Seq<char>, Seq<char>)> {
    if w.schema_version != CONTROL_SCHEMA_VERSION {
        Err((w.id@, "unsupported control schema "@ + decimal(w.schema_version as nat)))
    } else if w.method@ == "open"@ {
        match w.resource {
            None => Err((w.id@, "open command requires resource"@)),
            Some(r) => match parse_spec(r@, None) {
                Err(e) => Err((w.id@, error_message(e))),
                Ok(id) => Ok(CommandView::Open { request_id: w.id@, resource: id }),
            },
        }
    } else if w.method@ == "set"@ {
        match w.key {
            None => Err((w.id@, "set command requires key"@)),
            Some(k) => match w.value {
                None => Err((w.id@, "set command requires value"@)),
                Some(v) => Ok(CommandView::Configure { request_id: w.id@, key: k@, value: v@ }),
            },
        }
    } else {
        Err((w.id@, "unknown control method `"@ + w.method@ + "`"@))
    }
}

pub open spec fn command_result_view(r: Result<RuntimeCommand, (String, String)>) -> Result<CommandView, (Seq<char>, Seq<char>)> {
    match r {
        Ok(c) => Ok(c@),
        Err((id, msg)) => Err((id@, msg@)),
    }
}

/// Checks a received command (see `wire_command_spec`).
pub fn command_from_wire(value: WireCommand) -> (r: Result<RuntimeCommand, (String, String)>)
    ensures
        command_result_view(r) == wire_command_spec(value),
{
    if value.schema_version != CONTROL_SCHEMA_VERSION {
        let mut msg = crate::text::owned("unsupported control schema ");
        push_u64(&mut msg, value.schema_version as u64);
        return Err((value.id, msg));
    }
    if crate::text::str_eq(value.method.as_str(), "open") {
        match value.resource {
            None => Err((value.id, crate::text::owned("open command requires resource"))),
            Some(r) => match ResourceId::parse(r.as_str()) {
                Err(e) => Err((value.id, e.message())),
                Ok(resource) => Ok(RuntimeCommand::Open { request_id: value.id, resource }),
            },
        }
    } else if crate::text::str_eq(value.method.as_str(), "set") {
        match value.key {
            None => Err((value.id, crate::text::owned("set command requires key"))),
            Some(key) => match value.value {
                None => Err((value.id, crate::text::owned("set command requires value"))),
                Some(v) => Ok(RuntimeCommand::Configure { request_id: value.id, key, value: v }),
            },
        }
    } else {
        let mut msg = crate::text::owned("unknown control method `");
        push_str(&mut msg, value.method.as_str());
        push_str(&mut msg, "`");
        Err((value.id, msg))
    }
}

/// The wire form of `reply` to the command `id`.
pub fn wire_reply(id: &str, reply: ControlReply) -> (w: WireReply)
    ensures
        w.schema_version == CONTROL_SCHEMA_VERSION,
        w.id@ == id@,
        w.ok == reply.ok,
        w.result == reply.result,
        w.error == reply.error,
{
    WireReply {
        schema_version: CONTROL_SCHEMA_VERSION,
        id: crate::text::owned(id),
        ok: reply.ok,
        result: reply.result,
        error: reply.error,
    }
}

/// What became of a command handed to the interface.
#[derive(Debug, Clone, PartialEq, Eq)]
pub enum Delivery {
    /// The interface no longer takes commands.
    NotAccepted,
    /// The interface answered.
    Answered(ControlReply),
    /// The interface let the command go unanswered.
    Dropped,
    /// The answer did not come in time.
    TimedOut,
}

/// Why a command got no answer from the interface.
pub open spec fn delivery_error(d: Delivery) -> Seq<char> {
    match d {
        Delivery::NotAccepted => "ghzinga UI is not accepting commands"@,
        Delivery::Dropped => "ghzinga UI dropped command"@,
        _ => "ghzinga UI command timed out"@,
    }
}

/// The reply sent back over the socket for command `request_id`: the
/// interface's answer, or an error saying why there is none.
pub fn delivery_wire_reply(request_id: &str, delivery: Delivery) -> (w: WireReply)
    ensures
        w.schema_version == CONTROL_SCHEMA_VERSION,
        w.id@ == request_id@,
        match delivery {
            Delivery::Answered(r) => w.ok == r.ok && w.result == r.result && w.error == r.error,
            _ => !w.ok && w.result is None && w.error is Some && w.error->0@ == delivery_error(delivery),
        },
{
    let reply = match delivery {
        Delivery::NotAccepted => ControlReply::error(crate::text::owned("ghzinga UI is not accepting commands")),
        Delivery::Answered(r) => r,
        Delivery::Dropped => ControlReply::error(crate::text::owned("ghzinga UI dropped command")),
        Delivery::TimedOut => ControlReply::error(crate::text::owned("ghzinga UI command timed out")),
    };
    wire_reply(request_id, reply)
}

/// The command that asks a session to open `resource`.
pub fn open_command(id: String, resource: &ResourceId) -> (w: WireCommand)
    ensures
        w.schema_version == CONTROL_SCHEMA_VERSION,
        w.id == id,
        w.method@ == "open"@,
        w.resource is Some && w.resource->0@ == canonical_name_spec(resource@),
        w.key is None,
        w.value is None,
{
    WireCommand {
        schema_version: CONTROL_SCHEMA_VERSION,
        id,
        method: crate::text::owned("open"),
        resource: Some(resource.canonical_name()),
        key: None,
        value: None,
    }
}

/// The command that asks a session to change the setting `key` to `value`.
pub fn set_command(id: String, key: &str, value: &str) -> (w: WireCommand)
    ensures
        w.schema_version == CONTROL_SCHEMA_VERSION,
        w.id == id,
        w.method@ == "set"@,
        w.resource is None,
        w.key is Some && w.key->0@ == key@,
        w.value is Some && w.value->0@ == value@,
{
    WireCommand {
        schema_version: CONTROL_SCHEMA_VERSION,
        id,
        method: crate::text::owned("set"),
        resource: None,
        key: Some(crate::text::owned(key)),
        value: Some(crate::text::owned(value)),
    }
}

/// A session reads an `open` command, as `open_command` builds it, as the
/// request to open the same resource (its kind hint aside), whenever the
/// resource's owner and repository are names `owner/repo#number` can carry
/// and its number is positive.
pub proof fn law_open_command_reads_back(w: WireCommand, id: IdView)
    requires
        w.schema_version == CONTROL_SCHEMA_VERSION,
        w.method@ == "open"@,
        w.resource is Some && w.resource->0@ == canonical_name_spec(id),
        name_part(id.owner),
        name_part(id.repo),
        id.number > 0,
    ensures
        wire_command_spec(w) == Ok::<CommandView, (Seq<char>, Seq<char>)>(
            CommandView::Open { request_id: w.id@, resource: without_hint(id) },
        ),
{
    law_canonical_name_reads_back(id);
}

/// A session reads a `set` command, as `set_command` builds it, as the
/// request to change that key to that value.
pub proof fn law_set_command_reads_back(w: WireCommand)
    requires
        w.schema_version == CONTROL_SCHEMA_VERSION,
        w.method@ == "set"@,
        w.key is Some,
        w.value is Some,
    ensures
        wire_command_spec(w) == Ok::<CommandView, (Seq<char>, Seq<char>)>(
            CommandView::Configure { request_id: w.id@, key: w.key->0@, value: w.value->0@ },
        ),
{
    reveal_strlit("open");
    reveal_strlit("set");
}

/// The directory of the session sockets: the override when given; else
/// `ghzinga` under the runtime directory; else `/tmp/ghzinga-<suffix>`, the
/// suffix being the user id when it is set and not blank, else
/// `fallback_suffix` (the effective user id).
pub open spec fn runtime_dir_spec(override_dir: Option<Seq<char>>, xdg_runtime: Option<Seq<char>>, uid: Option<Seq<char>>, fallback_suffix: Seq<char>) -> Seq<char> {
    match override_dir {
        Some(p) => p,
        None => match xdg_runtime {
            Some(x) => path_join(x, "ghzinga"@),
            None => {
                let suffix = match uid {
                    Some(u) => if trim(u).len() > 0 { u } else { fallback_suffix },
                    None => fallback_suffix,
                };
                path_join("/tmp"@, "ghzinga-"@ + suffix)
            },
        },
    }
}

/// The directory of the session sockets, given the environment (see `runtime_dir_spec`).
pub fn runtime_dir_from_env(override_dir: Option<String>, xdg_runtime: Option<String>, uid: Option<String>, fallback_suffix: String) -> (p: String)
    ensures
        p@ == runtime_dir_spec(
            crate::domain::resource::opt_str(override_dir),
            crate::domain::resource::opt_str(xdg_runtime),
            crate::domain::resource::opt_str(uid),
            fallback_suffix@,
        ),
{
    if let Some(path) = override_dir {
        return path;
    }
    if let Some(x) = xdg_runtime {
        return join_path(x.as_str(), "ghzinga");
    }
    let suffix = match uid {
        Some(u) => if crate::text::is_blank(u.as_str()) { fallback_suffix } else { u },
        None => fallback_suffix,
    };
    let mut name = crate::text::owned("ghzinga-");
    push_str(&mut name, suffix.as_str());
    join_path("/tmp", name.as_str())
}

/// The socket of session `session_id` in `runtime_dir`.
pub fn socket_path(runtime_dir: &str, session_id: &str) -> (p: String)
    ensures
        p@ == path_join(runtime_dir@, session_id@ + ".sock"@),
{
    let mut name = crate::text::owned(session_id);
    push_str(&mut name, ".sock");
    join_path(runtime_dir, name.as_str())
}

} // verus!
