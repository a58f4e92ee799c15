use ghzinga::control::{
    command_from_wire, delivery_wire_reply, open_command, runtime_dir_from_env, set_command, socket_path, wire_reply,
    ControlReply, Delivery, RuntimeCommand, WireCommand, CONTROL_SCHEMA_VERSION,
};
use ghzinga::domain::ResourceId;
use std::path::PathBuf;

fn wire(schema_version: u32, method: &str) -> WireCommand {
    WireCommand {
        schema_version,
        id: "c_1".to_string(),
        method: method.to_string(),
        resource: None,
        key: None,
        value: None,
    }
}

#[test]
fn runtime_dir_uses_override_then_xdg_then_tmp() {
    assert_eq!(
        PathBuf::from(runtime_dir_from_env(Some("/tmp/custom".into()), None, None, "7".into())),
        PathBuf::from("/tmp/custom")
    );
    assert_eq!(
        PathBuf::from(runtime_dir_from_env(None, Some("/run/user/1000".into()), None, "7".into())),
        PathBuf::from("/run/user/1000/ghzinga")
    );
    assert_eq!(
        PathBuf::from(runtime_dir_from_env(None, None, Some("1000".into()), "7".into())),
        PathBuf::from("/tmp/ghzinga-1000")
    );
    assert_eq!(
        runtime_dir_from_env(None, None, Some("  ".into()), "7".into()),
        "/tmp/ghzinga-7"
    );
}

#[test]
fn socket_sits_in_the_runtime_dir() {
    assert_eq!(socket_path("/run/g", "work"), "/run/g/work.sock");
}

#[test]
fn parses_open_wire_command() {
    let mut command = wire(1, "open");
    command.resource = Some("owner/repo#12".to_string());
    let parsed = command_from_wire(command).unwrap();
    assert!(matches!(
        parsed,
        RuntimeCommand::Open { request_id, resource }
            if request_id == "c_1" && resource.canonical_name() == "owner/repo#12"
    ));
}

#[test]
fn rejects_unknown_schema() {
    let error = command_from_wire(wire(2, "open")).unwrap_err();
    assert_eq!(error.0, "c_1");
    assert!(error.1.contains("unsupported control schema"));
    assert_eq!(error.1, "unsupported control schema 2");
}

#[test]
fn set_needs_a_key_and_a_value() {
    assert_eq!(
        command_from_wire(wire(1, "set")).unwrap_err().1,
        "set command requires key"
    );
    let mut command = wire(1, "set");
    command.key = Some("theme".into());
    assert_eq!(command_from_wire(command.clone()).unwrap_err().1, "set command requires value");
    command.value = Some("nord".into());
    assert_eq!(
        command_from_wire(command).unwrap(),
        RuntimeCommand::Configure {
            request_id: "c_1".into(),
            key: "theme".into(),
            value: "nord".into()
        }
    );
    assert_eq!(
        command_from_wire(wire(1, "close")).unwrap_err().1,
        "unknown control method `close`"
    );
    assert_eq!(
        command_from_wire(wire(1, "open")).unwrap_err().1,
        "open command requires resource"
    );
}

#[test]
fn replies_carry_the_command_id() {
    let reply = wire_reply("c_9", ControlReply::ok("opened".into()));
    assert_eq!(reply.schema_version, CONTROL_SCHEMA_VERSION);
    assert_eq!(reply.id, "c_9");
    assert!(reply.ok);
    assert_eq!(reply.result.as_deref(), Some("opened"));
    let reply = wire_reply("c_9", ControlReply::error("nope".into()));
    assert!(!reply.ok);
    assert_eq!(reply.error.as_deref(), Some("nope"));
}

#[test]
fn client_commands_name_their_method() {
    let id = ResourceId::parse("owner/repo#12").unwrap();
    let open = open_command("c_2".into(), &id);
    assert_eq!(open.method, "open");
    assert_eq!(open.resource.as_deref(), Some("owner/repo#12"));
    let set = set_command("c_3".into(), "theme", "nord");
    assert_eq!(set.key.as_deref(), Some("theme"));
    assert_eq!(set.value.as_deref(), Some("nord"));
}

#[test]
fn undelivered_commands_are_answered_with_the_reason() {
    let timed_out = delivery_wire_reply("req-1", Delivery::TimedOut);
    assert_eq!(timed_out.id, "req-1");
    assert!(!timed_out.ok);
    assert_eq!(timed_out.error.as_deref(), Some("ghzinga UI command timed out"));

    let refused = delivery_wire_reply("req-2", Delivery::NotAccepted);
    assert_eq!(refused.error.as_deref(), Some("ghzinga UI is not accepting commands"));

    let dropped = delivery_wire_reply("req-3", Delivery::Dropped);
    assert_eq!(dropped.error.as_deref(), Some("ghzinga UI dropped command"));

    let answered = delivery_wire_reply("req-4", Delivery::Answered(ControlReply::ok("opened".into())));
    assert!(answered.ok);
    assert_eq!(answered.result.as_deref(), Some("opened"));
    assert_eq!(answered.schema_version, 1);
}

#[test]
fn sent_commands_read_back_on_the_session_side() {
    let id = ResourceId::parse("https://github.com/octo/hello-world/pull/42").unwrap();
    match command_from_wire(open_command("c_9".into(), &id)) {
        Ok(RuntimeCommand::Open { request_id, resource }) => {
            assert_eq!(request_id, "c_9");
            assert_eq!(resource.owner, "octo");
            assert_eq!(resource.repo, "hello-world");
            assert_eq!(resource.number, 42);
            assert_eq!(resource.kind_hint, None);
        }
        other => panic!("unexpected {other:?}"),
    }
    match command_from_wire(set_command("c_10".into(), "spacing", "compact")) {
        Ok(RuntimeCommand::Configure { request_id, key, value }) => {
            assert_eq!(request_id, "c_10");
            assert_eq!(key, "spacing");
            assert_eq!(value, "compact");
        }
        other => panic!("unexpected {other:?}"),
    }
}
