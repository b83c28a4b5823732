use system76_firmware_daemon::bus::{
    parse_call, reply_values, require_io_permission, require_root, Answer, Call, Field, Kind,
    Operation, Value, BUS_NAME, OBJECT_PATH,
};
use system76_firmware_daemon::error::ErrorKind;

#[test]
fn operations_are_found_by_their_names() {
    let names = [
        "GetBiosInfo",
        "GetEmbeddedControllerInfo",
        "GetManagementEngineInfo",
        "GetFirmwareId",
        "Download",
        "Schedule",
        "Unschedule",
    ];
    let all = Operation::all();
    assert_eq!(all.len(), names.len());
    for (operation, name) in all.iter().zip(names) {
        assert_eq!(operation.name(), name);
        assert_eq!(Operation::named(name), Some(*operation));
    }
    assert_eq!(Operation::named("Bios"), None);
    assert_eq!(Operation::named(""), None);
    assert_eq!(Operation::named("schedule"), None);
    assert_eq!(BUS_NAME, "com.system76.FirmwareDaemon");
    assert_eq!(OBJECT_PATH, "/com/system76/FirmwareDaemon");
}

fn listed(fields: Vec<Field>) -> Vec<(&'static str, Kind)> {
    fields.into_iter().map(|field| (field.name, field.kind)).collect()
}

#[test]
fn operations_name_what_they_take_and_give() {
    let text = Kind::Text;
    let flag = Kind::Flag;
    assert_eq!(listed(Operation::GetBiosInfo.takes()), vec![]);
    assert_eq!(listed(Operation::GetBiosInfo.gives()), vec![("model", text), ("version", text)]);
    assert_eq!(listed(Operation::GetEmbeddedControllerInfo.takes()), vec![("primary", flag)]);
    assert_eq!(
        listed(Operation::GetEmbeddedControllerInfo.gives()),
        vec![("project", text), ("version", text)]
    );
    assert_eq!(listed(Operation::GetManagementEngineInfo.takes()), vec![]);
    assert_eq!(
        listed(Operation::GetManagementEngineInfo.gives()),
        vec![("enabled", flag), ("version", text)]
    );
    assert_eq!(listed(Operation::GetFirmwareId.gives()), vec![("id", text)]);
    assert_eq!(listed(Operation::Download.takes()), vec![]);
    assert_eq!(listed(Operation::Download.gives()), vec![("digest", text), ("changelog", text)]);
    assert_eq!(listed(Operation::Schedule.takes()), vec![("digest", text)]);
    assert_eq!(listed(Operation::Schedule.gives()), vec![]);
    assert_eq!(listed(Operation::Unschedule.takes()), vec![]);
    assert_eq!(listed(Operation::Unschedule.gives()), vec![]);
}

#[test]
fn calls_take_their_first_argument() {
    assert!(matches!(parse_call("GetBiosInfo", Vec::new()), Ok(Call::GetBiosInfo)));
    assert!(matches!(
        parse_call("GetEmbeddedControllerInfo", vec![Value::Flag(false)]),
        Ok(Call::GetEmbeddedControllerInfo { primary: false })
    ));
    assert!(matches!(
        parse_call("GetEmbeddedControllerInfo", vec![Value::Flag(true), Value::Flag(false)]),
        Ok(Call::GetEmbeddedControllerInfo { primary: true })
    ));
    match parse_call("Schedule", vec![Value::Text("D1".to_string())]) {
        Ok(Call::Schedule { digest }) => assert_eq!(digest, "D1"),
        other => panic!("{:?}", other),
    }
    assert!(matches!(
        parse_call("Unschedule", vec![Value::Text("ignored".to_string())]),
        Ok(Call::Unschedule)
    ));
    assert!(matches!(parse_call("Download", Vec::new()), Ok(Call::Download)));
    assert!(matches!(parse_call("GetFirmwareId", Vec::new()), Ok(Call::GetFirmwareId)));
    assert!(matches!(
        parse_call("GetManagementEngineInfo", Vec::new()),
        Ok(Call::GetManagementEngineInfo)
    ));
}

#[test]
fn calls_without_their_argument_fail() {
    let err = parse_call("Schedule", Vec::new()).unwrap_err();
    assert_eq!(err.kind, ErrorKind::Precondition);
    assert_eq!(err.message(), "wrong arguments for Schedule");
    let err = parse_call("Schedule", vec![Value::Flag(true)]).unwrap_err();
    assert_eq!(err.message(), "wrong arguments for Schedule");
    let err = parse_call("GetEmbeddedControllerInfo", vec![Value::Text("true".to_string())])
        .unwrap_err();
    assert_eq!(err.message(), "wrong arguments for GetEmbeddedControllerInfo");
    let err = parse_call("Reboot", Vec::new()).unwrap_err();
    assert_eq!(err.kind, ErrorKind::Precondition);
    assert_eq!(err.message(), "unknown operation Reboot");
}

fn shown(values: Vec<Value>) -> Vec<String> {
    values
        .into_iter()
        .map(|value| match value {
            Value::Flag(flag) => format!("{}", flag),
            Value::Text(text) => format!("{:?}", text),
        })
        .collect()
}

#[test]
fn answers_become_values_in_order() {
    let values = reply_values(Answer::BiosInfo {
        model: "galp3".to_string(),
        version: "1.05".to_string(),
    });
    assert_eq!(shown(values), vec!["\"galp3\"", "\"1.05\""]);
    let values = reply_values(Answer::EmbeddedControllerInfo {
        project: "N130ZU".to_string(),
        version: "07.02".to_string(),
    });
    assert_eq!(shown(values), vec!["\"N130ZU\"", "\"07.02\""]);
    let values = reply_values(Answer::FirmwareId { id: "galp3_x".to_string() });
    assert_eq!(shown(values), vec!["\"galp3_x\""]);
    let values = reply_values(Answer::Downloaded {
        digest: "D".to_string(),
        changelog: "{}".to_string(),
    });
    assert_eq!(shown(values), vec!["\"D\"", "\"{}\""]);
    assert!(reply_values(Answer::Scheduled).is_empty());
    assert!(reply_values(Answer::Unscheduled).is_empty());
}

#[test]
fn disabled_management_engine_is_false_and_empty() {
    let values = reply_values(Answer::ManagementEngineInfo { firmware: None });
    assert_eq!(shown(values), vec!["false", "\"\""]);
    let values = reply_values(Answer::ManagementEngineInfo { firmware: Some("11.8".to_string()) });
    assert_eq!(shown(values), vec!["true", "\"11.8\""]);
}

#[test]
fn daemon_must_be_run_by_root() {
    assert!(require_root(0).is_ok());
    for euid in [1, 1000, u32::MAX] {
        let err = require_root(euid).unwrap_err();
        assert_eq!(err.kind, ErrorKind::Precondition);
        assert_eq!(err.message(), "must be run as root");
    }
}

#[test]
fn daemon_needs_io_permission() {
    assert!(require_io_permission(0, "").is_ok());
    assert!(require_io_permission(3, "ignored").is_ok());
    for status in [-1, i32::MIN] {
        let err = require_io_permission(status, "Operation not permitted (os error 1)").unwrap_err();
        assert_eq!(err.kind, ErrorKind::Precondition);
        assert_eq!(
            err.message(),
            "failed to get I/O permission: Operation not permitted (os error 1)"
        );
    }
}
