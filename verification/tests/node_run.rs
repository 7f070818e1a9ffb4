use awgram::node::NodeCommand;
use awgram::node_run::{
    capabilities_reply, command_plan, config_value, driver_reply, node_settings, nonce_claimable,
    nonce_reply, protocol_reply, request_reply, run_reply, secret_reply, settings_or_reply, unquote,
    unauthorized_reply, agent_step, AgentCommand, AgentEvent, AgentPhase, CommandPlan, DriverRun,
    ReplyData,
};

const CONFIG: &str = "NODE_ID=7\nPROTOCOL=\"amneziawg\"\n# comment\nSECRET_FILE = /tmp/s \r\nNODE_ID=8\n";

#[test]
fn config_last_setting_wins_and_values_are_cleaned() {
    assert_eq!(config_value(CONFIG, "NODE_ID"), Some("8".to_string()));
    assert_eq!(config_value(CONFIG, "PROTOCOL"), Some("amneziawg".to_string()));
    assert_eq!(config_value(CONFIG, "SECRET_FILE"), Some("/tmp/s".to_string()));
    assert_eq!(config_value(CONFIG, "DRIVER_COMMAND"), None);
    assert_eq!(config_value("A=b=c", "A"), Some("b=c".to_string()));
    assert_eq!(config_value("", "A"), None);
    assert_eq!(unquote("\"\"x\"\""), "x");
}

#[test]
fn settings_have_defaults() {
    let s = node_settings(CONFIG);
    assert_eq!(s.node_id, Some(8));
    assert_eq!(s.protocol.as_deref(), Some("amneziawg"));
    assert_eq!(s.secret_file, "/tmp/s");
    assert_eq!(s.driver, "/usr/local/libexec/awgram-driver");
    let d = node_settings("NODE_ID=x");
    assert_eq!(d.node_id, None);
    assert_eq!(d.secret_file, "/etc/awgram-node/agent.secret");
}

#[test]
fn settings_or_reply_names_what_is_missing() {
    let e = settings_or_reply(Err("no such file")).err().unwrap();
    assert!(!e.ok);
    assert_eq!((e.code.as_str(), e.message.as_str()), ("config", "no such file"));
    let e = settings_or_reply(Ok("PROTOCOL=x")).err().unwrap();
    assert_eq!(e.message, "NODE_ID is missing");
    let e = settings_or_reply(Ok("NODE_ID=1")).err().unwrap();
    assert_eq!(e.message, "PROTOCOL is invalid");
    assert!(settings_or_reply(Ok("NODE_ID=1\nPROTOCOL=awg")).is_ok());
}

#[test]
fn replies_of_each_check() {
    assert!(protocol_reply(true).is_none());
    assert_eq!(protocol_reply(false).unwrap().code, "config");
    assert!(secret_reply(Some(32)).is_none());
    assert_eq!(secret_reply(Some(31)).unwrap().message, "node secret is missing");
    assert!(secret_reply(None).is_some());
    assert_eq!(request_reply("bad json").code, "request");
    assert_eq!(unauthorized_reply("bad signature").code, "unauthorized");
    assert!(nonce_reply(Ok(true)).is_none());
    assert_eq!(nonce_reply(Ok(false)).unwrap().code, "replay");
    assert_eq!(nonce_reply(Err("disk")).unwrap().code, "nonce_store");
    assert!(driver_reply(true).is_none());
    assert_eq!(driver_reply(false).unwrap().code, "driver_missing");
    let caps = capabilities_reply();
    assert!(caps.ok);
    assert_eq!(caps.data, ReplyData::Capabilities);
}

#[test]
fn nonce_must_be_well_formed() {
    assert!(nonce_claimable("abcdefghijklmnop"));
    assert!(!nonce_claimable("short"));
    assert!(!nonce_claimable("abcdefghijklmno/"));
}

#[test]
fn command_plans() {
    assert!(matches!(command_plan(&NodeCommand::Capabilities, None), Ok(CommandPlan::Capabilities)));
    match command_plan(&NodeCommand::CreateClient { name: "alice".into() }, None) {
        Ok(CommandPlan::Driver(args)) => assert_eq!(args, vec!["add", "alice"]),
        _ => panic!("expected driver arguments"),
    }
    let refused = command_plan(&NodeCommand::CreateClient { name: "a;b".into() }, None).err().unwrap();
    assert_eq!(refused.code, "invalid_arguments");
    let unsupported = command_plan(&NodeCommand::Install { protocol: "x".into() }, None).err().unwrap();
    assert_eq!(unsupported.code, "unsupported");
}

#[test]
fn driver_runs_end_in_one_reply() {
    let ok = run_reply(&DriverRun::Exited { success: true, stdout: " {\"a\":1}\n".into(), stderr: String::new() });
    assert!(ok.ok);
    assert_eq!(ok.data, ReplyData::Output("{\"a\":1}".into()));
    let failed = run_reply(&DriverRun::Exited { success: false, stdout: String::new(), stderr: " boom \n".into() });
    assert_eq!((failed.code.as_str(), failed.message.as_str()), ("driver_failed", "boom"));
    let not_started = run_reply(&DriverRun::NotStarted("denied".into()));
    assert_eq!(not_started.code, "driver_start");
}

fn reply_code(step: (AgentPhase, AgentCommand)) -> String {
    match step.1 {
        AgentCommand::Reply(r) => {
            assert!(matches!(step.0, AgentPhase::Done));
            r.code
        }
        _ => panic!("expected a reply"),
    }
}

#[test]
fn agent_checks_in_order_and_runs_driver_last() {
    let text = "NODE_ID=7\nPROTOCOL=amneziawg-2\n".to_string();
    let (phase, command) = agent_step(AgentPhase::Config, AgentEvent::ConfigRead(Ok(text)));
    assert!(matches!(command, AgentCommand::CheckProtocol(_)));
    let (phase, command) = agent_step(phase, AgentEvent::ProtocolKnown(true));
    assert!(matches!(command, AgentCommand::ReadSecret));
    let (phase, command) = agent_step(phase, AgentEvent::SecretRead(Some(32)));
    assert!(matches!(command, AgentCommand::ReadRequest));
    let (phase, command) = agent_step(phase, AgentEvent::RequestRead(Ok(())));
    assert!(matches!(command, AgentCommand::Verify));
    let verified = Ok((NodeCommand::Health, "n".repeat(16)));
    let (phase, command) = agent_step(phase, AgentEvent::Verified(verified));
    assert!(matches!(command, AgentCommand::ClaimNonce(_)));
    let (phase, command) = agent_step(phase, AgentEvent::NonceClaimed(Ok(true)));
    assert!(matches!(command, AgentCommand::CheckDriver));
    let (phase, command) = agent_step(phase, AgentEvent::DriverPresent(true));
    match command {
        AgentCommand::RunDriver(args) => assert_eq!(args, vec!["status".to_string()]),
        _ => panic!("expected the driver run"),
    }
    let ran = DriverRun::Exited { success: true, stdout: " {} ".into(), stderr: String::new() };
    assert_eq!(reply_code(agent_step(phase, AgentEvent::DriverRan(ran))), "ok");
}

#[test]
fn agent_refusals_end_the_run() {
    assert_eq!(reply_code(agent_step(AgentPhase::Config, AgentEvent::ConfigRead(Err("gone".into())))), "config");
    assert_eq!(reply_code(agent_step(AgentPhase::Secret, AgentEvent::SecretRead(Some(31)))), "config");
    assert_eq!(reply_code(agent_step(AgentPhase::Verify, AgentEvent::Verified(Err("bad".into())))), "unauthorized");
    let phase = AgentPhase::Nonce { command: NodeCommand::Health };
    assert_eq!(reply_code(agent_step(phase, AgentEvent::NonceClaimed(Ok(false)))), "replay");
    let phase = AgentPhase::Nonce { command: NodeCommand::Health };
    assert_eq!(reply_code(agent_step(phase, AgentEvent::NonceClaimed(Err("io".into())))), "nonce_store");
    let phase = AgentPhase::DriverCheck { args: vec!["health".into()] };
    assert_eq!(reply_code(agent_step(phase, AgentEvent::DriverPresent(false))), "driver_missing");
}
