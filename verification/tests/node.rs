use awgram::node::{driver_args, NodeCommand};

#[test]
fn rejects_shell_metacharacters_in_names_and_backups() {
    assert!(driver_args(
        &NodeCommand::CreateClient {
            name: "alice_1".into()
        },
        None
    )
    .is_some_and(|args| !args.is_empty()));
    assert_eq!(
        driver_args(
            &NodeCommand::CreateClient {
                name: "alice;reboot".into()
            },
            None
        ),
        Some(Vec::new())
    );
    assert_eq!(
        driver_args(
            &NodeCommand::Restore {
                backup_ref: "../../etc/shadow".into()
            },
            None
        ),
        Some(Vec::new())
    );
}
