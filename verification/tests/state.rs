use awgram::state::State;

#[test]
fn bulk_state_variants_exist() {
    let _ = State::AwaitingBulkPrefix;
    let _ = State::AwaitingBulkCount {
        prefix: "user".into(),
    };
    let _ = State::AwaitingBulkExpiry {
        prefix: "user".into(),
        count: 10,
    };
    let _ = State::AwaitingBulkCustomExpiry {
        prefix: "user".into(),
        count: 10,
    };
    let _ = State::AwaitingBulkPsk {
        prefix: "user".into(),
        count: 10,
        expires: None,
    };
}
