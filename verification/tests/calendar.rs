use awgram::calendar::{
    end_of_year, legacy_renewal_target, legacy_requests_open, start_of_december, year_at,
    LEGACY_REQUEST_DEADLINE, LEGACY_RESTORE_DEADLINE,
};

#[test]
fn calculates_legacy_calendar_boundaries() {
    assert_eq!(year_at(1_766_016_000), 2025);
    assert_eq!(end_of_year(2026), LEGACY_RESTORE_DEADLINE);
    assert_eq!(start_of_december(2026), 1_796_083_200);
    assert!(legacy_requests_open(LEGACY_REQUEST_DEADLINE - 1));
    assert!(!legacy_requests_open(LEGACY_REQUEST_DEADLINE));
    assert_eq!(
        legacy_renewal_target(1_796_083_200, Some(LEGACY_RESTORE_DEADLINE)),
        1_830_297_599
    );
    assert_eq!(
        legacy_renewal_target(1_799_000_000, Some(LEGACY_RESTORE_DEADLINE)),
        1_830_297_599
    );
}
