use zuvi::calendar::TimeUtils;
use zuvi::config::Config;
use zuvi::error::ErrorCode;
use zuvi::lease::{Lease, LeaseStatus, LeaseTerms, TerminationReason};
use zuvi::ledger::Transfer;

const LANDLORD: u64 = 11;
const TENANT: u64 = 22;
const ARBITRATOR: u64 = 33;
const FEE_RECEIVER: u64 = 44;
const ESCROW_ACCOUNT: u64 = 55;

fn config() -> Config {
    Config::new(ARBITRATOR, FEE_RECEIVER, 250).unwrap()
}

fn terms(now: i64) -> LeaseTerms {
    LeaseTerms {
        lease_account: 1,
        listing: 2,
        landlord: LANDLORD,
        tenant: TENANT,
        tenant_attest: 3,
        escrow_account: ESCROW_ACCOUNT,
        rent: 1000,
        deposit: 900,
        start_date: now + 86400,
        end_date: now + 86400 * 400,
        payment_day: 15,
        grace_days: 2,
        total_payments: 12,
    }
}

#[test]
fn config_rejects_excessive_fee_rate() {
    assert_eq!(
        Config::new(ARBITRATOR, FEE_RECEIVER, 1001),
        Err(ErrorCode::InvalidFeeRate)
    );
    assert!(Config::new(ARBITRATOR, FEE_RECEIVER, 1000).is_ok());
}

#[test]
fn create_collects_deposit_and_first_rent() {
    let now = TimeUtils::date_to_timestamp(2024, 1, 1);
    let (lease, escrow, transfers) = Lease::create(&terms(now), &config(), now).unwrap();

    assert_eq!(lease.status, LeaseStatus::Active);
    assert_eq!(lease.paid_payments, 1);
    assert_eq!(lease.last_payment_index, 0);
    assert_eq!(lease.overdue_count, 0);
    // Start 2024-01-02, payment day 15: the next instalment is due 2024-02-15.
    assert_eq!(lease.next_due_date, TimeUtils::date_to_timestamp(2024, 2, 15));

    assert_eq!(escrow.amount, 900);
    assert_eq!(escrow.lease, lease.id);

    // Fee rate 250 bp of rent 1000: fee 25, landlord share 975.
    assert_eq!(
        transfers,
        vec![
            Transfer { from: TENANT, to: ESCROW_ACCOUNT, amount: 900 },
            Transfer { from: TENANT, to: LANDLORD, amount: 975 },
            Transfer { from: TENANT, to: FEE_RECEIVER, amount: 25 },
        ]
    );
}

#[test]
fn create_validates_terms() {
    let now = TimeUtils::date_to_timestamp(2024, 1, 1);
    let base = terms(now);
    let cfg = config();

    let mut t = base;
    t.payment_day = 0;
    assert_eq!(Lease::create(&t, &cfg, now), Err(ErrorCode::InvalidPaymentDay));
    t.payment_day = 29;
    assert_eq!(Lease::create(&t, &cfg, now), Err(ErrorCode::InvalidPaymentDay));

    let mut t = base;
    t.grace_days = 8;
    assert_eq!(Lease::create(&t, &cfg, now), Err(ErrorCode::InvalidGraceDays));

    let mut t = base;
    t.start_date = now;
    assert_eq!(Lease::create(&t, &cfg, now), Err(ErrorCode::InvalidStartDate));

    let mut t = base;
    t.start_date = now + 31 * 86400;
    assert_eq!(Lease::create(&t, &cfg, now), Err(ErrorCode::InvalidStartDate));

    let mut t = base;
    t.end_date = t.start_date;
    assert_eq!(Lease::create(&t, &cfg, now), Err(ErrorCode::InvalidStartDate));

    let mut t = base;
    t.total_payments = 0;
    assert_eq!(Lease::create(&t, &cfg, now), Err(ErrorCode::InvalidStartDate));
}

#[test]
fn platform_fee_rounds_down_and_conserves_rent() {
    let now = TimeUtils::date_to_timestamp(2024, 1, 1);
    let mut t = terms(now);
    t.rent = 999;
    t.deposit = 999;
    // 999 * 250 / 10000 = 24 (rounded down); the landlord gets the rest.
    let (_, _, transfers) = Lease::create(&t, &config(), now).unwrap();
    assert_eq!(
        transfers,
        vec![
            Transfer { from: TENANT, to: ESCROW_ACCOUNT, amount: 999 },
            Transfer { from: TENANT, to: LANDLORD, amount: 975 },
            Transfer { from: TENANT, to: FEE_RECEIVER, amount: 24 },
        ]
    );

    // A zero fee rate produces no fee transfer at all.
    let free = Config::new(ARBITRATOR, FEE_RECEIVER, 0).unwrap();
    let (_, _, transfers) = Lease::create(&terms(now), &free, now).unwrap();
    assert_eq!(
        transfers,
        vec![
            Transfer { from: TENANT, to: ESCROW_ACCOUNT, amount: 900 },
            Transfer { from: TENANT, to: LANDLORD, amount: 1000 },
        ]
    );
}

#[test]
fn pay_rent_advances_the_ledger() {
    let now = TimeUtils::date_to_timestamp(2024, 1, 1);
    let (mut lease, _, _) = Lease::create(&terms(now), &config(), now).unwrap();

    let pay_time = TimeUtils::date_to_timestamp(2024, 2, 15);
    let transfers = lease.pay_rent(TENANT, 1, pay_time, &config()).unwrap();
    assert_eq!(
        transfers,
        vec![
            Transfer { from: TENANT, to: LANDLORD, amount: 975 },
            Transfer { from: TENANT, to: FEE_RECEIVER, amount: 25 },
        ]
    );
    assert_eq!(lease.paid_payments, 2);
    assert_eq!(lease.last_payment_index, 1);
    assert_eq!(lease.last_payment_date, pay_time);
    assert_eq!(lease.next_due_date, TimeUtils::date_to_timestamp(2024, 3, 15));
    assert_eq!(lease.overdue_count, 0);
}

#[test]
fn pay_rent_rejects_bad_callers_and_indices() {
    let now = TimeUtils::date_to_timestamp(2024, 1, 1);
    let (mut lease, _, _) = Lease::create(&terms(now), &config(), now).unwrap();
    let pay_time = TimeUtils::date_to_timestamp(2024, 2, 15);

    assert_eq!(
        lease.pay_rent(LANDLORD, 1, pay_time, &config()),
        Err(ErrorCode::Unauthorized)
    );
    assert_eq!(
        lease.pay_rent(TENANT, 0, pay_time, &config()),
        Err(ErrorCode::PaymentAlreadyExists)
    );
    assert_eq!(
        lease.pay_rent(TENANT, 2, pay_time, &config()),
        Err(ErrorCode::PaymentAlreadyExists)
    );
    assert_eq!(lease.paid_payments, 1);
}

#[test]
fn pay_rent_rejects_index_past_schedule() {
    let now = TimeUtils::date_to_timestamp(2024, 1, 1);
    let mut t = terms(now);
    t.total_payments = 1;
    let (mut lease, _, _) = Lease::create(&t, &config(), now).unwrap();
    assert_eq!(
        lease.pay_rent(TENANT, 1, now + 86400 * 40, &config()),
        Err(ErrorCode::PaymentNotFound)
    );
}

#[test]
fn lease_completes_after_final_instalment() {
    let now = TimeUtils::date_to_timestamp(2024, 1, 1);
    let mut t = terms(now);
    t.total_payments = 2;
    let (mut lease, _, _) = Lease::create(&t, &config(), now).unwrap();
    lease
        .pay_rent(TENANT, 1, TimeUtils::date_to_timestamp(2024, 2, 15), &config())
        .unwrap();
    assert_eq!(lease.status, LeaseStatus::Completed);
    assert_eq!(
        lease.pay_rent(TENANT, 2, TimeUtils::date_to_timestamp(2024, 3, 15), &config()),
        Err(ErrorCode::LeaseAlreadyTerminated)
    );
}

#[test]
fn grace_days_tolerate_late_payment() {
    let now = TimeUtils::date_to_timestamp(2024, 1, 1);
    let (mut lease, _, _) = Lease::create(&terms(now), &config(), now).unwrap();
    // Due 2024-02-15, grace 2 days: paying on the 17th is not overdue.
    let within_grace = TimeUtils::date_to_timestamp(2024, 2, 17);
    lease.pay_rent(TENANT, 1, within_grace, &config()).unwrap();
    assert_eq!(lease.overdue_count, 0);
}

#[test]
fn overdue_payments_count_and_block() {
    let now = TimeUtils::date_to_timestamp(2024, 1, 1);
    let (mut lease, _, _) = Lease::create(&terms(now), &config(), now).unwrap();
    let cfg = config();

    // Each instalment paid one day past its grace window: overdue.
    let late_1 = TimeUtils::date_to_timestamp(2024, 2, 18);
    lease.pay_rent(TENANT, 1, late_1, &cfg).unwrap();
    assert_eq!(lease.overdue_count, 1);

    let late_2 = TimeUtils::date_to_timestamp(2024, 3, 18);
    lease.pay_rent(TENANT, 2, late_2, &cfg).unwrap();
    assert_eq!(lease.overdue_count, 2);

    // The third overdue payment is recorded but refused.
    let late_3 = TimeUtils::date_to_timestamp(2024, 4, 18);
    assert_eq!(lease.pay_rent(TENANT, 3, late_3, &cfg), Err(ErrorCode::ExceedOverdueLimit));
    assert_eq!(lease.overdue_count, 3);
    assert_eq!(lease.paid_payments, 3);

    // From then on every payment is refused, even a timely-looking one.
    assert_eq!(lease.pay_rent(TENANT, 3, late_3, &cfg), Err(ErrorCode::ExceedOverdueLimit));
    assert_eq!(lease.overdue_count, 3);

    // Termination for cause still works.
    lease.terminate(LANDLORD, TerminationReason::OverdueExceeded).unwrap();
    assert_eq!(lease.status, LeaseStatus::Terminated);
    assert_eq!(lease.termination_reason, Some(TerminationReason::OverdueExceeded));
    assert_eq!(lease.overdue_count, 3);
}

#[test]
fn terminate_requires_a_lease_party() {
    let now = TimeUtils::date_to_timestamp(2024, 1, 1);
    let (mut lease, _, _) = Lease::create(&terms(now), &config(), now).unwrap();
    assert_eq!(
        lease.terminate(ARBITRATOR, TerminationReason::Mutual),
        Err(ErrorCode::Unauthorized)
    );
    lease.terminate(TENANT, TerminationReason::Mutual).unwrap();
    assert_eq!(
        lease.terminate(TENANT, TerminationReason::Mutual),
        Err(ErrorCode::LeaseAlreadyTerminated)
    );
    assert_eq!(
        lease.pay_rent(TENANT, 1, now + 86400 * 50, &config()),
        Err(ErrorCode::LeaseAlreadyTerminated)
    );
}
