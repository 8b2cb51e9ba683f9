use zuvi::calendar::TimeUtils;
use zuvi::config::Config;
use zuvi::dispute::{raise_dispute, DisputeReason};
use zuvi::error::ErrorCode;
use zuvi::escrow::{Escrow, EscrowStatus, SettleRequest};
use zuvi::lease::{Lease, LeaseTerms};
use zuvi::ledger::Transfer;

const LANDLORD: u64 = 11;
const TENANT: u64 = 22;
const ARBITRATOR: u64 = 33;
const FEE_RECEIVER: u64 = 44;
const ESCROW_ACCOUNT: u64 = 55;
const STRANGER: u64 = 99;

fn config() -> Config {
    Config::new(ARBITRATOR, FEE_RECEIVER, 250).unwrap()
}

fn setup() -> (Lease, Escrow) {
    let now = TimeUtils::date_to_timestamp(2024, 1, 1);
    let terms = LeaseTerms {
        lease_account: 1,
        listing: 2,
        landlord: LANDLORD,
        tenant: TENANT,
        tenant_attest: 3,
        escrow_account: ESCROW_ACCOUNT,
        rent: 1000,
        deposit: 900,
        start_date: now + 86400,
        end_date: now + 86400 * 400,
        payment_day: 15,
        grace_days: 2,
        total_payments: 12,
    };
    let (lease, escrow, _) = Lease::create(&terms, &config(), now).unwrap();
    (lease, escrow)
}

#[test]
fn mutual_release_pays_both_parties() {
    // Escrow of 900: the tenant proposes 600 / 300, the landlord confirms.
    let (lease, mut escrow) = setup();

    escrow.initiate_release(&lease, TENANT, 600, 300).unwrap();
    assert_eq!(escrow.status, EscrowStatus::Releasing);
    assert!(escrow.tenant_signed);
    assert!(!escrow.landlord_signed);

    let transfers = escrow.confirm_release(&lease, LANDLORD).unwrap();
    assert_eq!(
        transfers,
        vec![
            Transfer { from: ESCROW_ACCOUNT, to: LANDLORD, amount: 600 },
            Transfer { from: ESCROW_ACCOUNT, to: TENANT, amount: 300 },
        ]
    );
    assert_eq!(escrow.status, EscrowStatus::Released);
    assert_eq!(escrow.release_to_landlord, 600);
    assert_eq!(escrow.release_to_tenant, 300);
}

#[test]
fn release_skips_zero_amount_transfers() {
    let (lease, mut escrow) = setup();
    escrow.initiate_release(&lease, LANDLORD, 900, 0).unwrap();
    let transfers = escrow.confirm_release(&lease, TENANT).unwrap();
    assert_eq!(transfers, vec![Transfer { from: ESCROW_ACCOUNT, to: LANDLORD, amount: 900 }]);
}

#[test]
fn initiate_release_validates() {
    let (lease, mut escrow) = setup();
    assert_eq!(
        escrow.initiate_release(&lease, STRANGER, 600, 300),
        Err(ErrorCode::Unauthorized)
    );
    assert_eq!(
        escrow.initiate_release(&lease, TENANT, 600, 301),
        Err(ErrorCode::InvalidDistribution)
    );
    assert_eq!(
        escrow.initiate_release(&lease, TENANT, 901, 0),
        Err(ErrorCode::InvalidDistribution)
    );
    escrow.initiate_release(&lease, TENANT, 600, 300).unwrap();
    assert_eq!(
        escrow.initiate_release(&lease, TENANT, 600, 300),
        Err(ErrorCode::EscrowAlreadySettled)
    );
}

#[test]
fn a_new_proposal_resets_the_counter_party() {
    // The proposer's own confirmation is recorded, the other party's is not.
    let (lease, mut escrow) = setup();
    escrow.initiate_release(&lease, LANDLORD, 450, 450).unwrap();
    assert!(escrow.landlord_signed && !escrow.tenant_signed);
}

#[test]
fn confirm_release_rejects_double_confirmation() {
    let (lease, mut escrow) = setup();
    escrow.initiate_release(&lease, TENANT, 600, 300).unwrap();

    // The proposer's confirmation is already on record.
    assert_eq!(escrow.confirm_release(&lease, TENANT), Err(ErrorCode::AlreadySigned));

    // The counter-party's confirmation completes the pair; any further
    // confirmation hits a terminal escrow.
    let transfers = escrow.confirm_release(&lease, LANDLORD).unwrap();
    assert_eq!(transfers.len(), 2);
    assert_eq!(escrow.status, EscrowStatus::Released);
    assert_eq!(
        escrow.confirm_release(&lease, LANDLORD),
        Err(ErrorCode::ReleaseNotPending)
    );
    assert_eq!(escrow.confirm_release(&lease, TENANT), Err(ErrorCode::ReleaseNotPending));
}

#[test]
fn confirm_release_requires_a_pending_proposal() {
    let (lease, mut escrow) = setup();
    assert_eq!(
        escrow.confirm_release(&lease, LANDLORD),
        Err(ErrorCode::ReleaseNotPending)
    );
}

#[test]
fn settlement_by_tenant_confirmation() {
    // Scenario: the landlord requests 200 of 900, the tenant confirms.
    let (lease, mut escrow) = setup();
    escrow.request_settle(&lease, LANDLORD, 200, 2, 1000).unwrap();
    assert_eq!(escrow.status, EscrowStatus::Settling);
    let request = escrow.settle_request.unwrap();
    assert_eq!(request.total_deductions, 200);
    assert_eq!(request.deduction_count, 2);
    assert!(!request.tenant_confirmed);

    let transfers = escrow.confirm_settle(&lease, TENANT).unwrap();
    assert_eq!(
        transfers,
        vec![
            Transfer { from: ESCROW_ACCOUNT, to: LANDLORD, amount: 200 },
            Transfer { from: ESCROW_ACCOUNT, to: TENANT, amount: 700 },
        ]
    );
    assert_eq!(escrow.status, EscrowStatus::Settled);
    assert_eq!(escrow.deducted, 200);
    assert!(escrow.settle_request.unwrap().tenant_confirmed);
}

#[test]
fn forced_settlement_bypasses_the_tenant() {
    // Scenario: pending request for 200 of 900; the arbitrator forces it
    // through without tenant confirmation.
    let (lease, mut escrow) = setup();
    escrow.request_settle(&lease, LANDLORD, 200, 1, 1000).unwrap();

    assert_eq!(
        escrow.force_settle(&lease, &config(), STRANGER),
        Err(ErrorCode::Unauthorized)
    );
    let transfers = escrow.force_settle(&lease, &config(), ARBITRATOR).unwrap();
    assert_eq!(
        transfers,
        vec![
            Transfer { from: ESCROW_ACCOUNT, to: LANDLORD, amount: 200 },
            Transfer { from: ESCROW_ACCOUNT, to: TENANT, amount: 700 },
        ]
    );
    assert_eq!(escrow.status, EscrowStatus::Settled);
    assert_eq!(escrow.deducted, 200);
    // A forced settlement is distinguishable: the tenant never confirmed.
    assert!(!escrow.settle_request.unwrap().tenant_confirmed);
}

#[test]
fn settlement_validates() {
    let (lease, mut escrow) = setup();
    assert_eq!(
        escrow.request_settle(&lease, TENANT, 200, 1, 1000),
        Err(ErrorCode::Unauthorized)
    );
    assert_eq!(
        escrow.request_settle(&lease, LANDLORD, 901, 1, 1000),
        Err(ErrorCode::DeductionExceedsDeposit)
    );
    assert_eq!(escrow.confirm_settle(&lease, TENANT), Err(ErrorCode::SettleRequestNotFound));
    assert_eq!(
        escrow.force_settle(&lease, &config(), ARBITRATOR),
        Err(ErrorCode::EscrowAlreadySettled)
    );

    escrow.request_settle(&lease, LANDLORD, 200, 1, 1000).unwrap();
    assert_eq!(escrow.confirm_settle(&lease, LANDLORD), Err(ErrorCode::Unauthorized));
    assert_eq!(
        escrow.request_settle(&lease, LANDLORD, 100, 1, 1000),
        Err(ErrorCode::EscrowAlreadySettled)
    );
    escrow.confirm_settle(&lease, TENANT).unwrap();
    assert_eq!(escrow.confirm_settle(&lease, TENANT), Err(ErrorCode::SettleRequestNotFound));
}

#[test]
fn an_already_confirmed_request_is_rejected_again() {
    // A record that claims a confirmed request while still settling can
    // only come from outside the protocol; confirming it again is refused.
    let (lease, escrow) = setup();
    let mut stale = Escrow {
        status: EscrowStatus::Settling,
        settle_request: Some(SettleRequest {
            initiator: LANDLORD,
            total_deductions: 200,
            deduction_count: 1,
            created_at: 1000,
            tenant_confirmed: true,
        }),
        ..escrow
    };
    assert_eq!(stale.confirm_settle(&lease, TENANT), Err(ErrorCode::SettleAlreadyConfirmed));
}

#[test]
fn escrow_closes_only_when_terminal() {
    let (lease, mut escrow) = setup();
    assert!(!escrow.can_close());
    escrow.initiate_release(&lease, TENANT, 600, 300).unwrap();
    assert!(!escrow.can_close());
    escrow.confirm_release(&lease, LANDLORD).unwrap();
    assert!(escrow.can_close());
}

#[test]
fn dispute_freezes_every_escrow_operation() {
    // While a dispute is open, release and settlement all fail with the
    // dispute state error, for any caller.
    let (mut lease, mut escrow) = setup();
    raise_dispute(&mut lease, &mut escrow, TENANT, DisputeReason::Deposit, 1000).unwrap();
    assert!(escrow.has_dispute);

    for caller in [LANDLORD, TENANT, ARBITRATOR, STRANGER] {
        assert_eq!(
            escrow.initiate_release(&lease, caller, 600, 300),
            Err(ErrorCode::DisputeInProgress)
        );
        assert_eq!(escrow.confirm_release(&lease, caller), Err(ErrorCode::DisputeInProgress));
        assert_eq!(
            escrow.request_settle(&lease, caller, 200, 1, 1000),
            Err(ErrorCode::DisputeInProgress)
        );
        assert_eq!(escrow.confirm_settle(&lease, caller), Err(ErrorCode::DisputeInProgress));
        assert_eq!(
            escrow.force_settle(&lease, &config(), caller),
            Err(ErrorCode::DisputeInProgress)
        );
    }
    assert_eq!(escrow.status, EscrowStatus::Holding);
}

#[test]
fn dispute_freezes_a_pending_release() {
    let (mut lease, mut escrow) = setup();
    escrow.initiate_release(&lease, TENANT, 600, 300).unwrap();
    raise_dispute(&mut lease, &mut escrow, LANDLORD, DisputeReason::Damage, 1000).unwrap();
    assert_eq!(
        escrow.confirm_release(&lease, LANDLORD),
        Err(ErrorCode::DisputeInProgress)
    );
    assert_eq!(escrow.status, EscrowStatus::Releasing);
}
