use std::collections::HashMap;

use vaultix_escrow::accounting::is_well_formed;
use vaultix_escrow::config::{Config, DEFAULT_FEE_BPS};
use vaultix_escrow::engine::VaultixEscrow;
use vaultix_escrow::errors::EscrowError;
use vaultix_escrow::fees::{compute_fee, BPS_DENOMINATOR};
use vaultix_escrow::registry::Registry;
use vaultix_escrow::types::{
    Address, Escrow, EscrowCreated, EscrowState, Milestone, MilestoneStatus, Movement, Resolution,
    MAX_MILESTONES,
};

/// An asset ledger for the tests: balances and allowances per asset.
struct Ledger {
    balances: HashMap<(String, String), i128>,
    allowances: HashMap<(String, String), i128>,
}

impl Ledger {
    fn new() -> Ledger {
        Ledger { balances: HashMap::new(), allowances: HashMap::new() }
    }

    fn key(token: &Address, who: &Address) -> (String, String) {
        (token.as_str().to_string(), who.as_str().to_string())
    }

    fn balance(&self, token: &Address, who: &Address) -> i128 {
        *self.balances.get(&Ledger::key(token, who)).unwrap_or(&0)
    }

    fn mint(&mut self, token: &Address, to: &Address, amount: i128) {
        *self.balances.entry(Ledger::key(token, to)).or_insert(0) += amount;
    }

    fn approve(&mut self, token: &Address, owner: &Address, amount: i128) {
        self.allowances.insert(Ledger::key(token, owner), amount);
    }

    /// Carries out every movement of `plan`, or none of them.
    fn carry_out(&mut self, custody: &Address, plan: &[Movement]) -> bool {
        let mut balances = self.balances.clone();
        let mut allowances = self.allowances.clone();
        for movement in plan {
            let (token, from, to, amount) = match movement {
                Movement::Collect { token, from, amount } => {
                    let allowance = allowances.entry(Ledger::key(token, from)).or_insert(0);
                    if *allowance < *amount {
                        return false;
                    }
                    *allowance -= *amount;
                    (token, from, custody, *amount)
                }
                Movement::Payout { token, to, amount } => (token, custody, to, *amount),
            };
            if amount < 0 {
                return false;
            }
            let source = balances.entry(Ledger::key(token, from)).or_insert(0);
            if *source < amount {
                return false;
            }
            *source -= amount;
            *balances.entry(Ledger::key(token, to)).or_insert(0) += amount;
        }
        self.balances = balances;
        self.allowances = allowances;
        true
    }
}

/// The service together with the ledger it asks to move funds, and a clock.
struct Client {
    service: VaultixEscrow,
    ledger: Ledger,
    contract_id: Address,
    timestamp: u64,
}

impl Client {
    fn new() -> Client {
        Client {
            service: VaultixEscrow::new(),
            ledger: Ledger::new(),
            contract_id: Address::new("contract"),
            timestamp: 0,
        }
    }

    fn settle(&mut self, plan: Result<Vec<Movement>, EscrowError>) -> bool {
        match plan {
            Ok(plan) => self.ledger.carry_out(&self.contract_id, &plan),
            Err(_) => false,
        }
    }

    fn create_escrow(
        &mut self,
        id: u64,
        depositor: &Address,
        recipient: &Address,
        token: &Address,
        milestones: &Vec<Milestone>,
        deadline: u64,
    ) -> Result<EscrowCreated, EscrowError> {
        self.service.create_escrow(
            id,
            depositor.clone(),
            recipient.clone(),
            token.clone(),
            milestones.clone(),
            deadline,
            self.timestamp,
        )
    }

    fn deposit_funds(&mut self, id: u64) -> Result<(), EscrowError> {
        let plan = self.service.plan_deposit(id);
        let settled = self.settle(plan);
        self.service.deposit_funds(id, settled)
    }

    fn release_milestone(&mut self, id: u64, index: u32) -> Result<(), EscrowError> {
        let plan = self.service.plan_release(id, index);
        let settled = self.settle(plan);
        self.service.release_milestone(id, index, settled)
    }

    fn confirm_delivery(&mut self, id: u64, index: u32, caller: &Address) -> Result<(), EscrowError> {
        let plan = self.service.plan_confirm(id, index, caller);
        let settled = self.settle(plan);
        self.service.confirm_delivery(id, index, caller, settled)
    }

    fn complete_escrow(&mut self, id: u64) -> Result<(), EscrowError> {
        self.service.complete_escrow(id)
    }

    fn cancel_escrow(&mut self, id: u64) -> Result<(), EscrowError> {
        let plan = self.service.plan_cancel(id);
        let settled = self.settle(plan);
        self.service.cancel_escrow(id, settled)
    }

    fn raise_dispute(&mut self, id: u64, caller: &Address) -> Result<(), EscrowError> {
        self.service.raise_dispute(id, caller)
    }

    fn resolve_dispute(
        &mut self,
        id: u64,
        resolver: &Address,
        winner: &Address,
    ) -> Result<(), EscrowError> {
        let plan = self.service.plan_resolve(id, resolver, winner);
        let settled = self.settle(plan);
        self.service.resolve_dispute(id, resolver, winner, settled)
    }

    fn refund_expired(&mut self, id: u64, caller: &Address) -> Result<(), EscrowError> {
        let plan = self.service.plan_refund(id, caller, self.timestamp);
        let settled = self.settle(plan);
        self.service.refund_expired(id, caller, self.timestamp, settled)
    }

    fn get_escrow(&self, id: u64) -> Escrow {
        self.service.get_escrow(id).unwrap().clone()
    }

    fn balance(&self, token: &Address, who: &Address) -> i128 {
        self.ledger.balance(token, who)
    }
}

fn milestone(amount: i128, description: &str) -> Milestone {
    Milestone {
        amount,
        status: MilestoneStatus::Pending,
        description: description.to_string(),
    }
}


const TOKEN: &str = "token";
const DEPOSITOR: &str = "depositor";
const RECIPIENT: &str = "recipient";
const TREASURY: &str = "treasury";
const ADMIN: &str = "admin";

/// A client with one escrow of the given amounts under `id`, created at
/// time 0 with deadline 1000, and the depositor holding and having approved
/// the total.
fn created(id: u64, amounts: &[i128]) -> Client {
    let mut client = Client::new();
    add_escrow(&mut client, id, amounts);
    client
}

fn add_escrow(client: &mut Client, id: u64, amounts: &[i128]) {
    let token = Address::new(TOKEN);
    let depositor = Address::new(DEPOSITOR);
    let milestones: Vec<Milestone> = amounts.iter().map(|a| milestone(*a, "Part")).collect();
    let total: i128 = amounts.iter().sum();
    client.ledger.mint(&token, &depositor, total);
    client.ledger.approve(&token, &depositor, total);
    client
        .create_escrow(id, &depositor, &Address::new(RECIPIENT), &token, &milestones, 1000)
        .unwrap();
}

/// As `created`, and funded.
fn funded(id: u64, amounts: &[i128]) -> Client {
    let mut client = created(id, amounts);
    client.deposit_funds(id).unwrap();
    client
}

fn held(client: &Client) -> i128 {
    client.balance(&Address::new(TOKEN), &client.contract_id)
}

fn owned(client: &Client, who: &str) -> i128 {
    client.balance(&Address::new(TOKEN), &Address::new(who))
}

fn payout(to: &str, amount: i128) -> Movement {
    Movement::Payout { token: Address::new(TOKEN), to: Address::new(to), amount }
}

// Fee arithmetic

#[test]
fn fee_rounds_down() {
    assert_eq!(compute_fee(100, 50), 0);
    assert_eq!(compute_fee(10_000, 50), 50);
    assert_eq!(compute_fee(10_000, 1000), 1000);
    assert_eq!(compute_fee(199, 50), 0);
    assert_eq!(compute_fee(200, 50), 1);
    assert_eq!(compute_fee(19_999, 5000), 9_999);
    assert_eq!(compute_fee(1, 9_999), 0);
}

#[test]
fn fee_at_the_bounds() {
    assert_eq!(compute_fee(0, 50), 0);
    assert_eq!(compute_fee(12_345, 0), 0);
    assert_eq!(compute_fee(12_345, BPS_DENOMINATOR), 12_345);
    assert_eq!(compute_fee(i128::MAX, BPS_DENOMINATOR), i128::MAX);
    assert_eq!(compute_fee(i128::MAX, 1), i128::MAX / 10_000);
    assert_eq!(
        compute_fee(i128::MAX, 5000),
        i128::MAX / 2
    );
}

// Settings

#[test]
fn fresh_settings() {
    let config = Config::new();
    assert!(!config.is_paused());
    assert_eq!(config.fee_bps(), 0);
    assert_eq!(config.treasury(), None);
    assert_eq!(config.admin(), None);
    assert_eq!(config.administrator(), None);
    assert!(!config.is_admin(&Address::new(ADMIN)));
    assert_eq!(config.fee_on(10_000), 0);
}

#[test]
fn initialize_sets_treasury_and_rate_once() {
    let mut config = Config::new();
    assert_eq!(config.initialize(Address::new(TREASURY), Some(250)), Ok(()));
    assert_eq!(config.treasury(), Some(&Address::new(TREASURY)));
    assert_eq!(config.fee_bps(), 250);
    assert_eq!(config.fee_on(10_000), 250);

    assert_eq!(
        config.initialize(Address::new("other"), Some(1)),
        Err(EscrowError::Unauthorized)
    );
    assert_eq!(config.treasury(), Some(&Address::new(TREASURY)));
    assert_eq!(config.fee_bps(), 250);
}

#[test]
fn initialize_without_rate_takes_the_default() {
    let mut config = Config::new();
    config.initialize(Address::new(TREASURY), None).unwrap();
    assert_eq!(config.fee_bps(), DEFAULT_FEE_BPS);
    assert_eq!(DEFAULT_FEE_BPS, 0);
}

#[test]
fn initialize_refuses_a_rate_above_the_whole() {
    let mut config = Config::new();
    assert_eq!(
        config.initialize(Address::new(TREASURY), Some(10_001)),
        Err(EscrowError::EscrowNotActive)
    );
    assert_eq!(config.treasury(), None);
    assert_eq!(config.initialize(Address::new(TREASURY), Some(10_000)), Ok(()));
    assert_eq!(config.fee_on(777), 777);
}

#[test]
fn treasury_administers_until_an_administrator_is_designated() {
    let mut config = Config::new();
    let treasury = Address::new(TREASURY);
    let admin = Address::new(ADMIN);
    assert_eq!(config.set_paused(&treasury, true), Err(EscrowError::Unauthorized));

    config.initialize(treasury.clone(), None).unwrap();
    assert_eq!(config.administrator(), Some(&treasury));
    assert!(config.is_admin(&treasury));
    assert!(!config.is_admin(&admin));

    config.init(admin.clone()).unwrap();
    assert_eq!(config.admin(), Some(&admin));
    assert_eq!(config.administrator(), Some(&admin));
    assert!(config.is_admin(&admin));
    assert!(!config.is_admin(&treasury));
    assert_eq!(config.set_paused(&treasury, true), Err(EscrowError::Unauthorized));
    assert!(!config.is_paused());
    assert_eq!(config.set_paused(&admin, true), Ok(()));
    assert!(config.is_paused());
    assert_eq!(config.set_paused(&admin, false), Ok(()));
    assert!(!config.is_paused());
}

#[test]
fn administrator_is_designated_once() {
    let mut config = Config::new();
    assert_eq!(config.init(Address::new(ADMIN)), Ok(()));
    assert_eq!(config.init(Address::new("other")), Err(EscrowError::Unauthorized));
    assert_eq!(config.admin(), Some(&Address::new(ADMIN)));
}

#[test]
fn update_fee_is_for_the_administrator() {
    let mut config = Config::new();
    let admin = Address::new(ADMIN);
    config.init(admin.clone()).unwrap();
    assert_eq!(
        config.update_fee(&Address::new("stranger"), 100),
        Err(EscrowError::Unauthorized)
    );
    assert_eq!(config.fee_bps(), 0);
    config.initialize(Address::new(TREASURY), Some(5)).unwrap();
    assert_eq!(config.update_fee(&Address::new(TREASURY), 100), Err(EscrowError::Unauthorized));
    assert_eq!(config.update_fee(&admin, 10_001), Err(EscrowError::EscrowNotActive));
    assert_eq!(config.fee_bps(), 5);
    assert_eq!(config.update_fee(&admin, 10_000), Ok(()));
    assert_eq!(config.fee_bps(), 10_000);
    assert_eq!(config.update_fee(&admin, 0), Ok(()));
    assert_eq!(config.fee_bps(), 0);
}

#[test]
fn no_rate_without_a_treasury() {
    let mut config = Config::new();
    let admin = Address::new(ADMIN);
    config.init(admin.clone()).unwrap();
    assert_eq!(config.update_fee(&admin, 500), Err(EscrowError::EscrowNotActive));
    assert_eq!(config.update_fee(&admin, 0), Err(EscrowError::EscrowNotActive));
    assert_eq!(config.fee_bps(), 0);
    assert_eq!(config.fee_on(10_000), 0);
    config.initialize(Address::new(TREASURY), Some(500)).unwrap();
    assert_eq!(config.fee_on(10_000), 500);
    assert_eq!(config.update_fee(&admin, 50), Ok(()));
    assert_eq!(config.fee_on(10_000), 50);
    assert_eq!(config.fee_on(100), 0);
}

#[test]
fn no_fee_is_planned_without_a_treasury() {
    let mut client = funded(1, &[10_000]);
    let admin = Address::new(ADMIN);
    client.service.init(admin.clone()).unwrap();
    assert_eq!(client.service.update_fee(&admin, 5000), Err(EscrowError::EscrowNotActive));
    assert_eq!(client.service.plan_cancel(1), Ok(vec![payout(DEPOSITOR, 10_000)]));
    assert_eq!(
        client.service.plan_refund(1, &Address::new(DEPOSITOR), 1000),
        Ok(vec![payout(DEPOSITOR, 10_000)])
    );
}

#[test]
fn restored_settings() {
    assert!(Config::restore(None, None, 10_001, false).is_none());
    assert!(Config::restore(Some(Address::new(TREASURY)), None, 10_001, false).is_none());
    assert!(Config::restore(None, Some(Address::new(ADMIN)), 1, false).is_none());
    assert!(Config::restore(None, Some(Address::new(ADMIN)), 0, true).is_some());
    assert!(Config::restore(Some(Address::new(TREASURY)), None, 10_000, false).is_some());
    let config =
        Config::restore(Some(Address::new(TREASURY)), Some(Address::new(ADMIN)), 75, true).unwrap();
    assert_eq!(config.treasury(), Some(&Address::new(TREASURY)));
    assert_eq!(config.admin(), Some(&Address::new(ADMIN)));
    assert_eq!(config.fee_bps(), 75);
    assert!(config.is_paused());
}

// Identities

#[test]
fn identities_compare_by_their_text() {
    let a = Address::new("alice");
    assert!(a.same(&Address::new("alice")));
    assert!(!a.same(&Address::new("alicf")));
    assert!(!a.same(&Address::new("")));
    assert_eq!(a, a.clone());
    assert_ne!(a, Address::new("bob"));
    assert_eq!(a.as_str(), "alice");
}

// Sums and record validation

#[test]
fn validation_of_records() {
    let client = funded(1, &[300, 700]);
    let good = client.get_escrow(1);
    assert!(is_well_formed(&good));

    let mut e = good.clone();
    e.total_amount = 999;
    assert!(!is_well_formed(&e));

    let mut e = good.clone();
    e.milestones[0].amount = i128::MAX;
    assert!(!is_well_formed(&e));

    let mut e = good.clone();
    e.milestones[0].status = MilestoneStatus::Released;
    e.milestones[1].status = MilestoneStatus::Released;
    e.total_released = 1000;
    assert!(is_well_formed(&e));
    e.status = EscrowState::Completed;
    assert!(is_well_formed(&e));
    e.status = EscrowState::Cancelled;
    assert!(is_well_formed(&e));
    e.status = EscrowState::Resolved;
    e.resolution = Resolution::Recipient;
    assert!(is_well_formed(&e));
    e.total_released = 999;
    assert!(!is_well_formed(&e));

    let mut e = good.clone();
    e.total_released = 300;
    assert!(!is_well_formed(&e));
    e.milestones[0].status = MilestoneStatus::Released;
    assert!(is_well_formed(&e));
    e.total_released = 1001;
    assert!(!is_well_formed(&e));

    let mut e = good.clone();
    e.recipient = e.depositor.clone();
    assert!(!is_well_formed(&e));

    let mut e = good.clone();
    e.milestones.clear();
    e.total_amount = 0;
    assert!(!is_well_formed(&e));

    let mut e = good.clone();
    e.milestones[1].amount = 0;
    e.total_amount = 300;
    assert!(!is_well_formed(&e));

    let mut e = good.clone();
    e.resolution = Resolution::Recipient;
    assert!(!is_well_formed(&e));

    let mut e = good.clone();
    e.status = EscrowState::Resolved;
    assert!(!is_well_formed(&e));
    e.resolution = Resolution::Depositor;
    assert!(!is_well_formed(&e));
    e.milestones[0].status = MilestoneStatus::Disputed;
    e.milestones[1].status = MilestoneStatus::Disputed;
    assert!(is_well_formed(&e));

    let mut e = good.clone();
    e.milestones[0].status = MilestoneStatus::Disputed;
    assert!(!is_well_formed(&e));

    let mut e = good.clone();
    e.status = EscrowState::Completed;
    assert!(!is_well_formed(&e));

    let mut e = good.clone();
    e.status = EscrowState::Expired;
    assert!(!is_well_formed(&e));
    e.total_released = 1000;
    assert!(is_well_formed(&e));

    let mut e = good.clone();
    e.status = EscrowState::Created;
    assert!(is_well_formed(&e));
    e.milestones[0].status = MilestoneStatus::Released;
    assert!(!is_well_formed(&e));
}

#[test]
fn stored_records_are_taken_in_once_and_only_well_formed() {
    let source = funded(5, &[400, 600]);
    let record = source.get_escrow(5);

    let mut service =
        VaultixEscrow::restore(Some(Address::new(TREASURY)), None, 50, false).unwrap();
    assert_eq!(service.config().fee_bps(), 50);
    assert_eq!(service.get_escrow(5).err(), Some(EscrowError::EscrowNotFound));

    let mut broken = record.clone();
    broken.total_released = 1;
    assert!(!service.load_escrow(broken));
    assert_eq!(service.get_escrow(5).err(), Some(EscrowError::EscrowNotFound));

    assert!(service.load_escrow(record.clone()));
    assert_eq!(service.get_escrow(5), Ok(&record));

    let mut other = record.clone();
    other.deadline = 7;
    assert!(!service.load_escrow(other));
    assert_eq!(service.get_escrow(5), Ok(&record));

    assert_eq!(
        service.plan_cancel(5),
        Ok(vec![payout(TREASURY, 5), payout(DEPOSITOR, 995)])
    );
    assert!(VaultixEscrow::restore(None, None, 10_001, false).is_none());
    assert!(VaultixEscrow::restore(None, None, 1, false).is_none());
    assert!(VaultixEscrow::restore(None, None, 0, false).is_some());
}

#[test]
fn empty_registry() {
    let registry = Registry::new();
    assert!(!registry.contains(0));
    assert_eq!(registry.get(0).err(), Some(EscrowError::EscrowNotFound));
}

#[test]
fn registry_holds_what_was_created() {
    let client = created(42, &[5, 6]);
    let registry = client.service.registry();
    assert!(registry.contains(42));
    assert!(!registry.contains(41));
    assert_eq!(registry.get(42).unwrap().total_amount, 11);
    assert_eq!(registry.get(42), client.service.get_escrow(42));
    assert_eq!(registry.get(43).err(), Some(EscrowError::EscrowNotFound));
}

// Creation

#[test]
fn creation_records_the_terms() {
    let mut client = Client::new();
    client.timestamp = 77;
    let mut second = milestone(2, "Second");
    second.status = MilestoneStatus::Released;
    let list = vec![milestone(1, "First"), second];
    let notice = client
        .create_escrow(
            9,
            &Address::new(DEPOSITOR),
            &Address::new(RECIPIENT),
            &Address::new(TOKEN),
            &list,
            500,
        )
        .unwrap();
    assert_eq!(notice.total_amount, 3);
    assert_eq!(notice.deadline, 500);

    let escrow = client.get_escrow(9);
    assert_eq!(escrow.id, 9);
    assert_eq!(escrow.created_at, 77);
    assert_eq!(escrow.deadline, 500);
    assert_eq!(escrow.resolution, Resolution::Undecided);
    assert_eq!(escrow.total_released, 0);
    assert_eq!(escrow.milestones[0], milestone(1, "First"));
    assert_eq!(escrow.milestones[1], milestone(2, "Second"));
    assert!(is_well_formed(&escrow));
}

#[test]
fn creation_takes_one_to_twenty_milestones() {
    let mut client = Client::new();
    let d = Address::new(DEPOSITOR);
    let r = Address::new(RECIPIENT);
    let t = Address::new(TOKEN);
    assert_eq!(MAX_MILESTONES, 20);
    assert_eq!(
        client.create_escrow(1, &d, &r, &t, &Vec::new(), 0),
        Err(EscrowError::TooManyMilestones)
    );
    let twenty: Vec<Milestone> = (0..20).map(|_| milestone(5, "Task")).collect();
    assert!(client.create_escrow(1, &d, &r, &t, &twenty, 0).is_ok());
    assert_eq!(client.get_escrow(1).total_amount, 100);
    let twenty_one: Vec<Milestone> = (0..21).map(|_| milestone(5, "Task")).collect();
    assert_eq!(
        client.create_escrow(2, &d, &r, &t, &twenty_one, 0),
        Err(EscrowError::TooManyMilestones)
    );
    assert_eq!(client.service.get_escrow(2).err(), Some(EscrowError::EscrowNotFound));
}

#[test]
fn creation_takes_a_total_that_just_fits() {
    let mut client = Client::new();
    let list = vec![milestone(i128::MAX - 1, "a"), milestone(1, "b")];
    client
        .create_escrow(
            1,
            &Address::new(DEPOSITOR),
            &Address::new(RECIPIENT),
            &Address::new(TOKEN),
            &list,
            0,
        )
        .unwrap();
    let escrow = client.get_escrow(1);
    assert_eq!(escrow.total_amount, i128::MAX);
    assert!(is_well_formed(&escrow));
    client.service.initialize(Address::new(TREASURY), Some(10_000)).unwrap();
    client.service.deposit_funds(1, true).unwrap();
    assert_eq!(
        client.service.plan_cancel(1),
        Ok(vec![payout(TREASURY, i128::MAX), payout(DEPOSITOR, 0)])
    );
}

#[test]
fn creation_refuses_a_total_that_does_not_fit() {
    let mut client = Client::new();
    let list = vec![milestone(i128::MAX, "a"), milestone(1, "b")];
    assert_eq!(
        client.create_escrow(
            1,
            &Address::new(DEPOSITOR),
            &Address::new(RECIPIENT),
            &Address::new(TOKEN),
            &list,
            0
        ),
        Err(EscrowError::InvalidMilestoneAmount)
    );
    assert_eq!(client.service.get_escrow(1).err(), Some(EscrowError::EscrowNotFound));
}

#[test]
fn creation_checks_in_order() {
    let mut client = created(1, &[10]);
    let d = Address::new(DEPOSITOR);
    let t = Address::new(TOKEN);
    client.service.initialize(Address::new(TREASURY), None).unwrap();
    client.service.set_paused(&Address::new(TREASURY), true).unwrap();

    // taken identifier, before anything else
    assert_eq!(
        client.create_escrow(1, &d, &d, &t, &Vec::new(), 0),
        Err(EscrowError::DuplicateEscrowId)
    );
    // paused, before the arguments
    assert_eq!(
        client.create_escrow(2, &d, &d, &t, &Vec::new(), 0),
        Err(EscrowError::ContractPaused)
    );
    client.service.set_paused(&Address::new(TREASURY), false).unwrap();
    // the count, before the amounts
    assert_eq!(
        client.create_escrow(2, &d, &d, &t, &Vec::new(), 0),
        Err(EscrowError::TooManyMilestones)
    );
    // the amounts, before the parties
    assert_eq!(
        client.create_escrow(2, &d, &d, &t, &vec![milestone(0, "x")], 0),
        Err(EscrowError::ZeroAmount)
    );
    // the parties, before the total
    assert_eq!(
        client.create_escrow(
            2,
            &d,
            &d,
            &t,
            &vec![milestone(i128::MAX, "x"), milestone(i128::MAX, "y")],
            0
        ),
        Err(EscrowError::SelfDealing)
    );
}

#[test]
fn a_taken_identifier_is_never_overwritten() {
    let mut client = funded(1, &[10, 20]);
    client.release_milestone(1, 0).unwrap();
    let before = client.get_escrow(1);
    let result = client.create_escrow(
        1,
        &Address::new("someone"),
        &Address::new("else"),
        &Address::new("coin"),
        &vec![milestone(99, "Other")],
        5,
    );
    assert_eq!(result, Err(EscrowError::DuplicateEscrowId));
    assert_eq!(client.get_escrow(1), before);

    // also once the escrow is closed
    client.cancel_escrow(1).unwrap();
    let closed = client.get_escrow(1);
    let result = client.create_escrow(
        1,
        &Address::new(DEPOSITOR),
        &Address::new(RECIPIENT),
        &Address::new(TOKEN),
        &vec![milestone(10, "Part")],
        1000,
    );
    assert_eq!(result, Err(EscrowError::DuplicateEscrowId));
    assert_eq!(client.get_escrow(1), closed);
}

// Funding

#[test]
fn funding_fails_without_the_funds_and_changes_nothing() {
    let mut client = created(1, &[600, 400]);
    client.ledger.approve(&Address::new(TOKEN), &Address::new(DEPOSITOR), 999);
    let before = client.get_escrow(1);
    assert_eq!(client.deposit_funds(1), Err(EscrowError::InsufficientFunds));
    assert_eq!(client.get_escrow(1), before);
    assert_eq!(held(&client), 0);
    assert_eq!(owned(&client, DEPOSITOR), 1000);

    client.ledger.approve(&Address::new(TOKEN), &Address::new(DEPOSITOR), 1000);
    assert_eq!(client.deposit_funds(1), Ok(()));
    assert_eq!(held(&client), 1000);
    assert_eq!(client.get_escrow(1).status, EscrowState::Active);
}

#[test]
fn funding_plan_collects_the_total_from_the_depositor() {
    let client = created(1, &[600, 400]);
    assert_eq!(
        client.service.plan_deposit(1),
        Ok(vec![Movement::Collect {
            token: Address::new(TOKEN),
            from: Address::new(DEPOSITOR),
            amount: 1000
        }])
    );
    assert_eq!(client.service.plan_deposit(2), Err(EscrowError::EscrowNotFound));
}

#[test]
fn funding_checks_in_order() {
    let mut client = funded(1, &[10]);
    client.service.initialize(Address::new(TREASURY), None).unwrap();
    client.service.set_paused(&Address::new(TREASURY), true).unwrap();
    assert_eq!(client.service.deposit_funds(2, true), Err(EscrowError::ContractPaused));
    assert_eq!(client.service.deposit_funds(1, true), Err(EscrowError::ContractPaused));
    client.service.set_paused(&Address::new(TREASURY), false).unwrap();
    assert_eq!(client.service.deposit_funds(2, true), Err(EscrowError::EscrowNotFound));
    assert_eq!(client.service.deposit_funds(1, false), Err(EscrowError::EscrowAlreadyFunded));
}

#[test]
fn pausing_leaves_the_other_operations_open() {
    let mut client = funded(1, &[10, 20, 30]);
    add_escrow(&mut client, 2, &[5]);
    client.deposit_funds(2).unwrap();
    add_escrow(&mut client, 3, &[7]);
    client.deposit_funds(3).unwrap();
    let admin = Address::new(ADMIN);
    client.service.init(admin.clone()).unwrap();
    client.service.set_paused(&admin, true).unwrap();
    client.timestamp = 1000;

    assert_eq!(client.release_milestone(1, 0), Ok(()));
    assert_eq!(client.confirm_delivery(1, 1, &Address::new(DEPOSITOR)), Ok(()));
    assert_eq!(client.raise_dispute(1, &Address::new(RECIPIENT)), Ok(()));
    assert_eq!(client.resolve_dispute(1, &admin, &Address::new(RECIPIENT)), Ok(()));
    assert_eq!(client.cancel_escrow(2), Ok(()));
    assert_eq!(client.refund_expired(3, &Address::new(DEPOSITOR)), Ok(()));
    assert_eq!(held(&client), 0);
}

// Release and confirmation

#[test]
fn release_in_any_order() {
    let mut client = funded(1, &[3000, 3000, 4000]);
    assert_eq!(client.service.plan_release(1, 2), Ok(vec![payout(RECIPIENT, 4000)]));
    client.release_milestone(1, 2).unwrap();
    assert_eq!(owned(&client, RECIPIENT), 4000);
    assert_eq!(held(&client), 6000);
    let escrow = client.get_escrow(1);
    assert_eq!(escrow.total_released, 4000);
    assert_eq!(escrow.status, EscrowState::Active);
    assert_eq!(escrow.milestones[0].status, MilestoneStatus::Pending);
    assert_eq!(escrow.milestones[2].status, MilestoneStatus::Released);
    assert_eq!(escrow.milestones[2].description, "Part");
    client.release_milestone(1, 0).unwrap();
    assert_eq!(client.get_escrow(1).total_released, 7000);
}

#[test]
fn release_of_a_milestone_that_is_not_there() {
    let mut client = funded(1, &[10, 20]);
    assert_eq!(client.release_milestone(1, 2), Err(EscrowError::EscrowNotActive));
    assert_eq!(client.release_milestone(1, u32::MAX), Err(EscrowError::EscrowNotActive));
    assert_eq!(
        client.confirm_delivery(1, 2, &Address::new(DEPOSITOR)),
        Err(EscrowError::EscrowNotActive)
    );
    assert_eq!(client.release_milestone(7, 0), Err(EscrowError::EscrowNotFound));
    assert_eq!(
        client.confirm_delivery(7, 0, &Address::new(DEPOSITOR)),
        Err(EscrowError::EscrowNotFound)
    );
}

#[test]
fn release_pays_once() {
    let mut client = funded(1, &[250, 750]);
    client.release_milestone(1, 1).unwrap();
    let after_first = client.get_escrow(1);
    assert_eq!(owned(&client, RECIPIENT), 750);

    assert_eq!(client.release_milestone(1, 1), Err(EscrowError::MilestoneAlreadyReleased));
    assert_eq!(
        client.confirm_delivery(1, 1, &Address::new(DEPOSITOR)),
        Err(EscrowError::MilestoneAlreadyReleased)
    );
    assert_eq!(
        client.confirm_delivery(1, 1, &Address::new("stranger")),
        Err(EscrowError::MilestoneAlreadyReleased)
    );
    assert_eq!(client.service.release_milestone(1, 1, true), Err(EscrowError::MilestoneAlreadyReleased));
    assert_eq!(owned(&client, RECIPIENT), 750);
    assert_eq!(held(&client), 250);
    assert_eq!(client.get_escrow(1), after_first);
}

#[test]
fn release_needs_the_payment() {
    let mut client = funded(1, &[250, 750]);
    let before = client.get_escrow(1);
    assert_eq!(client.service.release_milestone(1, 0, false), Err(EscrowError::InsufficientFunds));
    assert_eq!(
        client.service.confirm_delivery(1, 0, &Address::new(DEPOSITOR), false),
        Err(EscrowError::InsufficientFunds)
    );
    assert_eq!(client.get_escrow(1), before);
}

#[test]
fn confirmation_is_for_the_depositor() {
    let mut client = funded(1, &[250, 750]);
    let before = client.get_escrow(1);
    assert_eq!(
        client.confirm_delivery(1, 0, &Address::new(RECIPIENT)),
        Err(EscrowError::Unauthorized)
    );
    assert_eq!(client.get_escrow(1), before);
    assert_eq!(owned(&client, RECIPIENT), 0);
    assert_eq!(
        client.service.plan_confirm(1, 0, &Address::new(DEPOSITOR)),
        Ok(vec![payout(RECIPIENT, 250)])
    );
    assert_eq!(client.confirm_delivery(1, 0, &Address::new(DEPOSITOR)), Ok(()));
    assert_eq!(owned(&client, RECIPIENT), 250);
}

// Completion

#[test]
fn completion_needs_every_release() {
    let mut client = funded(1, &[250, 750]);
    assert_eq!(client.complete_escrow(7), Err(EscrowError::EscrowNotFound));
    assert_eq!(client.complete_escrow(1), Err(EscrowError::EscrowNotActive));
    client.release_milestone(1, 0).unwrap();
    let before = client.get_escrow(1);
    assert_eq!(client.complete_escrow(1), Err(EscrowError::EscrowNotActive));
    assert_eq!(client.get_escrow(1), before);
    client.release_milestone(1, 1).unwrap();
    assert_eq!(client.get_escrow(1).status, EscrowState::Active);
    assert_eq!(client.complete_escrow(1), Ok(()));
    assert_eq!(client.complete_escrow(1), Err(EscrowError::EscrowNotActive));
}

#[test]
fn completion_needs_funding() {
    let mut client = created(1, &[250]);
    assert_eq!(client.complete_escrow(1), Err(EscrowError::EscrowNotActive));
}

// Cancellation

#[test]
fn cancellation_after_a_release_refunds_the_rest_less_the_fee() {
    let mut client = funded(1, &[4000, 6000]);
    client.service.initialize(Address::new(TREASURY), Some(250)).unwrap();
    client.release_milestone(1, 0).unwrap();
    assert_eq!(
        client.service.plan_cancel(1),
        Ok(vec![payout(TREASURY, 150), payout(DEPOSITOR, 5850)])
    );
    client.cancel_escrow(1).unwrap();
    assert_eq!(owned(&client, TREASURY), 150);
    assert_eq!(owned(&client, DEPOSITOR), 5850);
    assert_eq!(owned(&client, RECIPIENT), 4000);
    assert_eq!(held(&client), 0);
    let escrow = client.get_escrow(1);
    assert_eq!(escrow.status, EscrowState::Cancelled);
    assert_eq!(escrow.total_released, 4000);
    assert!(is_well_formed(&escrow));
}

#[test]
fn cancellation_with_nothing_left_moves_nothing() {
    let mut client = funded(1, &[40]);
    client.service.initialize(Address::new(TREASURY), Some(250)).unwrap();
    client.release_milestone(1, 0).unwrap();
    assert_eq!(client.service.plan_cancel(1), Ok(Vec::new()));
    assert_eq!(client.service.cancel_escrow(1, false), Ok(()));
    assert_eq!(client.get_escrow(1).status, EscrowState::Cancelled);
}

#[test]
fn cancellation_of_an_unfunded_escrow_moves_nothing() {
    let mut client = created(1, &[40]);
    client.service.initialize(Address::new(TREASURY), Some(250)).unwrap();
    assert_eq!(client.service.plan_cancel(1), Ok(Vec::new()));
    assert_eq!(client.service.cancel_escrow(1, false), Ok(()));
    assert_eq!(owned(&client, DEPOSITOR), 40);
    assert_eq!(client.get_escrow(1).status, EscrowState::Cancelled);
}

#[test]
fn cancellation_needs_the_refund() {
    let mut client = funded(1, &[40]);
    let before = client.get_escrow(1);
    assert_eq!(client.service.cancel_escrow(1, false), Err(EscrowError::InsufficientFunds));
    assert_eq!(client.get_escrow(1), before);
    assert_eq!(client.cancel_escrow(7), Err(EscrowError::EscrowNotFound));
}

#[test]
fn fee_is_the_one_set_when_the_refund_is_made() {
    let mut client = funded(1, &[10_000]);
    let treasury = Address::new(TREASURY);
    client.service.initialize(treasury.clone(), Some(50)).unwrap();
    client.service.update_fee(&treasury, 300).unwrap();
    client.cancel_escrow(1).unwrap();
    assert_eq!(owned(&client, TREASURY), 300);
    assert_eq!(owned(&client, DEPOSITOR), 9_700);
}

#[test]
fn fee_is_the_share_rounded_down_on_every_refund() {
    let cases: [(i128, u32, i128); 8] = [
        (100, 50, 0),
        (10_000, 50, 50),
        (10_000, 1000, 1000),
        (9_999, 1, 0),
        (19_999, 5000, 9_999),
        (199, 50, 0),
        (200, 50, 1),
        (12_345, 10_000, 12_345),
    ];
    for (left, rate, fee) in cases {
        for by_refund in [false, true] {
            // one milestone already released, so that `left` is a remainder
            let mut client = funded(1, &[7, left]);
            let treasury = Address::new(TREASURY);
            client.service.initialize(treasury.clone(), Some(rate)).unwrap();
            client.release_milestone(1, 0).unwrap();
            assert_eq!(held(&client), left);
            assert_eq!(fee, left * (rate as i128) / 10_000);
            if by_refund {
                client.timestamp = 1000;
                client.refund_expired(1, &Address::new(DEPOSITOR)).unwrap();
            } else {
                client.cancel_escrow(1).unwrap();
            }
            assert_eq!(owned(&client, TREASURY), fee);
            assert_eq!(owned(&client, DEPOSITOR), left - fee);
            assert_eq!(owned(&client, RECIPIENT), 7);
            assert_eq!(held(&client), 0);
        }
    }
}

#[test]
fn a_full_fee_leaves_the_depositor_nothing() {
    let mut client = funded(1, &[10_000]);
    client.service.initialize(Address::new(TREASURY), Some(10_000)).unwrap();
    assert_eq!(
        client.service.plan_cancel(1),
        Ok(vec![payout(TREASURY, 10_000), payout(DEPOSITOR, 0)])
    );
    client.cancel_escrow(1).unwrap();
    assert_eq!(owned(&client, TREASURY), 10_000);
    assert_eq!(owned(&client, DEPOSITOR), 0);
}

// Disputes

#[test]
fn dispute_is_for_the_parties() {
    let mut client = funded(1, &[40]);
    assert_eq!(client.raise_dispute(7, &Address::new(DEPOSITOR)), Err(EscrowError::EscrowNotFound));
    assert_eq!(
        client.raise_dispute(1, &Address::new("stranger")),
        Err(EscrowError::Unauthorized)
    );
    assert_eq!(client.get_escrow(1).status, EscrowState::Active);
    assert_eq!(client.raise_dispute(1, &Address::new(RECIPIENT)), Ok(()));
    assert_eq!(client.get_escrow(1).status, EscrowState::Disputed);
    assert_eq!(
        client.raise_dispute(1, &Address::new(RECIPIENT)),
        Err(EscrowError::EscrowNotActive)
    );
    assert_eq!(
        client.raise_dispute(1, &Address::new(DEPOSITOR)),
        Err(EscrowError::EscrowNotActive)
    );
}

#[test]
fn dispute_needs_funding() {
    let mut client = created(1, &[40]);
    assert_eq!(
        client.raise_dispute(1, &Address::new(DEPOSITOR)),
        Err(EscrowError::EscrowNotActive)
    );
}

#[test]
fn dispute_freezes_the_escrow() {
    let mut client = funded(1, &[40, 60]);
    client.service.init(Address::new(ADMIN)).unwrap();
    client.release_milestone(1, 0).unwrap();
    client.raise_dispute(1, &Address::new(DEPOSITOR)).unwrap();
    client.timestamp = 5000;
    let frozen = client.get_escrow(1);

    assert_eq!(client.release_milestone(1, 1), Err(EscrowError::EscrowNotActive));
    assert_eq!(client.release_milestone(1, 0), Err(EscrowError::EscrowNotActive));
    assert_eq!(
        client.confirm_delivery(1, 1, &Address::new(DEPOSITOR)),
        Err(EscrowError::EscrowNotActive)
    );
    assert_eq!(client.cancel_escrow(1), Err(EscrowError::EscrowNotActive));
    assert_eq!(client.complete_escrow(1), Err(EscrowError::EscrowNotActive));
    assert_eq!(client.deposit_funds(1), Err(EscrowError::EscrowAlreadyFunded));
    assert_eq!(
        client.refund_expired(1, &Address::new(DEPOSITOR)),
        Err(EscrowError::InvalidStatusForRefund)
    );
    assert_eq!(client.service.release_milestone(1, 1, true), Err(EscrowError::EscrowNotActive));
    assert_eq!(client.service.cancel_escrow(1, true), Err(EscrowError::EscrowNotActive));
    assert_eq!(client.get_escrow(1), frozen);
    assert_eq!(held(&client), 60);

    client.resolve_dispute(1, &Address::new(ADMIN), &Address::new(DEPOSITOR)).unwrap();
    assert_eq!(client.release_milestone(1, 1), Err(EscrowError::EscrowNotActive));
    assert_eq!(client.cancel_escrow(1), Err(EscrowError::EscrowNotActive));
}

#[test]
fn resolution_is_for_the_administrator() {
    let mut client = funded(1, &[40, 60]);
    client.raise_dispute(1, &Address::new(DEPOSITOR)).unwrap();
    let before = client.get_escrow(1);
    // nobody administers yet
    assert_eq!(
        client.resolve_dispute(1, &Address::new(ADMIN), &Address::new(DEPOSITOR)),
        Err(EscrowError::Unauthorized)
    );
    client.service.init(Address::new(ADMIN)).unwrap();
    assert_eq!(
        client.resolve_dispute(1, &Address::new(DEPOSITOR), &Address::new(DEPOSITOR)),
        Err(EscrowError::Unauthorized)
    );
    assert_eq!(
        client.resolve_dispute(1, &Address::new(ADMIN), &Address::new("stranger")),
        Err(EscrowError::EscrowNotActive)
    );
    assert_eq!(
        client.resolve_dispute(7, &Address::new(ADMIN), &Address::new(DEPOSITOR)),
        Err(EscrowError::EscrowNotFound)
    );
    assert_eq!(
        client.service.resolve_dispute(1, &Address::new(ADMIN), &Address::new(DEPOSITOR), false),
        Err(EscrowError::InsufficientFunds)
    );
    assert_eq!(client.get_escrow(1), before);
    assert_eq!(held(&client), 100);
}

#[test]
fn resolution_needs_a_dispute() {
    let mut client = funded(1, &[40]);
    client.service.init(Address::new(ADMIN)).unwrap();
    assert_eq!(
        client.resolve_dispute(1, &Address::new(ADMIN), &Address::new(DEPOSITOR)),
        Err(EscrowError::EscrowNotActive)
    );
    client.raise_dispute(1, &Address::new(DEPOSITOR)).unwrap();
    client.resolve_dispute(1, &Address::new(ADMIN), &Address::new(DEPOSITOR)).unwrap();
    assert_eq!(
        client.resolve_dispute(1, &Address::new(ADMIN), &Address::new(RECIPIENT)),
        Err(EscrowError::EscrowNotActive)
    );
}

#[test]
fn resolution_for_the_recipient_after_a_release() {
    let mut client = funded(1, &[4000, 6000]);
    client.service.initialize(Address::new(TREASURY), Some(500)).unwrap();
    client.release_milestone(1, 0).unwrap();
    client.raise_dispute(1, &Address::new(DEPOSITOR)).unwrap();
    assert_eq!(
        client.service.plan_resolve(1, &Address::new(TREASURY), &Address::new(RECIPIENT)),
        Ok(vec![payout(RECIPIENT, 6000)])
    );
    client.resolve_dispute(1, &Address::new(TREASURY), &Address::new(RECIPIENT)).unwrap();
    let escrow = client.get_escrow(1);
    assert_eq!(escrow.status, EscrowState::Resolved);
    assert_eq!(escrow.resolution, Resolution::Recipient);
    assert_eq!(escrow.total_released, 10_000);
    assert!(escrow.milestones.iter().all(|m| m.status == MilestoneStatus::Released));
    assert_eq!(owned(&client, RECIPIENT), 10_000);
    assert_eq!(owned(&client, TREASURY), 0);
    assert_eq!(held(&client), 0);
    assert!(is_well_formed(&escrow));
}

#[test]
fn resolution_for_the_depositor_after_a_release() {
    let mut client = funded(1, &[4000, 6000]);
    client.service.initialize(Address::new(TREASURY), Some(500)).unwrap();
    client.release_milestone(1, 0).unwrap();
    client.raise_dispute(1, &Address::new(RECIPIENT)).unwrap();
    assert_eq!(
        client.service.plan_resolve(1, &Address::new(TREASURY), &Address::new(DEPOSITOR)),
        Ok(vec![payout(DEPOSITOR, 6000)])
    );
    client.resolve_dispute(1, &Address::new(TREASURY), &Address::new(DEPOSITOR)).unwrap();
    let escrow = client.get_escrow(1);
    assert_eq!(escrow.status, EscrowState::Resolved);
    assert_eq!(escrow.resolution, Resolution::Depositor);
    assert_eq!(escrow.total_released, 4000);
    assert!(escrow.milestones.iter().all(|m| m.status == MilestoneStatus::Disputed));
    assert_eq!(owned(&client, DEPOSITOR), 6000);
    assert_eq!(owned(&client, RECIPIENT), 4000);
    assert_eq!(owned(&client, TREASURY), 0);
    assert_eq!(held(&client), 0);
    assert!(is_well_formed(&escrow));
}

#[test]
fn resolution_with_nothing_left_moves_nothing() {
    let mut client = funded(1, &[40]);
    client.service.init(Address::new(ADMIN)).unwrap();
    client.release_milestone(1, 0).unwrap();
    client.raise_dispute(1, &Address::new(RECIPIENT)).unwrap();
    assert_eq!(
        client.service.plan_resolve(1, &Address::new(ADMIN), &Address::new(DEPOSITOR)),
        Ok(Vec::new())
    );
    assert_eq!(
        client.service.resolve_dispute(1, &Address::new(ADMIN), &Address::new(DEPOSITOR), false),
        Ok(())
    );
    assert_eq!(client.get_escrow(1).total_released, 40);
}

// Refund after the deadline

#[test]
fn refund_at_the_deadline() {
    let mut client = funded(1, &[40]);
    client.timestamp = 999;
    assert_eq!(
        client.refund_expired(1, &Address::new(DEPOSITOR)),
        Err(EscrowError::DeadlineNotReached)
    );
    client.timestamp = 1000;
    assert_eq!(
        client.service.plan_refund(1, &Address::new(DEPOSITOR), 1000),
        Ok(vec![payout(DEPOSITOR, 40)])
    );
    assert_eq!(client.refund_expired(1, &Address::new(DEPOSITOR)), Ok(()));
    assert_eq!(owned(&client, DEPOSITOR), 40);
}

#[test]
fn refund_checks_in_order() {
    let depositor = Address::new(DEPOSITOR);
    let stranger = Address::new("stranger");

    // no escrow, whoever calls and whenever
    let mut client = Client::new();
    client.timestamp = u64::MAX;
    assert_eq!(client.refund_expired(1, &stranger), Err(EscrowError::EscrowNotFound));

    // not active, before the caller and the deadline
    let mut client = created(1, &[40]);
    assert_eq!(client.refund_expired(1, &stranger), Err(EscrowError::InvalidStatusForRefund));
    client.timestamp = 2000;
    assert_eq!(client.refund_expired(1, &depositor), Err(EscrowError::InvalidStatusForRefund));

    // the caller, before the deadline
    let mut client = funded(1, &[40]);
    client.timestamp = 10;
    assert_eq!(client.refund_expired(1, &stranger), Err(EscrowError::Unauthorized));
    assert_eq!(client.refund_expired(1, &depositor), Err(EscrowError::DeadlineNotReached));

    // the caller, before what is left
    client.release_milestone(1, 0).unwrap();
    assert_eq!(client.refund_expired(1, &stranger), Err(EscrowError::Unauthorized));
    assert_eq!(client.refund_expired(1, &depositor), Err(EscrowError::DeadlineNotReached));
    client.timestamp = 2000;
    assert_eq!(client.refund_expired(1, &stranger), Err(EscrowError::Unauthorized));
    assert_eq!(
        client.refund_expired(1, &Address::new(RECIPIENT)),
        Err(EscrowError::Unauthorized)
    );
    assert_eq!(client.refund_expired(1, &depositor), Err(EscrowError::NoFundsToRefund));
}

#[test]
fn refund_is_refused_to_others_whatever_the_time() {
    let mut client = funded(1, &[10_000]);
    client.service.init(Address::new(ADMIN)).unwrap();
    let before = client.get_escrow(1);
    for now in [0u64, 3000, 999, 1000, 1001, u64::MAX] {
        client.timestamp = now;
        for caller in [RECIPIENT, ADMIN, "stranger", TOKEN] {
            assert_eq!(
                client.refund_expired(1, &Address::new(caller)),
                Err(EscrowError::Unauthorized)
            );
            assert_eq!(
                client.service.plan_refund(1, &Address::new(caller), now),
                Err(EscrowError::Unauthorized)
            );
            assert_eq!(
                client.service.refund_expired(1, &Address::new(caller), now, true),
                Err(EscrowError::Unauthorized)
            );
        }
        assert_eq!(client.get_escrow(1), before);
        assert_eq!(held(&client), 10_000);
        assert_eq!(owned(&client, DEPOSITOR), 0);
        assert_eq!(owned(&client, RECIPIENT), 0);
    }
}

#[test]
fn refund_needs_the_payment() {
    let mut client = funded(1, &[40]);
    let before = client.get_escrow(1);
    assert_eq!(
        client.service.refund_expired(1, &Address::new(DEPOSITOR), 1000, false),
        Err(EscrowError::InsufficientFunds)
    );
    assert_eq!(client.get_escrow(1), before);
}

#[test]
fn refund_after_a_release_keeps_the_fee() {
    let mut client = funded(1, &[6000, 4000]);
    client.service.initialize(Address::new(TREASURY), Some(100)).unwrap();
    client.release_milestone(1, 0).unwrap();
    client.timestamp = 1500;
    client.refund_expired(1, &Address::new(DEPOSITOR)).unwrap();
    assert_eq!(owned(&client, TREASURY), 40);
    assert_eq!(owned(&client, DEPOSITOR), 3960);
    assert_eq!(owned(&client, RECIPIENT), 6000);
    assert_eq!(held(&client), 0);
    let escrow = client.get_escrow(1);
    assert_eq!(escrow.status, EscrowState::Expired);
    assert_eq!(escrow.total_released, 10_000);
    assert_eq!(escrow.milestones[1].status, MilestoneStatus::Pending);
    assert!(is_well_formed(&escrow));
    assert_eq!(
        client.refund_expired(1, &Address::new(DEPOSITOR)),
        Err(EscrowError::InvalidStatusForRefund)
    );
}

// The accounting, through a whole life

#[test]
fn accounting_holds_in_every_state() {
    let mut client = created(1, &[3000, 3000, 4000]);
    client.service.init(Address::new(ADMIN)).unwrap();
    let check = |client: &Client, held_now: i128| {
        let escrow = client.get_escrow(1);
        assert!(is_well_formed(&escrow));
        assert!(0 <= escrow.total_released && escrow.total_released <= escrow.total_amount);
        assert_eq!(escrow.total_amount, escrow.milestones.iter().map(|m| m.amount).sum::<i128>());
        assert_eq!(escrow.total_amount, 10_000);
        assert_eq!(held(client), held_now);
    };
    check(&client, 0);
    client.deposit_funds(1).unwrap();
    check(&client, 10_000);
    client.release_milestone(1, 1).unwrap();
    check(&client, 7_000);
    let _ = client.release_milestone(1, 1);
    check(&client, 7_000);
    client.raise_dispute(1, &Address::new(RECIPIENT)).unwrap();
    check(&client, 7_000);
    let _ = client.cancel_escrow(1);
    check(&client, 7_000);
    client.resolve_dispute(1, &Address::new(ADMIN), &Address::new(RECIPIENT)).unwrap();
    check(&client, 0);
    assert_eq!(owned(&client, RECIPIENT), 10_000);
}

#[test]
fn closed_escrows_stay_readable_and_closed() {
    let mut client = funded(1, &[40]);
    client.service.init(Address::new(ADMIN)).unwrap();
    client.release_milestone(1, 0).unwrap();
    client.complete_escrow(1).unwrap();
    let closed = client.get_escrow(1);
    client.timestamp = 9999;
    assert!(client.deposit_funds(1).is_err());
    assert!(client.release_milestone(1, 0).is_err());
    assert!(client.confirm_delivery(1, 0, &Address::new(DEPOSITOR)).is_err());
    assert!(client.complete_escrow(1).is_err());
    assert!(client.cancel_escrow(1).is_err());
    assert!(client.raise_dispute(1, &Address::new(DEPOSITOR)).is_err());
    assert!(client
        .resolve_dispute(1, &Address::new(ADMIN), &Address::new(DEPOSITOR))
        .is_err());
    assert!(client.refund_expired(1, &Address::new(DEPOSITOR)).is_err());
    assert_eq!(client.get_escrow(1), closed);
}

#[test]
fn escrows_do_not_touch_each_other() {
    let mut client = funded(1, &[40, 60]);
    add_escrow(&mut client, 2, &[500]);
    let other = client.get_escrow(2);
    client.release_milestone(1, 0).unwrap();
    client.cancel_escrow(1).unwrap();
    assert_eq!(client.get_escrow(2), other);
    assert_eq!(client.service.get_escrow(3).err(), Some(EscrowError::EscrowNotFound));
}

// Whole scenarios

#[test]
fn scenario_release_of_the_first_milestone() {
    let mut client = created(1, &[3000, 3000, 4000]);
    assert_eq!(client.get_escrow(1).total_amount, 10_000);
    client.deposit_funds(1).unwrap();
    client.release_milestone(1, 0).unwrap();
    assert_eq!(owned(&client, RECIPIENT), 3000);
    assert_eq!(held(&client), 7000);
    assert_eq!(client.get_escrow(1).milestones[0].status, MilestoneStatus::Released);
}

#[test]
fn scenario_dispute_decided_for_the_recipient() {
    let mut client = funded(1, &[3000, 3000, 4000]);
    client.service.init(Address::new(ADMIN)).unwrap();
    client.raise_dispute(1, &Address::new(DEPOSITOR)).unwrap();
    let in_custody = held(&client);
    client.resolve_dispute(1, &Address::new(ADMIN), &Address::new(RECIPIENT)).unwrap();
    let escrow = client.get_escrow(1);
    assert!(escrow.milestones.iter().all(|m| m.status == MilestoneStatus::Released));
    assert_eq!(escrow.total_released, escrow.total_amount);
    assert_eq!(owned(&client, RECIPIENT), in_custody);
    assert_eq!(held(&client), 0);
}

#[test]
fn scenario_dispute_decided_for_the_depositor() {
    let mut client = funded(1, &[3000, 3000, 4000]);
    client.service.init(Address::new(ADMIN)).unwrap();
    client.release_milestone(1, 2).unwrap();
    client.raise_dispute(1, &Address::new(RECIPIENT)).unwrap();
    let in_custody = held(&client);
    assert_eq!(in_custody, 6000);
    client.resolve_dispute(1, &Address::new(ADMIN), &Address::new(DEPOSITOR)).unwrap();
    let escrow = client.get_escrow(1);
    assert!(escrow.milestones.iter().all(|m| m.status == MilestoneStatus::Disputed));
    assert_eq!(owned(&client, DEPOSITOR), in_custody);
    assert_eq!(owned(&client, RECIPIENT), 4000);
    assert_eq!(held(&client), 0);
}

#[test]
fn scenario_cancellation_with_a_fee() {
    let mut client = funded(1, &[10_000]);
    client.service.initialize(Address::new(TREASURY), Some(50)).unwrap();
    assert_eq!(held(&client), 10_000);
    client.cancel_escrow(1).unwrap();
    assert_eq!(owned(&client, TREASURY), 50);
    assert_eq!(owned(&client, DEPOSITOR), 9950);
    assert_eq!(held(&client), 0);
}
