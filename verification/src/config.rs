//! The fee and configuration store: treasury, fee rate, pause flag and
//! administrator.

use crate::errors::EscrowError;
use crate::fees::{compute_fee, fee_of, BPS_DENOMINATOR};
use crate::types::Address;
use vstd::prelude::*;

verus! {

/// The fee rate of a store that was initialised without one.
pub const DEFAULT_FEE_BPS: u32 = 0;

/// The process-wide settings.
#[derive(Debug)]
pub struct Config {
    treasury: Option<Address>,
    admin: Option<Address>,
    fee_bps: u32,
    paused: bool,
}

/// The mathematical value of a [`Config`].
pub struct ConfigModel {
    pub treasury: Option<Seq<char>>,
    pub admin: Option<Seq<char>>,
    pub fee_bps: int,
    pub paused: bool,
}

/// The identity that `address` holds, if any.
pub open spec fn identity_of(address: Option<Address>) -> Option<Seq<char>> {
    match address {
        Some(a) => Some(a@),
        None => None,
    }
}

/// Whether a store can have this treasury and this fee rate: the rate is
/// within the whole, and zero where there is no treasury.
pub open spec fn restorable(treasury: Option<Address>, fee_bps: u32) -> bool {
    fee_bps <= BPS_DENOMINATOR && (treasury is None ==> fee_bps == 0)
}

impl ConfigModel {
    /// The settings before anything was configured.
    pub open spec fn initial() -> ConfigModel {
        ConfigModel { treasury: None, admin: None, fee_bps: 0, paused: false }
    }

    /// The fee rate is a share of the whole, and there is a rate only where
    /// there is a treasury to keep the fee.
    pub open spec fn wf(self) -> bool {
        &&& 0 <= self.fee_bps <= BPS_DENOMINATOR
        &&& self.treasury is None ==> self.fee_bps == 0
    }

    /// Who administers: the designated administrator, and the treasury as
    /// long as none is designated.
    pub open spec fn administrator(self) -> Option<Seq<char>> {
        if self.admin is Some {
            self.admin
        } else {
            self.treasury
        }
    }

    /// `caller` is the administrator.
    pub open spec fn admits(self, caller: Seq<char>) -> bool {
        self.administrator() == Some(caller)
    }

    /// The fee kept from `amount` on its way back to a depositor: the share
    /// of it that the rate names, rounded down.
    pub open spec fn fee_on(self, amount: int) -> int {
        fee_of(amount, self.fee_bps)
    }

    /// Whether `initialize` is accepted: once, with a rate within the whole.
    pub open spec fn initialize_check(self, fee_bps: Option<u32>) -> Result<(), EscrowError> {
        if self.treasury is Some {
            Err(EscrowError::Unauthorized)
        } else if fee_bps is Some && fee_bps->0 > BPS_DENOMINATOR {
            Err(EscrowError::EscrowNotActive)
        } else {
            Ok(())
        }
    }

    /// The settings after an accepted `initialize`.
    pub open spec fn initialized(self, treasury: Seq<char>, fee_bps: Option<u32>) -> ConfigModel {
        ConfigModel {
            treasury: Some(treasury),
            fee_bps: match fee_bps {
                Some(bps) => bps as int,
                None => DEFAULT_FEE_BPS as int,
            },
            ..self
        }
    }

    /// Whether `init` is accepted: once.
    pub open spec fn init_check(self) -> Result<(), EscrowError> {
        if self.admin is Some {
            Err(EscrowError::Unauthorized)
        } else {
            Ok(())
        }
    }

    /// Whether `set_paused` is accepted from `caller`.
    pub open spec fn set_paused_check(self, caller: Seq<char>) -> Result<(), EscrowError> {
        if !self.admits(caller) {
            Err(EscrowError::Unauthorized)
        } else {
            Ok(())
        }
    }

    /// Whether `update_fee` is accepted from `caller`: from the
    /// administrator, once a treasury is set, with a rate within the whole.
    pub open spec fn update_fee_check(self, caller: Seq<char>, fee_bps: u32) -> Result<
        (),
        EscrowError,
    > {
        if !self.admits(caller) {
            Err(EscrowError::Unauthorized)
        } else if self.treasury is None || fee_bps > BPS_DENOMINATOR {
            Err(EscrowError::EscrowNotActive)
        } else {
            Ok(())
        }
    }
}

impl View for Config {
    type V = ConfigModel;

    closed spec fn view(&self) -> ConfigModel {
        ConfigModel {
            treasury: identity_of(self.treasury),
            admin: identity_of(self.admin),
            fee_bps: self.fee_bps as int,
            paused: self.paused,
        }
    }
}

impl Config {
    /// The fee rate is never more than the whole, and it is zero as long as
    /// no treasury is set.
    #[verifier::type_invariant]
    closed spec fn rate_within_whole(self) -> bool {
        &&& self.fee_bps <= BPS_DENOMINATOR
        &&& self.treasury is None ==> self.fee_bps == 0
    }

    /// A store with nothing configured: no treasury, no administrator, no
    /// fee, not paused.
    pub fn new() -> (c: Config)
        ensures
            c@ == ConfigModel::initial(),
            c@.wf(),
    {
        Config { treasury: None, admin: None, fee_bps: 0, paused: false }
    }

    /// A store with the given settings, or `None` where they are not those
    /// of any store: a fee rate above the whole, or a rate without a
    /// treasury.
    pub fn restore(
        treasury: Option<Address>,
        admin: Option<Address>,
        fee_bps: u32,
        paused: bool,
    ) -> (c: Option<Config>)
        ensures
            c is Some <==> restorable(treasury, fee_bps),
            c is Some ==> c->0@.wf() && c->0@ == (ConfigModel {
                treasury: identity_of(treasury),
                admin: identity_of(admin),
                fee_bps: fee_bps as int,
                paused,
            }),
    {
        if fee_bps > BPS_DENOMINATOR || (treasury.is_none() && fee_bps != 0) {
            None
        } else {
            Some(Config { treasury, admin, fee_bps, paused })
        }
    }

    /// Sets the treasury and the fee rate, once. Without a rate the default
    /// applies. A second call is `Unauthorized`; a rate above the whole is
    /// `EscrowNotActive`.
    pub fn initialize(&mut self, treasury: Address, fee_bps: Option<u32>) -> (r: Result<
        (),
        EscrowError,
    >)
        ensures
            r == old(self)@.initialize_check(fee_bps),
            final(self)@ == if r is Ok {
                old(self)@.initialized(treasury@, fee_bps)
            } else {
                old(self)@
            },
    {
        proof {
            use_type_invariant(&*self);
        }
        if self.treasury.is_some() {
            return Err(EscrowError::Unauthorized);
        }
        let rate: u32 = match fee_bps {
            Some(bps) => bps,
            None => DEFAULT_FEE_BPS,
        };
        if rate > BPS_DENOMINATOR {
            return Err(EscrowError::EscrowNotActive);
        }
        self.treasury = Some(treasury);
        self.fee_bps = rate;
        Ok(())
    }

    /// Designates the administrator, once. A second call is `Unauthorized`.
    pub fn init(&mut self, admin: Address) -> (r: Result<(), EscrowError>)
        ensures
            r == old(self)@.init_check(),
            final(self)@ == if r is Ok {
                ConfigModel { admin: Some(admin@), ..old(self)@ }
            } else {
                old(self)@
            },
    {
        proof {
            use_type_invariant(&*self);
        }
        if self.admin.is_some() {
            return Err(EscrowError::Unauthorized);
        }
        self.admin = Some(admin);
        Ok(())
    }

    /// Whether `caller` is the administrator.
    pub fn is_admin(&self, caller: &Address) -> (r: bool)
        ensures
            r == self@.admits(caller@),
    {
        match &self.admin {
            Some(a) => a.same(caller),
            None => match &self.treasury {
                Some(t) => t.same(caller),
                None => false,
            },
        }
    }

    /// Suspends or resumes creation and funding, for the administrator.
    pub fn set_paused(&mut self, caller: &Address, paused: bool) -> (r: Result<(), EscrowError>)
        ensures
            r == old(self)@.set_paused_check(caller@),
            final(self)@ == if r is Ok {
                ConfigModel { paused, ..old(self)@ }
            } else {
                old(self)@
            },
    {
        proof {
            use_type_invariant(&*self);
        }
        if !self.is_admin(caller) {
            return Err(EscrowError::Unauthorized);
        }
        self.paused = paused;
        Ok(())
    }

    /// Sets the fee rate, for the administrator. Before a treasury is set,
    /// and for a rate above the whole, it is `EscrowNotActive`.
    pub fn update_fee(&mut self, caller: &Address, fee_bps: u32) -> (r: Result<(), EscrowError>)
        ensures
            r == old(self)@.update_fee_check(caller@, fee_bps),
            final(self)@ == if r is Ok {
                ConfigModel { fee_bps: fee_bps as int, ..old(self)@ }
            } else {
                old(self)@
            },
    {
        if !self.is_admin(caller) {
            return Err(EscrowError::Unauthorized);
        }
        if self.treasury.is_none() || fee_bps > BPS_DENOMINATOR {
            return Err(EscrowError::EscrowNotActive);
        }
        self.fee_bps = fee_bps;
        Ok(())
    }

    /// Whether creation and funding are suspended.
    pub fn is_paused(&self) -> (r: bool)
        ensures
            r == self@.paused,
    {
        self.paused
    }

    /// The fee rate in basis points.
    pub fn fee_bps(&self) -> (r: u32)
        ensures
            r == self@.fee_bps,
    {
        self.fee_bps
    }

    /// The treasury, once configured.
    pub fn treasury(&self) -> (r: Option<&Address>)
        ensures
            r is Some <==> self@.treasury is Some,
            r is Some ==> Some(r->0@) == self@.treasury,
    {
        self.treasury.as_ref()
    }

    /// The designated administrator, if any.
    pub fn admin(&self) -> (r: Option<&Address>)
        ensures
            r is Some <==> self@.admin is Some,
            r is Some ==> Some(r->0@) == self@.admin,
    {
        self.admin.as_ref()
    }

    /// Who administers at present, if anybody.
    pub fn administrator(&self) -> (r: Option<&Address>)
        ensures
            r is Some <==> self@.administrator() is Some,
            r is Some ==> Some(r->0@) == self@.administrator(),
    {
        match &self.admin {
            Some(a) => Some(a),
            None => self.treasury.as_ref(),
        }
    }

    /// The fee kept from `amount` on its way back to a depositor.
    pub fn fee_on(&self, amount: i128) -> (fee: i128)
        requires
            0 <= amount,
        ensures
            fee == self@.fee_on(amount as int),
            0 <= fee <= amount,
    {
        proof {
            use_type_invariant(self);
        }
        compute_fee(amount, self.fee_bps)
    }
}

} // verus!
