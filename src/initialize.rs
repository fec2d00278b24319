use vstd::prelude::*;
use crate::state::{DEFAULT_FEE, ErrorCode, Identity, MAX_ADMINS, PaperFiConfig};

verus! {

/// Account numbers chosen for the configuration and its vault.
#[derive(Clone, Copy, Debug, PartialEq, Eq, Structural)]
pub struct InitializeBumps {
    pub config: u8,
    pub config_vault: u8,
}

/// Registration of `admin` on the platform configuration.
pub struct Initialize {
    pub admin: Identity,
    pub config: PaperFiConfig,
}

/// No key appears twice among `admins`.
pub open spec fn distinct_keys(admins: Seq<Identity>) -> bool {
    forall|i: int, j: int|
        0 <= i < admins.len() && 0 <= j < admins.len() && i != j ==> #[trigger] admins[i]@
            != #[trigger] admins[j]@
}

impl PaperFiConfig {
    /// At most `MAX_ADMINS` admins, none listed twice.
    pub open spec fn wf(&self) -> bool {
        &&& self.admins@.len() <= MAX_ADMINS
        &&& distinct_keys(self.admins@)
    }
}

/// Why `admin` cannot be added to `config`, if it cannot.
pub open spec fn admin_error(config: PaperFiConfig, admin: Identity) -> Option<ErrorCode> {
    if config.admins@.len() >= MAX_ADMINS {
        Some(ErrorCode::TooManyAdmins)
    } else if config.has_admin(admin@) {
        Some(ErrorCode::AdminAlreadyExists)
    } else {
        None
    }
}

impl Initialize {
    /// Appends the signer to the admins; the first registration also sets the fee
    /// percentage and the account numbers.
    pub fn generate_accounts(&mut self, bumps: InitializeBumps) -> (r: Result<(), ErrorCode>)
        requires
            old(self).config.wf(),
        ensures
            final(self).config.wf(),
            r == (match admin_error(old(self).config, old(self).admin) {
                Some(e) => Err(e),
                None => Ok(()),
            }),
            r is Err ==> *final(self) == *old(self),
            r is Ok ==> {
                let (c, d) = (old(self).config, final(self).config);
                &&& d.admins@ == c.admins@.push(old(self).admin)
                &&& d.fee == (if c.fee is None {
                    Some(DEFAULT_FEE)
                } else {
                    c.fee
                })
                &&& d.bump == (if c.fee is None {
                    bumps.config
                } else {
                    c.bump
                })
                &&& d.vault_bump == (if c.fee is None {
                    bumps.config_vault
                } else {
                    c.vault_bump
                })
                &&& final(self).admin == old(self).admin
            },
    {
        if self.config.admins.len() >= MAX_ADMINS {
            return Err(ErrorCode::TooManyAdmins);
        }
        if self.config.is_admin(&self.admin) {
            return Err(ErrorCode::AdminAlreadyExists);
        }
        let ghost before = self.config.admins@;
        self.config.admins.push(self.admin);
        proof {
            let after = self.config.admins@;
            assert forall|i: int, j: int|
                0 <= i < after.len() && 0 <= j < after.len() && i != j implies #[trigger] after[i]@
                != #[trigger] after[j]@ by {
                if i < before.len() && j < before.len() {
                } else if i < before.len() {
                    assert(after[i] == before[i]);
                } else {
                    assert(after[j] == before[j]);
                }
            }
        }
        if self.config.fee.is_none() {
            self.config.fee = Some(DEFAULT_FEE);
            self.config.bump = bumps.config;
            self.config.vault_bump = bumps.config_vault;
        }
        Ok(())
    }
}

} // verus!
