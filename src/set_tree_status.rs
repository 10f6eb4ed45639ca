use vstd::prelude::*;

use crate::errors::Error;
use crate::pubkey::Pubkey;
use crate::state::{Config, TreeStatus};

verus! {

/// The accounts of a status change: the signing `authority` and the record
/// derived from it.
#[derive(Debug)]
pub struct SetTreeStatus {
    pub authority: Pubkey,
    pub config: Option<Config>,
}

impl SetTreeStatus {
    /// Why a status change is refused, if it is.
    pub open spec fn owner_error(&self) -> Option<Error> {
        match self.config {
            None => Some(Error::AccountNotInitialized),
            Some(config) => if config.authority@ != self.authority@ {
                Some(Error::ConstraintSeeds)
            } else {
                None
            },
        }
    }

    /// Overwrites the record's status; any status may follow any other.
    pub fn set_tree_status(&mut self, status: TreeStatus) -> (r: Result<(), Error>)
        ensures
            r is Err <==> old(self).owner_error() is Some,
            r matches Err(e) ==> old(self).owner_error() == Some(e) && *final(self) == *old(self),
            r is Ok ==> *final(self) == (SetTreeStatus {
                config: Some(Config { status, ..old(self).config->0 }),
                ..*old(self)
            }),
    {
        match &mut self.config {
            None => Err(Error::AccountNotInitialized),
            Some(config) => {
                if !(config.authority == self.authority) {
                    return Err(Error::ConstraintSeeds);
                }
                config.status = status;
                Ok(())
            },
        }
    }
}

} // verus!
