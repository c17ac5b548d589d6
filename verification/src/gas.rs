//! Gas that a transaction uses, and how a guest asks for it.

use vstd::prelude::*;

use crate::error::{GasError, HostError};

verus! {

/// Counts the gas that a transaction uses, against the gas that it may use.
#[derive(Clone, Copy, Debug)]
pub struct BlockGasMeter {
    limit: u64,
    transaction_gas: u64,
}

/// What a gas meter counts.
pub struct GasView {
    /// The gas that the transaction may use.
    pub limit: nat,
    /// The gas that the transaction has asked for.
    pub transaction_gas: nat,
}

impl View for BlockGasMeter {
    type V = GasView;

    closed spec fn view(&self) -> GasView {
        GasView { limit: self.limit as nat, transaction_gas: self.transaction_gas as nat }
    }
}

impl GasView {
    /// The answer to a request for gas. More than the counter can hold is an overflow.
    pub open spec fn charge(self, gas: nat) -> Result<(), GasError> {
        if self.transaction_gas + gas > u64::MAX {
            Err(GasError::Overflow)
        } else if self.transaction_gas + gas > self.limit {
            Err(GasError::LimitExceeded)
        } else {
            Ok(())
        }
    }

    /// The meter after a request for gas. A request beyond the limit is counted too; one that
    /// overflows is not.
    pub open spec fn after(self, gas: nat) -> GasView {
        if self.transaction_gas + gas > u64::MAX {
            self
        } else {
            GasView { limit: self.limit, transaction_gas: self.transaction_gas + gas }
        }
    }
}

impl BlockGasMeter {
    /// A meter of a transaction that has used no gas yet.
    pub fn new(limit: u64) -> (meter: BlockGasMeter)
        ensures
            meter@ == (GasView { limit: limit as nat, transaction_gas: 0 }),
    {
        BlockGasMeter { limit, transaction_gas: 0 }
    }

    /// The gas that the transaction has asked for.
    pub fn transaction_gas(&self) -> (gas: u64)
        ensures
            gas == self@.transaction_gas,
    {
        self.transaction_gas
    }

    /// Counts gas, and says whether the transaction may use it.
    pub fn add(&mut self, gas: u64) -> (res: Result<(), GasError>)
        ensures
            res == old(self)@.charge(gas as nat),
            final(self)@ == old(self)@.after(gas as nat),
            res is Ok <==> old(self)@.transaction_gas + gas <= old(self)@.limit,
            old(self)@.transaction_gas + gas <= u64::MAX ==> final(self)@.transaction_gas
                == old(self)@.transaction_gas + gas,
            final(self)@.limit == old(self)@.limit,
    {
        match self.transaction_gas.checked_add(gas) {
            Some(total) => {
                self.transaction_gas = total;
                if total > self.limit {
                    Err(GasError::LimitExceeded)
                } else {
                    Ok(())
                }
            },
            None => Err(GasError::Overflow),
        }
    }
}

/// The gas for which a guest asks with its signed argument: a negative number stands for the
/// amount that has the same bits, sign extended, as an unsigned one.
pub open spec fn requested_gas(used_gas: i32) -> nat {
    if used_gas < 0 {
        (0x1_0000_0000_0000_0000 + used_gas) as nat
    } else {
        used_gas as nat
    }
}

/// Charges a guest for the gas that it asks for.
pub fn charge_gas(gas_meter: &mut BlockGasMeter, used_gas: i32) -> (res: Result<(), HostError>)
    ensures
        res == match old(gas_meter)@.charge(requested_gas(used_gas)) {
            Ok(()) => Ok(()),
            Err(err) => Err(HostError::Gas(err)),
        },
        final(gas_meter)@ == old(gas_meter)@.after(requested_gas(used_gas)),
        used_gas >= 0 ==> (res is Ok <==> old(gas_meter)@.transaction_gas + used_gas
            <= old(gas_meter)@.limit),
        used_gas >= 0 && old(gas_meter)@.transaction_gas + used_gas <= u64::MAX
            ==> final(gas_meter)@.transaction_gas == old(gas_meter)@.transaction_gas + used_gas,
        final(gas_meter)@.limit == old(gas_meter)@.limit,
{
    let gas: u64 = used_gas as u64;
    assert(used_gas >= 0i32 ==> (used_gas as u64) == used_gas) by (bit_vector);
    assert(used_gas < 0i32 ==> (used_gas as u64) == 0x1_0000_0000_0000_0000 + used_gas)
        by (bit_vector);
    match gas_meter.add(gas) {
        Ok(()) => Ok(()),
        Err(err) => Err(HostError::Gas(err)),
    }
}

} // verus!
