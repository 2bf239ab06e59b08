use crate::error::RuntimeError;
use vstd::prelude::*;

verus! {

/// Default gas cost of growing linear memory by one page.
pub const DEFAULT_GROW_MEM_COST: u32 = 1;

/// Default gas cost of one ordinary instruction.
pub const DEFAULT_REGULAR_OP_COST: u32 = 1;

/// Default gas cost of one byte handed back to the host.
pub const DEFAULT_RETURN_DATA_PER_BYTE_COST: u32 = 1;

/// Default ceiling on the value-stack height.
pub const DEFAULT_MAX_STACK_HEIGHT: u32 = 64 * 1024;

/// Default ceiling on the number of linear-memory pages.
pub const DEFAULT_MAX_MEMORY_PAGES: u32 = 16;

/// Default gas budget of one contract call.
pub const DEFAULT_GAS_LIMIT: u64 = 128 * 1024;

/// Costs and limits that bound one contract invocation.
#[derive(Clone, Copy, Debug)]
pub struct Config {
    /// Gas cost of a growing memory by single page.
    pub grow_mem_cost: u32,
    /// Gas cost of a regular operation.
    pub regular_op_cost: u32,
    /// Gas cost per one byte returned.
    pub return_data_per_byte_cost: u32,
    /// How tall the stack is allowed to grow.
    pub max_stack_height: u32,
    /// The largest number of memory pages a contract may have.
    pub max_memory_pages: u32,
    /// Gas limit of the one contract call.
    pub gas_limit: u64,
}

/// The configuration used when the host supplies none.
pub open spec fn default_config() -> Config {
    Config {
        grow_mem_cost: 1,
        regular_op_cost: 1,
        return_data_per_byte_cost: 1,
        max_stack_height: 65536,
        max_memory_pages: 16,
        gas_limit: 131072,
    }
}

impl Default for Config {
    fn default() -> (r: Config)
        ensures
            r == default_config(),
    {
        Config {
            grow_mem_cost: DEFAULT_GROW_MEM_COST,
            regular_op_cost: DEFAULT_REGULAR_OP_COST,
            return_data_per_byte_cost: DEFAULT_RETURN_DATA_PER_BYTE_COST,
            max_stack_height: DEFAULT_MAX_STACK_HEIGHT,
            max_memory_pages: DEFAULT_MAX_MEMORY_PAGES,
            gas_limit: DEFAULT_GAS_LIMIT,
        }
    }
}

/// Parameters handed to one execution.
#[derive(Clone, Copy, Debug)]
pub struct ExecutionParams {
    pub config: Config,
}


/// Gas spent so far in one invocation, against the limit it may not pass.
#[derive(Clone, Copy, Debug)]
pub struct GasCounter {
    /// Gas charged so far.
    pub used: u64,
    /// Total gas the invocation may spend.
    pub limit: u64,
}

/// The counter an invocation under `config` starts with.
pub open spec fn fresh_counter(config: Config) -> GasCounter {
    GasCounter { used: 0, limit: config.gas_limit }
}

/// Whether a charge of `amount` on `counter` stays within its limit.
pub open spec fn charge_fits(counter: GasCounter, amount: u64) -> bool {
    counter.used + amount <= counter.limit
}

/// The outcome of charging `amount` on `counter`.
pub open spec fn charge_result(counter: GasCounter, amount: u64) -> Result<(), RuntimeError> {
    if charge_fits(counter, amount) {
        Ok(())
    } else {
        Err(RuntimeError::GasLimit)
    }
}

impl GasCounter {
    /// A counter with nothing spent, bounded by the configuration's gas limit.
    pub fn new(config: &Config) -> (r: GasCounter)
        ensures
            r == fresh_counter(*config),
    {
        GasCounter { used: 0, limit: config.gas_limit }
    }

    /// Charges `amount` of gas, or reports the gas limit as violated and
    /// leaves the counter as it was.
    pub fn charge(&mut self, amount: u64) -> (r: Result<(), RuntimeError>)
        ensures
            r == charge_result(*old(self), amount),
            final(self).limit == old(self).limit,
            final(self).used == if charge_fits(*old(self), amount) {
                old(self).used + amount
            } else {
                old(self).used as int
            },
    {
        if amount <= self.limit && self.used <= self.limit - amount {
            self.used = self.used + amount;
            Ok(())
        } else {
            Err(RuntimeError::GasLimit)
        }
    }
}

/// With a gas limit of zero, the first operation that costs anything is
/// refused as a gas-limit violation.
pub proof fn lemma_zero_budget_rejects_first_charge(config: Config, amount: u64)
    requires
        config.gas_limit == 0,
        amount > 0,
    ensures
        charge_result(fresh_counter(config), amount) == Err::<(), RuntimeError>(
            RuntimeError::GasLimit,
        ),
{
}

} // verus!
