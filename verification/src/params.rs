//! The consensus-parameter snapshot: network-wide limits and costs, consumed
//! by finalization only as configuration context.
//!
//! Setting a subgroup replaces it wholesale, never merges fields, so each
//! subgroup is a plain `Copy` value.

use vstd::prelude::*;
use crate::gas::{GasCosts, GasCostsValues, spec_default_gas_costs};

verus! {

/// Transaction-level limits.
#[derive(Clone, Copy, Debug, PartialEq, Eq, Structural)]
pub struct TxParameters {
    pub max_inputs: u16,
    pub max_outputs: u16,
    pub max_witnesses: u32,
    pub max_gas_per_tx: u64,
    pub max_size: u64,
}

/// Predicate limits.
#[derive(Clone, Copy, Debug, PartialEq, Eq, Structural)]
pub struct PredicateParameters {
    pub max_predicate_length: u64,
    pub max_predicate_data_length: u64,
    pub max_message_data_length: u64,
    pub max_gas_per_predicate: u64,
}

/// Script limits.
#[derive(Clone, Copy, Debug, PartialEq, Eq, Structural)]
pub struct ScriptParameters {
    pub max_script_length: u64,
    pub max_script_data_length: u64,
}

/// Contract limits.
#[derive(Clone, Copy, Debug, PartialEq, Eq, Structural)]
pub struct ContractParameters {
    pub contract_max_size: u64,
    pub max_storage_slots: u64,
}

/// Fee computation parameters.
#[derive(Clone, Copy, Debug, PartialEq, Eq, Structural)]
pub struct FeeParameters {
    pub gas_price_factor: u64,
    pub gas_per_byte: u64,
}

/// A replaceable snapshot of the network-wide limits and costs.
#[derive(Clone, Copy, Debug)]
pub struct ConsensusParameters {
    pub tx_params: TxParameters,
    pub predicate_params: PredicateParameters,
    pub script_params: ScriptParameters,
    pub contract_params: ContractParameters,
    pub fee_params: FeeParameters,
    pub chain_id: u64,
    pub base_asset_id: [u8; 32],
    pub gas_costs: GasCosts,
}

/// `p` is exactly the standard default parameter profile.
pub open spec fn is_standard_params(p: ConsensusParameters) -> bool {
    &&& p.tx_params == (TxParameters {
        max_inputs: 255,
        max_outputs: 255,
        max_witnesses: 255,
        max_gas_per_tx: 30_000_000,
        max_size: 17_825_792,
    })
    &&& p.predicate_params == (PredicateParameters {
        max_predicate_length: 1_048_576,
        max_predicate_data_length: 1_048_576,
        max_message_data_length: 1_048_576,
        max_gas_per_predicate: 30_000_000,
    })
    &&& p.script_params == (ScriptParameters {
        max_script_length: 1_048_576,
        max_script_data_length: 1_048_576,
    })
    &&& p.contract_params == (ContractParameters {
        contract_max_size: 16_777_216,
        max_storage_slots: 255,
    })
    &&& p.fee_params == (FeeParameters { gas_price_factor: 1_000_000_000, gas_per_byte: 4 })
    &&& p.chain_id == 0
    &&& p.base_asset_id@ == Seq::new(32, |i: int| 0u8)
    &&& p.gas_costs.values == spec_default_gas_costs()
}

impl ConsensusParameters {
    /// The standard default parameter profile.
    pub fn standard() -> (r: ConsensusParameters)
        ensures
            is_standard_params(r),
    {
        let r = ConsensusParameters {
            tx_params: TxParameters {
                max_inputs: 255,
                max_outputs: 255,
                max_witnesses: 255,
                max_gas_per_tx: 30_000_000,
                max_size: 17_825_792,
            },
            predicate_params: PredicateParameters {
                max_predicate_length: 1_048_576,
                max_predicate_data_length: 1_048_576,
                max_message_data_length: 1_048_576,
                max_gas_per_predicate: 30_000_000,
            },
            script_params: ScriptParameters {
                max_script_length: 1_048_576,
                max_script_data_length: 1_048_576,
            },
            contract_params: ContractParameters {
                contract_max_size: 16_777_216,
                max_storage_slots: 255,
            },
            fee_params: FeeParameters { gas_price_factor: 1_000_000_000, gas_per_byte: 4 },
            chain_id: 0,
            base_asset_id: [0u8; 32],
            gas_costs: crate::gas::GasCosts::default_table(),
        };
        proof {
            assert(r.base_asset_id@ =~= Seq::new(32, |i: int| 0u8));
        }
        r
    }

    pub fn tx_params(&self) -> (r: &TxParameters)
        ensures
            r == self.tx_params,
    {
        &self.tx_params
    }

    pub fn predicate_params(&self) -> (r: &PredicateParameters)
        ensures
            r == self.predicate_params,
    {
        &self.predicate_params
    }

    pub fn script_params(&self) -> (r: &ScriptParameters)
        ensures
            r == self.script_params,
    {
        &self.script_params
    }

    pub fn contract_params(&self) -> (r: &ContractParameters)
        ensures
            r == self.contract_params,
    {
        &self.contract_params
    }

    pub fn fee_params(&self) -> (r: &FeeParameters)
        ensures
            r == self.fee_params,
    {
        &self.fee_params
    }

    pub fn chain_id(&self) -> (r: u64)
        ensures
            r == self.chain_id,
    {
        self.chain_id
    }

    pub fn gas_costs(&self) -> (r: &GasCostsValues)
        ensures
            r == self.gas_costs.values,
    {
        &self.gas_costs.values
    }
}

} // verus!
