//! The fixed per-opcode gas-cost table, consumed as opaque configuration.

use vstd::prelude::*;

verus! {

/// A base-plus-per-unit cost for operations whose price grows with the size
/// of their operand.
#[derive(Clone, Copy, Debug, PartialEq, Eq, Structural)]
pub struct DependentCost {
    pub base: u64,
    pub dep_per_unit: u64,
}

/// The per-opcode gas costs of the execution layer.
#[derive(Clone, Copy, Debug, PartialEq, Eq, Structural)]
pub struct GasCostsValues {
    pub add: u64, pub addi: u64, pub aloc: u64, pub and: u64, pub andi: u64,
    pub bal: u64, pub bhei: u64, pub bhsh: u64, pub burn: u64, pub cb: u64,
    pub cfei: u64, pub cfsi: u64, pub croo: u64, pub div: u64, pub divi: u64,
    pub eck1: u64, pub ecr1: u64, pub ed19: u64, pub eq: u64, pub exp: u64,
    pub expi: u64, pub flag: u64, pub gm: u64, pub gt: u64, pub gtf: u64,
    pub ji: u64, pub jmp: u64, pub jne: u64, pub jnei: u64, pub jnzi: u64,
    pub jmpf: u64, pub jmpb: u64, pub jnzf: u64, pub jnzb: u64, pub jnef: u64,
    pub jneb: u64, pub lb: u64, pub log: u64, pub lt: u64, pub lw: u64,
    pub mint: u64, pub mlog: u64, pub modi: u64, pub mod_op: u64, pub movi: u64,
    pub mroo: u64, pub mul: u64, pub muli: u64, pub mldv: u64, pub noop: u64,
    pub not: u64, pub or: u64, pub ori: u64, pub poph: u64, pub popl: u64,
    pub pshh: u64, pub pshl: u64, pub move_op: u64, pub ret: u64, pub sb: u64,
    pub sll: u64, pub slli: u64, pub srl: u64, pub srli: u64, pub srw: u64,
    pub sub: u64, pub subi: u64, pub sw: u64, pub sww: u64, pub time: u64,
    pub tr: u64, pub tro: u64, pub wdcm: u64, pub wqcm: u64, pub wdop: u64,
    pub wqop: u64, pub wdml: u64, pub wqml: u64, pub wddv: u64, pub wqdv: u64,
    pub wdmd: u64, pub wqmd: u64, pub wdam: u64, pub wqam: u64, pub wdmm: u64,
    pub wqmm: u64, pub xor: u64, pub xori: u64,
    pub k256: DependentCost, pub s256: DependentCost, pub call: DependentCost,
    pub ccp: DependentCost, pub csiz: DependentCost, pub ldc: DependentCost,
    pub logd: DependentCost, pub mcl: DependentCost, pub mcli: DependentCost,
    pub mcp: DependentCost, pub mcpi: DependentCost, pub meq: DependentCost,
    pub rvrt: u64, pub smo: DependentCost, pub retd: DependentCost,
    pub srwq: DependentCost, pub scwq: DependentCost, pub swwq: DependentCost,
    pub contract_root: DependentCost,
}

/// The default gas-cost table as a mathematical value.
pub open spec fn spec_default_gas_costs() -> GasCostsValues {
    GasCostsValues {
        add: 1, addi: 1, aloc: 1, and: 1, andi: 1,
        bal: 13, bhei: 1, bhsh: 1, burn: 132, cb: 1,
        cfei: 1, cfsi: 1, croo: 16, div: 1, divi: 1,
        eck1: 951, ecr1: 3000, ed19: 3000, eq: 1, exp: 1,
        expi: 1, flag: 1, gm: 1, gt: 1, gtf: 1,
        ji: 1, jmp: 1, jne: 1, jnei: 1, jnzi: 1,
        jmpf: 1, jmpb: 1, jnzf: 1, jnzb: 1, jnef: 1,
        jneb: 1, lb: 1, log: 9, lt: 1, lw: 1,
        mint: 135, mlog: 1, modi: 1, mod_op: 1, movi: 1,
        mroo: 2, mul: 1, muli: 1, mldv: 1, noop: 1,
        not: 1, or: 1, ori: 1, poph: 2, popl: 2,
        pshh: 2, pshl: 2, move_op: 1, ret: 13, sb: 1,
        sll: 1, slli: 1, srl: 1, srli: 1, srw: 12,
        sub: 1, subi: 1, sw: 1, sww: 67, time: 1,
        tr: 105, tro: 60, wdcm: 1, wqcm: 1, wdop: 1,
        wqop: 1, wdml: 1, wqml: 1, wddv: 1, wqdv: 2,
        wdmd: 3, wqmd: 4, wdam: 2, wqam: 3, wdmm: 3,
        wqmm: 3, xor: 1, xori: 1,
        k256: DependentCost { base: 11, dep_per_unit: 214 },
        s256: DependentCost { base: 2, dep_per_unit: 214 },
        call: DependentCost { base: 144, dep_per_unit: 214 },
        ccp: DependentCost { base: 15, dep_per_unit: 103 },
        csiz: DependentCost { base: 17, dep_per_unit: 790 },
        ldc: DependentCost { base: 15, dep_per_unit: 272 },
        logd: DependentCost { base: 26, dep_per_unit: 64 },
        mcl: DependentCost { base: 1, dep_per_unit: 3333 },
        mcli: DependentCost { base: 1, dep_per_unit: 3333 },
        mcp: DependentCost { base: 1, dep_per_unit: 2000 },
        mcpi: DependentCost { base: 3, dep_per_unit: 2000 },
        meq: DependentCost { base: 1, dep_per_unit: 2500 },
        rvrt: 13,
        smo: DependentCost { base: 209, dep_per_unit: 55 },
        retd: DependentCost { base: 29, dep_per_unit: 62 },
        srwq: DependentCost { base: 47, dep_per_unit: 5 },
        scwq: DependentCost { base: 13, dep_per_unit: 5 },
        swwq: DependentCost { base: 44, dep_per_unit: 5 },
        contract_root: DependentCost { base: 75, dep_per_unit: 1 },
    }
}

/// The default gas-cost table.
pub fn default_gas_costs() -> (r: GasCostsValues)
    ensures
        r == spec_default_gas_costs(),
{
    GasCostsValues {
        add: 1, addi: 1, aloc: 1, and: 1, andi: 1,
        bal: 13, bhei: 1, bhsh: 1, burn: 132, cb: 1,
        cfei: 1, cfsi: 1, croo: 16, div: 1, divi: 1,
        eck1: 951, ecr1: 3000, ed19: 3000, eq: 1, exp: 1,
        expi: 1, flag: 1, gm: 1, gt: 1, gtf: 1,
        ji: 1, jmp: 1, jne: 1, jnei: 1, jnzi: 1,
        jmpf: 1, jmpb: 1, jnzf: 1, jnzb: 1, jnef: 1,
        jneb: 1, lb: 1, log: 9, lt: 1, lw: 1,
        mint: 135, mlog: 1, modi: 1, mod_op: 1, movi: 1,
        mroo: 2, mul: 1, muli: 1, mldv: 1, noop: 1,
        not: 1, or: 1, ori: 1, poph: 2, popl: 2,
        pshh: 2, pshl: 2, move_op: 1, ret: 13, sb: 1,
        sll: 1, slli: 1, srl: 1, srli: 1, srw: 12,
        sub: 1, subi: 1, sw: 1, sww: 67, time: 1,
        tr: 105, tro: 60, wdcm: 1, wqcm: 1, wdop: 1,
        wqop: 1, wdml: 1, wqml: 1, wddv: 1, wqdv: 2,
        wdmd: 3, wqmd: 4, wdam: 2, wqam: 3, wdmm: 3,
        wqmm: 3, xor: 1, xori: 1,
        k256: DependentCost { base: 11, dep_per_unit: 214 },
        s256: DependentCost { base: 2, dep_per_unit: 214 },
        call: DependentCost { base: 144, dep_per_unit: 214 },
        ccp: DependentCost { base: 15, dep_per_unit: 103 },
        csiz: DependentCost { base: 17, dep_per_unit: 790 },
        ldc: DependentCost { base: 15, dep_per_unit: 272 },
        logd: DependentCost { base: 26, dep_per_unit: 64 },
        mcl: DependentCost { base: 1, dep_per_unit: 3333 },
        mcli: DependentCost { base: 1, dep_per_unit: 3333 },
        mcp: DependentCost { base: 1, dep_per_unit: 2000 },
        mcpi: DependentCost { base: 3, dep_per_unit: 2000 },
        meq: DependentCost { base: 1, dep_per_unit: 2500 },
        rvrt: 13,
        smo: DependentCost { base: 209, dep_per_unit: 55 },
        retd: DependentCost { base: 29, dep_per_unit: 62 },
        srwq: DependentCost { base: 47, dep_per_unit: 5 },
        scwq: DependentCost { base: 13, dep_per_unit: 5 },
        swwq: DependentCost { base: 44, dep_per_unit: 5 },
        contract_root: DependentCost { base: 75, dep_per_unit: 1 },
    }
}

/// The gas-cost table carried by a consensus-parameter snapshot.
#[derive(Clone, Copy, Debug, PartialEq, Eq, Structural)]
pub struct GasCosts {
    pub values: GasCostsValues,
}

impl GasCosts {
    /// The table holding the default costs.
    pub fn default_table() -> (r: GasCosts)
        ensures
            r.values == spec_default_gas_costs(),
    {
        GasCosts { values: default_gas_costs() }
    }
}

} // verus!
