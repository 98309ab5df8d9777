//! The default cost models, for local and sandbox use. A network in operation reads
//! its parameters from its own configuration.

use vstd::prelude::*;

use crate::cost_model::{ContractCostParamEntry, ExtensionPoint};
use crate::cost_type::ContractCostType;

verus! {

/// The default limit on cpu instructions.
///
/// Assuming 2ghz chips at 2 instructions per cycle, we can guess about 4bn
/// instructions / sec, so about 400k instructions in a 100usec time budget. The
/// limit is 100 times that, which corresponds to 10ms.
pub const DEFAULT_CPU_LIMIT: u64 = 40_000_000;

/// The default limit on memory bytes: 50MB.
pub const DEFAULT_MEM_LIMIT: u64 = 0x320_0000;

/// A cost model with the given terms.
pub open spec fn linear_model(const_term: i64, linear_term: i64) -> ContractCostParamEntry {
    ContractCostParamEntry { ext: ExtensionPoint::V0, const_term, linear_term }
}

/// The default cpu cost model of a kind of work.
pub open spec fn default_cpu_model(ty: ContractCostType) -> ContractCostParamEntry {
    match ty {
        ContractCostType::WasmInsnExec => linear_model(7, 0),
        ContractCostType::WasmMemAlloc => linear_model(0, 0),
        ContractCostType::HostMemAlloc => linear_model(2350, 0),
        ContractCostType::HostMemCpy => linear_model(23, 0),
        ContractCostType::HostMemCmp => linear_model(43, 1),
        ContractCostType::InvokeHostFunction => linear_model(928, 0),
        ContractCostType::VisitObject => linear_model(19, 0),
        ContractCostType::ValXdrConv => linear_model(134, 0),
        ContractCostType::ValSer => linear_model(587, 1),
        ContractCostType::ValDeser => linear_model(870, 0),
        ContractCostType::ComputeSha256Hash => linear_model(1725, 33),
        ContractCostType::ComputeEd25519PubKey => linear_model(25551, 0),
        ContractCostType::MapEntry => linear_model(53, 0),
        ContractCostType::VecEntry => linear_model(5, 0),
        ContractCostType::GuardFrame => linear_model(4050, 0),
        ContractCostType::VerifyEd25519Sig => linear_model(369634, 21),
        ContractCostType::VmMemRead => linear_model(0, 0),
        ContractCostType::VmMemWrite => linear_model(124, 0),
        ContractCostType::VmInstantiation => linear_model(600447, 484),
        ContractCostType::VmCachedInstantiation => linear_model(600447, 484),
        ContractCostType::InvokeVmFunction => linear_model(5926, 0),
        ContractCostType::ChargeBudget => linear_model(130, 0),
        ContractCostType::ComputeKeccak256Hash => linear_model(3322, 46),
        ContractCostType::ComputeEcdsaSecp256k1Key => linear_model(56525, 0),
        ContractCostType::ComputeEcdsaSecp256k1Sig => linear_model(250, 0),
        ContractCostType::RecoverEcdsaSecp256k1Key => linear_model(2319640, 0),
        ContractCostType::Int256AddSub => linear_model(735, 0),
        ContractCostType::Int256Mul => linear_model(1224, 0),
        ContractCostType::Int256Div => linear_model(1347, 0),
        ContractCostType::Int256Pow => linear_model(5350, 0),
        ContractCostType::Int256Shift => linear_model(538, 0),
    }
}

/// The default memory cost model of a kind of work. The kinds that are not named
/// allocate nothing.
pub open spec fn default_mem_model(ty: ContractCostType) -> ContractCostParamEntry {
    match ty {
        ContractCostType::WasmMemAlloc => linear_model(1, 0),
        ContractCostType::HostMemAlloc => linear_model(8, 1),
        ContractCostType::ValSer => linear_model(9, 3),
        ContractCostType::ValDeser => linear_model(4, 1),
        ContractCostType::ComputeSha256Hash => linear_model(40, 0),
        ContractCostType::GuardFrame => linear_model(472, 0),
        ContractCostType::VmInstantiation => linear_model(117871, 40),
        ContractCostType::VmCachedInstantiation => linear_model(117871, 40),
        ContractCostType::InvokeVmFunction => linear_model(486, 0),
        ContractCostType::ComputeKeccak256Hash => linear_model(40, 0),
        ContractCostType::RecoverEcdsaSecp256k1Key => linear_model(181, 0),
        ContractCostType::Int256AddSub => linear_model(119, 0),
        ContractCostType::Int256Mul => linear_model(119, 0),
        ContractCostType::Int256Div => linear_model(119, 0),
        ContractCostType::Int256Pow => linear_model(119, 0),
        ContractCostType::Int256Shift => linear_model(119, 0),
        _ => linear_model(0, 0),
    }
}

/// Sets the terms of a cpu cost model to the defaults of a kind of work.
pub fn set_default_cpu_model(ty: ContractCostType, cpu: &mut ContractCostParamEntry)
    ensures
        *final(cpu) == (ContractCostParamEntry {
            ext: old(cpu).ext,
            ..default_cpu_model(ty)
        }),
{
    match ty {
        // This is the host cpu insn cost per wasm "fuel". Every "base" wasm
        // instruction costs 1 fuel (by default), and some particular types of
        // instructions may cost additional amount of fuel based on the fuel
        // schedule of the interpreter.
        ContractCostType::WasmInsnExec => {
            cpu.const_term = 7;
            cpu.linear_term = 0;
        },
        // Host cpu insns per wasm "memory fuel". This has to be zero since
        // the fuel (representing cpu cost) has been covered by `WasmInsnExec`.
        // The extra cost of mem processing is accounted for by the interpreter's
        // fuel schedule. This type is designated to the mem cost.
        ContractCostType::WasmMemAlloc => {
            cpu.const_term = 0;
            cpu.linear_term = 0;
        },
        ContractCostType::HostMemAlloc => {
            cpu.const_term = 2350;
            cpu.linear_term = 0;
        },
        ContractCostType::HostMemCpy => {
            cpu.const_term = 23;
            cpu.linear_term = 0;
        },
        ContractCostType::HostMemCmp => {
            cpu.const_term = 43;
            cpu.linear_term = 1;
        },
        ContractCostType::InvokeHostFunction => {
            cpu.const_term = 928;
            cpu.linear_term = 0;
        },
        ContractCostType::VisitObject => {
            cpu.const_term = 19;
            cpu.linear_term = 0;
        },
        ContractCostType::ValXdrConv => {
            cpu.const_term = 134;
            cpu.linear_term = 0;
        },
        ContractCostType::ValSer => {
            cpu.const_term = 587;
            cpu.linear_term = 1;
        },
        ContractCostType::ValDeser => {
            cpu.const_term = 870;
            cpu.linear_term = 0;
        },
        ContractCostType::ComputeSha256Hash => {
            cpu.const_term = 1725;
            cpu.linear_term = 33;
        },
        ContractCostType::ComputeEd25519PubKey => {
            cpu.const_term = 25551;
            cpu.linear_term = 0;
        },
        ContractCostType::MapEntry => {
            cpu.const_term = 53;
            cpu.linear_term = 0;
        },
        ContractCostType::VecEntry => {
            cpu.const_term = 5;
            cpu.linear_term = 0;
        },
        ContractCostType::GuardFrame => {
            cpu.const_term = 4050;
            cpu.linear_term = 0;
        },
        ContractCostType::VerifyEd25519Sig => {
            cpu.const_term = 369634;
            cpu.linear_term = 21;
        },
        ContractCostType::VmMemRead => {
            cpu.const_term = 0;
            cpu.linear_term = 0;
        },
        ContractCostType::VmMemWrite => {
            cpu.const_term = 124;
            cpu.linear_term = 0;
        },
        ContractCostType::VmInstantiation => {
            cpu.const_term = 600447;
            cpu.linear_term = 484;
        },
        ContractCostType::VmCachedInstantiation => {
            cpu.const_term = 600447;
            cpu.linear_term = 484;
        },
        ContractCostType::InvokeVmFunction => {
            cpu.const_term = 5926;
            cpu.linear_term = 0;
        },
        ContractCostType::ChargeBudget => {
            cpu.const_term = 130;
            cpu.linear_term = 0;
        },
        ContractCostType::ComputeKeccak256Hash => {
            cpu.const_term = 3322;
            cpu.linear_term = 46;
        },
        ContractCostType::ComputeEcdsaSecp256k1Key => {
            cpu.const_term = 56525;
            cpu.linear_term = 0;
        },
        ContractCostType::ComputeEcdsaSecp256k1Sig => {
            cpu.const_term = 250;
            cpu.linear_term = 0;
        },
        ContractCostType::RecoverEcdsaSecp256k1Key => {
            cpu.const_term = 2319640;
            cpu.linear_term = 0;
        },
        ContractCostType::Int256AddSub => {
            cpu.const_term = 735;
            cpu.linear_term = 0;
        },
        ContractCostType::Int256Mul => {
            cpu.const_term = 1224;
            cpu.linear_term = 0;
        },
        ContractCostType::Int256Div => {
            cpu.const_term = 1347;
            cpu.linear_term = 0;
        },
        ContractCostType::Int256Pow => {
            cpu.const_term = 5350;
            cpu.linear_term = 0;
        },
        ContractCostType::Int256Shift => {
            cpu.const_term = 538;
            cpu.linear_term = 0;
        },
    }
}

/// Sets the terms of a memory cost model to the defaults of a kind of work.
pub fn set_default_mem_model(ty: ContractCostType, mem: &mut ContractCostParamEntry)
    ensures
        *final(mem) == (ContractCostParamEntry {
            ext: old(mem).ext,
            ..default_mem_model(ty)
        }),
{
    match ty {
        // This type is designated to the cpu cost. By definition, the memory cost
        // of a (cpu) fuel is zero.
        ContractCostType::WasmInsnExec => {
            mem.const_term = 0;
            mem.linear_term = 0;
        },
        // Bytes per wasm "memory fuel". By definition this has to be a const = 1
        // because of the 1-to-1 equivalence of the Wasm mem fuel and a host byte.
        ContractCostType::WasmMemAlloc => {
            mem.const_term = 1;
            mem.linear_term = 0;
        },
        ContractCostType::HostMemAlloc => {
            mem.const_term = 8;
            mem.linear_term = 1;
        },
        ContractCostType::HostMemCpy => {
            mem.const_term = 0;
            mem.linear_term = 0;
        },
        ContractCostType::HostMemCmp => {
            mem.const_term = 0;
            mem.linear_term = 0;
        },
        ContractCostType::InvokeHostFunction => {
            mem.const_term = 0;
            mem.linear_term = 0;
        },
        ContractCostType::VisitObject => {
            mem.const_term = 0;
            mem.linear_term = 0;
        },
        ContractCostType::ValXdrConv => {
            mem.const_term = 0;
            mem.linear_term = 0;
        },
        ContractCostType::ValSer => {
            mem.const_term = 9;
            mem.linear_term = 3;
        },
        ContractCostType::ValDeser => {
            mem.const_term = 4;
            mem.linear_term = 1;
        },
        ContractCostType::ComputeSha256Hash => {
            mem.const_term = 40;
            mem.linear_term = 0;
        },
        ContractCostType::ComputeEd25519PubKey => {
            mem.const_term = 0;
            mem.linear_term = 0;
        },
        ContractCostType::MapEntry => {
            mem.const_term = 0;
            mem.linear_term = 0;
        },
        ContractCostType::VecEntry => {
            mem.const_term = 0;
            mem.linear_term = 0;
        },
        ContractCostType::GuardFrame => {
            mem.const_term = 472;
            mem.linear_term = 0;
        },
        ContractCostType::VerifyEd25519Sig => {
            mem.const_term = 0;
            mem.linear_term = 0;
        },
        ContractCostType::VmMemRead => {
            mem.const_term = 0;
            mem.linear_term = 0;
        },
        ContractCostType::VmMemWrite => {
            mem.const_term = 0;
            mem.linear_term = 0;
        },
        ContractCostType::VmInstantiation => {
            mem.const_term = 117871;
            mem.linear_term = 40;
        },
        ContractCostType::VmCachedInstantiation => {
            mem.const_term = 117871;
            mem.linear_term = 40;
        },
        ContractCostType::InvokeVmFunction => {
            mem.const_term = 486;
            mem.linear_term = 0;
        },
        ContractCostType::ChargeBudget => {
            mem.const_term = 0;
            mem.linear_term = 0;
        },
        ContractCostType::ComputeKeccak256Hash => {
            mem.const_term = 40;
            mem.linear_term = 0;
        },
        ContractCostType::ComputeEcdsaSecp256k1Key => {
            mem.const_term = 0;
            mem.linear_term = 0;
        },
        ContractCostType::ComputeEcdsaSecp256k1Sig => {
            mem.const_term = 0;
            mem.linear_term = 0;
        },
        ContractCostType::RecoverEcdsaSecp256k1Key => {
            mem.const_term = 181;
            mem.linear_term = 0;
        },
        ContractCostType::Int256AddSub => {
            mem.const_term = 119;
            mem.linear_term = 0;
        },
        ContractCostType::Int256Mul => {
            mem.const_term = 119;
            mem.linear_term = 0;
        },
        ContractCostType::Int256Div => {
            mem.const_term = 119;
            mem.linear_term = 0;
        },
        ContractCostType::Int256Pow => {
            mem.const_term = 119;
            mem.linear_term = 0;
        },
        ContractCostType::Int256Shift => {
            mem.const_term = 119;
            mem.linear_term = 0;
        },
    }
}

} // verus!
