//! The kinds of work that a budget is charged for.

use vstd::prelude::*;

verus! {

/// The number of kinds of work.
pub const COST_TYPE_COUNT: usize = 31;

/// A kind of work that the host or the wasm interpreter does on behalf of a
/// contract. Its position in the declaration is its index into every table that
/// has an entry per kind.
#[derive(Clone, Copy, Debug, PartialEq, Eq, PartialOrd, Ord, Hash, Structural)]
pub enum ContractCostType {
    /// The instructions of a wasm program, in units of the interpreter's fuel.
    WasmInsnExec,
    /// Growth of the linear memory of a wasm program, in units of memory fuel.
    WasmMemAlloc,
    /// Allocation of host memory.
    HostMemAlloc,
    /// Copying of host memory.
    HostMemCpy,
    /// Comparison of host memory.
    HostMemCmp,
    /// Entering a host function from a wasm program.
    InvokeHostFunction,
    /// Visiting an object of the host.
    VisitObject,
    /// Conversion of a value to or from its wire form, apart from its bytes.
    ValXdrConv,
    /// Serialization of a value.
    ValSer,
    /// Deserialization of a value.
    ValDeser,
    /// Computing a sha256 hash.
    ComputeSha256Hash,
    /// Computing an ed25519 public key.
    ComputeEd25519PubKey,
    /// Access to one entry of a map.
    MapEntry,
    /// Access to one entry of a vector.
    VecEntry,
    /// Opening a frame of the host's call stack.
    GuardFrame,
    /// Verification of an ed25519 signature.
    VerifyEd25519Sig,
    /// Reading from the linear memory of a wasm program.
    VmMemRead,
    /// Writing to the linear memory of a wasm program.
    VmMemWrite,
    /// Instantiation of a wasm program from its bytes.
    VmInstantiation,
    /// Instantiation of a wasm program that is cached.
    VmCachedInstantiation,
    /// Calling a function of a wasm program.
    InvokeVmFunction,
    /// Charging the budget itself.
    ChargeBudget,
    /// Computing a keccak256 hash.
    ComputeKeccak256Hash,
    /// Computing an ecdsa secp256k1 public key.
    ComputeEcdsaSecp256k1Key,
    /// Computing an ecdsa secp256k1 signature.
    ComputeEcdsaSecp256k1Sig,
    /// Recovering an ecdsa secp256k1 public key from a signature.
    RecoverEcdsaSecp256k1Key,
    /// Addition or subtraction of 256-bit integers.
    Int256AddSub,
    /// Multiplication of 256-bit integers.
    Int256Mul,
    /// Division of 256-bit integers.
    Int256Div,
    /// Exponentiation of a 256-bit integer.
    Int256Pow,
    /// Shifting of a 256-bit integer.
    Int256Shift,
}

impl ContractCostType {
    /// The position of the kind in the declaration.
    pub open spec fn position(self) -> int {
        match self {
            ContractCostType::WasmInsnExec => 0,
            ContractCostType::WasmMemAlloc => 1,
            ContractCostType::HostMemAlloc => 2,
            ContractCostType::HostMemCpy => 3,
            ContractCostType::HostMemCmp => 4,
            ContractCostType::InvokeHostFunction => 5,
            ContractCostType::VisitObject => 6,
            ContractCostType::ValXdrConv => 7,
            ContractCostType::ValSer => 8,
            ContractCostType::ValDeser => 9,
            ContractCostType::ComputeSha256Hash => 10,
            ContractCostType::ComputeEd25519PubKey => 11,
            ContractCostType::MapEntry => 12,
            ContractCostType::VecEntry => 13,
            ContractCostType::GuardFrame => 14,
            ContractCostType::VerifyEd25519Sig => 15,
            ContractCostType::VmMemRead => 16,
            ContractCostType::VmMemWrite => 17,
            ContractCostType::VmInstantiation => 18,
            ContractCostType::VmCachedInstantiation => 19,
            ContractCostType::InvokeVmFunction => 20,
            ContractCostType::ChargeBudget => 21,
            ContractCostType::ComputeKeccak256Hash => 22,
            ContractCostType::ComputeEcdsaSecp256k1Key => 23,
            ContractCostType::ComputeEcdsaSecp256k1Sig => 24,
            ContractCostType::RecoverEcdsaSecp256k1Key => 25,
            ContractCostType::Int256AddSub => 26,
            ContractCostType::Int256Mul => 27,
            ContractCostType::Int256Div => 28,
            ContractCostType::Int256Pow => 29,
            ContractCostType::Int256Shift => 30,
        }
    }

    /// All kinds in the order of their positions.
    pub open spec fn all() -> Seq<ContractCostType> {
        seq![
            ContractCostType::WasmInsnExec,
            ContractCostType::WasmMemAlloc,
            ContractCostType::HostMemAlloc,
            ContractCostType::HostMemCpy,
            ContractCostType::HostMemCmp,
            ContractCostType::InvokeHostFunction,
            ContractCostType::VisitObject,
            ContractCostType::ValXdrConv,
            ContractCostType::ValSer,
            ContractCostType::ValDeser,
            ContractCostType::ComputeSha256Hash,
            ContractCostType::ComputeEd25519PubKey,
            ContractCostType::MapEntry,
            ContractCostType::VecEntry,
            ContractCostType::GuardFrame,
            ContractCostType::VerifyEd25519Sig,
            ContractCostType::VmMemRead,
            ContractCostType::VmMemWrite,
            ContractCostType::VmInstantiation,
            ContractCostType::VmCachedInstantiation,
            ContractCostType::InvokeVmFunction,
            ContractCostType::ChargeBudget,
            ContractCostType::ComputeKeccak256Hash,
            ContractCostType::ComputeEcdsaSecp256k1Key,
            ContractCostType::ComputeEcdsaSecp256k1Sig,
            ContractCostType::RecoverEcdsaSecp256k1Key,
            ContractCostType::Int256AddSub,
            ContractCostType::Int256Mul,
            ContractCostType::Int256Div,
            ContractCostType::Int256Pow,
            ContractCostType::Int256Shift,
        ]
    }

    /// Whether work of this kind has a size. The cost of work without a size is
    /// the same every time.
    pub open spec fn takes_input(self) -> bool {
        match self {
            // number of bytes in host memory to allocate
            ContractCostType::HostMemAlloc => true,
            // number of bytes in host to copy
            ContractCostType::HostMemCpy => true,
            // number of bytes in host to compare
            ContractCostType::HostMemCmp => true,
            // number of bytes in the result buffer
            ContractCostType::ValSer => true,
            // number of bytes in the buffer
            ContractCostType::ValDeser => true,
            // number of bytes in the buffer
            ContractCostType::ComputeSha256Hash => true,
            // length of the signed message
            ContractCostType::VerifyEd25519Sig => true,
            // number of bytes in the linear memory to read
            ContractCostType::VmMemRead => true,
            // number of bytes in the linear memory to write
            ContractCostType::VmMemWrite => true,
            // length of the wasm bytes
            ContractCostType::VmInstantiation => true,
            // length of the wasm bytes
            ContractCostType::VmCachedInstantiation => true,
            // number of bytes in the buffer
            ContractCostType::ComputeKeccak256Hash => true,
            _ => false,
        }
    }

    /// The kind's own name.
    pub open spec fn text(self) -> Seq<char> {
        match self {
            ContractCostType::WasmInsnExec => "WasmInsnExec"@,
            ContractCostType::WasmMemAlloc => "WasmMemAlloc"@,
            ContractCostType::HostMemAlloc => "HostMemAlloc"@,
            ContractCostType::HostMemCpy => "HostMemCpy"@,
            ContractCostType::HostMemCmp => "HostMemCmp"@,
            ContractCostType::InvokeHostFunction => "InvokeHostFunction"@,
            ContractCostType::VisitObject => "VisitObject"@,
            ContractCostType::ValXdrConv => "ValXdrConv"@,
            ContractCostType::ValSer => "ValSer"@,
            ContractCostType::ValDeser => "ValDeser"@,
            ContractCostType::ComputeSha256Hash => "ComputeSha256Hash"@,
            ContractCostType::ComputeEd25519PubKey => "ComputeEd25519PubKey"@,
            ContractCostType::MapEntry => "MapEntry"@,
            ContractCostType::VecEntry => "VecEntry"@,
            ContractCostType::GuardFrame => "GuardFrame"@,
            ContractCostType::VerifyEd25519Sig => "VerifyEd25519Sig"@,
            ContractCostType::VmMemRead => "VmMemRead"@,
            ContractCostType::VmMemWrite => "VmMemWrite"@,
            ContractCostType::VmInstantiation => "VmInstantiation"@,
            ContractCostType::VmCachedInstantiation => "VmCachedInstantiation"@,
            ContractCostType::InvokeVmFunction => "InvokeVmFunction"@,
            ContractCostType::ChargeBudget => "ChargeBudget"@,
            ContractCostType::ComputeKeccak256Hash => "ComputeKeccak256Hash"@,
            ContractCostType::ComputeEcdsaSecp256k1Key => "ComputeEcdsaSecp256k1Key"@,
            ContractCostType::ComputeEcdsaSecp256k1Sig => "ComputeEcdsaSecp256k1Sig"@,
            ContractCostType::RecoverEcdsaSecp256k1Key => "RecoverEcdsaSecp256k1Key"@,
            ContractCostType::Int256AddSub => "Int256AddSub"@,
            ContractCostType::Int256Mul => "Int256Mul"@,
            ContractCostType::Int256Div => "Int256Div"@,
            ContractCostType::Int256Pow => "Int256Pow"@,
            ContractCostType::Int256Shift => "Int256Shift"@,
        }
    }

    /// The index of the kind into a table with an entry per kind.
    pub fn index(self) -> (i: usize)
        ensures
            i == self.position(),
            i < COST_TYPE_COUNT,
    {
        match self {
            ContractCostType::WasmInsnExec => 0,
            ContractCostType::WasmMemAlloc => 1,
            ContractCostType::HostMemAlloc => 2,
            ContractCostType::HostMemCpy => 3,
            ContractCostType::HostMemCmp => 4,
            ContractCostType::InvokeHostFunction => 5,
            ContractCostType::VisitObject => 6,
            ContractCostType::ValXdrConv => 7,
            ContractCostType::ValSer => 8,
            ContractCostType::ValDeser => 9,
            ContractCostType::ComputeSha256Hash => 10,
            ContractCostType::ComputeEd25519PubKey => 11,
            ContractCostType::MapEntry => 12,
            ContractCostType::VecEntry => 13,
            ContractCostType::GuardFrame => 14,
            ContractCostType::VerifyEd25519Sig => 15,
            ContractCostType::VmMemRead => 16,
            ContractCostType::VmMemWrite => 17,
            ContractCostType::VmInstantiation => 18,
            ContractCostType::VmCachedInstantiation => 19,
            ContractCostType::InvokeVmFunction => 20,
            ContractCostType::ChargeBudget => 21,
            ContractCostType::ComputeKeccak256Hash => 22,
            ContractCostType::ComputeEcdsaSecp256k1Key => 23,
            ContractCostType::ComputeEcdsaSecp256k1Sig => 24,
            ContractCostType::RecoverEcdsaSecp256k1Key => 25,
            ContractCostType::Int256AddSub => 26,
            ContractCostType::Int256Mul => 27,
            ContractCostType::Int256Div => 28,
            ContractCostType::Int256Pow => 29,
            ContractCostType::Int256Shift => 30,
        }
    }

    /// All kinds, each at its own index.
    pub fn variants() -> (all: [ContractCostType; 31])
        ensures
            all@ == Self::all(),
            forall|i: int|
                0 <= i < COST_TYPE_COUNT ==> (#[trigger] all@[i]).position() == i,
            forall|ty: ContractCostType| all@[#[trigger] ty.position()] == ty,
    {
        let all: [ContractCostType; 31] = [
            ContractCostType::WasmInsnExec,
            ContractCostType::WasmMemAlloc,
            ContractCostType::HostMemAlloc,
            ContractCostType::HostMemCpy,
            ContractCostType::HostMemCmp,
            ContractCostType::InvokeHostFunction,
            ContractCostType::VisitObject,
            ContractCostType::ValXdrConv,
            ContractCostType::ValSer,
            ContractCostType::ValDeser,
            ContractCostType::ComputeSha256Hash,
            ContractCostType::ComputeEd25519PubKey,
            ContractCostType::MapEntry,
            ContractCostType::VecEntry,
            ContractCostType::GuardFrame,
            ContractCostType::VerifyEd25519Sig,
            ContractCostType::VmMemRead,
            ContractCostType::VmMemWrite,
            ContractCostType::VmInstantiation,
            ContractCostType::VmCachedInstantiation,
            ContractCostType::InvokeVmFunction,
            ContractCostType::ChargeBudget,
            ContractCostType::ComputeKeccak256Hash,
            ContractCostType::ComputeEcdsaSecp256k1Key,
            ContractCostType::ComputeEcdsaSecp256k1Sig,
            ContractCostType::RecoverEcdsaSecp256k1Key,
            ContractCostType::Int256AddSub,
            ContractCostType::Int256Mul,
            ContractCostType::Int256Div,
            ContractCostType::Int256Pow,
            ContractCostType::Int256Shift,
        ];
        proof {
            assert(all@ =~= Self::all());
        }
        all
    }

    /// Whether work of this kind has a size. For any constant-cost kind -- whether it has a
    /// true constant unit cost, or one assigned empirically (via measurement) -- there is no
    /// input.
    pub fn has_input(self) -> (has_input: bool)
        ensures
            has_input == self.takes_input(),
    {
        match self {
            ContractCostType::WasmInsnExec => false,
            ContractCostType::WasmMemAlloc => false,
            ContractCostType::HostMemAlloc => true, // number of bytes in host memory to allocate
            ContractCostType::HostMemCpy => true, // number of bytes in host to copy
            ContractCostType::HostMemCmp => true, // number of bytes in host to compare
            ContractCostType::InvokeHostFunction => false,
            ContractCostType::VisitObject => false,
            ContractCostType::ValXdrConv => false,
            ContractCostType::ValSer => true, // number of bytes in the result buffer
            ContractCostType::ValDeser => true, // number of bytes in the buffer
            ContractCostType::ComputeSha256Hash => true, // number of bytes in the buffer
            ContractCostType::ComputeEd25519PubKey => false,
            ContractCostType::MapEntry => false,
            ContractCostType::VecEntry => false,
            ContractCostType::GuardFrame => false,
            ContractCostType::VerifyEd25519Sig => true, // length of the signed message
            ContractCostType::VmMemRead => true, // number of bytes in the linear memory to read
            ContractCostType::VmMemWrite => true, // number of bytes in the linear memory to write
            ContractCostType::VmInstantiation => true, // length of the wasm bytes
            ContractCostType::VmCachedInstantiation => true, // length of the wasm bytes
            ContractCostType::InvokeVmFunction => false,
            ContractCostType::ChargeBudget => false,
            ContractCostType::ComputeKeccak256Hash => true, // number of bytes in the buffer
            ContractCostType::ComputeEcdsaSecp256k1Key => false,
            ContractCostType::ComputeEcdsaSecp256k1Sig => false,
            ContractCostType::RecoverEcdsaSecp256k1Key => false,
            ContractCostType::Int256AddSub => false,
            ContractCostType::Int256Mul => false,
            ContractCostType::Int256Div => false,
            ContractCostType::Int256Pow => false,
            ContractCostType::Int256Shift => false,
        }
    }

    /// The name of the kind.
    pub fn name(self) -> (name: &'static str)
        ensures
            name@ == self.text(),
    {
        match self {
            ContractCostType::WasmInsnExec => "WasmInsnExec",
            ContractCostType::WasmMemAlloc => "WasmMemAlloc",
            ContractCostType::HostMemAlloc => "HostMemAlloc",
            ContractCostType::HostMemCpy => "HostMemCpy",
            ContractCostType::HostMemCmp => "HostMemCmp",
            ContractCostType::InvokeHostFunction => "InvokeHostFunction",
            ContractCostType::VisitObject => "VisitObject",
            ContractCostType::ValXdrConv => "ValXdrConv",
            ContractCostType::ValSer => "ValSer",
            ContractCostType::ValDeser => "ValDeser",
            ContractCostType::ComputeSha256Hash => "ComputeSha256Hash",
            ContractCostType::ComputeEd25519PubKey => "ComputeEd25519PubKey",
            ContractCostType::MapEntry => "MapEntry",
            ContractCostType::VecEntry => "VecEntry",
            ContractCostType::GuardFrame => "GuardFrame",
            ContractCostType::VerifyEd25519Sig => "VerifyEd25519Sig",
            ContractCostType::VmMemRead => "VmMemRead",
            ContractCostType::VmMemWrite => "VmMemWrite",
            ContractCostType::VmInstantiation => "VmInstantiation",
            ContractCostType::VmCachedInstantiation => "VmCachedInstantiation",
            ContractCostType::InvokeVmFunction => "InvokeVmFunction",
            ContractCostType::ChargeBudget => "ChargeBudget",
            ContractCostType::ComputeKeccak256Hash => "ComputeKeccak256Hash",
            ContractCostType::ComputeEcdsaSecp256k1Key => "ComputeEcdsaSecp256k1Key",
            ContractCostType::ComputeEcdsaSecp256k1Sig => "ComputeEcdsaSecp256k1Sig",
            ContractCostType::RecoverEcdsaSecp256k1Key => "RecoverEcdsaSecp256k1Key",
            ContractCostType::Int256AddSub => "Int256AddSub",
            ContractCostType::Int256Mul => "Int256Mul",
            ContractCostType::Int256Div => "Int256Div",
            ContractCostType::Int256Pow => "Int256Pow",
            ContractCostType::Int256Shift => "Int256Shift",
        }
    }
}

/// The positions of two kinds are indices, and differ where the kinds do.
pub proof fn lemma_positions(a: ContractCostType, b: ContractCostType)
    ensures
        0 <= a.position() < COST_TYPE_COUNT,
        0 <= b.position() < COST_TYPE_COUNT,
        a.position() == b.position() ==> a == b,
{
}

/// Every kind has a position of its own among the first thirty-one numbers, and
/// every one of these is the position of a kind.
pub proof fn law_positions_number_the_kinds()
    ensures
        ContractCostType::all().len() == COST_TYPE_COUNT,
        forall|ty: ContractCostType|
            0 <= #[trigger] ty.position() < COST_TYPE_COUNT
                && ContractCostType::all()[ty.position()] == ty,
        forall|i: int|
            0 <= i < COST_TYPE_COUNT ==> (#[trigger] ContractCostType::all()[i]).position() == i,
        forall|a: ContractCostType, b: ContractCostType|
            #[trigger] a.position() == #[trigger] b.position() ==> a == b,
{
}

/// The kinds by their positions, with the names that reports give them.
pub proof fn law_kinds_in_order()
    ensures
        ContractCostType::WasmInsnExec.position() == 0,
        ContractCostType::WasmInsnExec.text() == "WasmInsnExec"@,
        ContractCostType::WasmMemAlloc.position() == 1,
        ContractCostType::WasmMemAlloc.text() == "WasmMemAlloc"@,
        ContractCostType::HostMemAlloc.position() == 2,
        ContractCostType::HostMemAlloc.text() == "HostMemAlloc"@,
        ContractCostType::HostMemCpy.position() == 3,
        ContractCostType::HostMemCpy.text() == "HostMemCpy"@,
        ContractCostType::HostMemCmp.position() == 4,
        ContractCostType::HostMemCmp.text() == "HostMemCmp"@,
        ContractCostType::InvokeHostFunction.position() == 5,
        ContractCostType::InvokeHostFunction.text() == "InvokeHostFunction"@,
        ContractCostType::VisitObject.position() == 6,
        ContractCostType::VisitObject.text() == "VisitObject"@,
        ContractCostType::ValXdrConv.position() == 7,
        ContractCostType::ValXdrConv.text() == "ValXdrConv"@,
        ContractCostType::ValSer.position() == 8,
        ContractCostType::ValSer.text() == "ValSer"@,
        ContractCostType::ValDeser.position() == 9,
        ContractCostType::ValDeser.text() == "ValDeser"@,
        ContractCostType::ComputeSha256Hash.position() == 10,
        ContractCostType::ComputeSha256Hash.text() == "ComputeSha256Hash"@,
        ContractCostType::ComputeEd25519PubKey.position() == 11,
        ContractCostType::ComputeEd25519PubKey.text() == "ComputeEd25519PubKey"@,
        ContractCostType::MapEntry.position() == 12,
        ContractCostType::MapEntry.text() == "MapEntry"@,
        ContractCostType::VecEntry.position() == 13,
        ContractCostType::VecEntry.text() == "VecEntry"@,
        ContractCostType::GuardFrame.position() == 14,
        ContractCostType::GuardFrame.text() == "GuardFrame"@,
        ContractCostType::VerifyEd25519Sig.position() == 15,
        ContractCostType::VerifyEd25519Sig.text() == "VerifyEd25519Sig"@,
        ContractCostType::VmMemRead.position() == 16,
        ContractCostType::VmMemRead.text() == "VmMemRead"@,
        ContractCostType::VmMemWrite.position() == 17,
        ContractCostType::VmMemWrite.text() == "VmMemWrite"@,
        ContractCostType::VmInstantiation.position() == 18,
        ContractCostType::VmInstantiation.text() == "VmInstantiation"@,
        ContractCostType::VmCachedInstantiation.position() == 19,
        ContractCostType::VmCachedInstantiation.text() == "VmCachedInstantiation"@,
        ContractCostType::InvokeVmFunction.position() == 20,
        ContractCostType::InvokeVmFunction.text() == "InvokeVmFunction"@,
        ContractCostType::ChargeBudget.position() == 21,
        ContractCostType::ChargeBudget.text() == "ChargeBudget"@,
        ContractCostType::ComputeKeccak256Hash.position() == 22,
        ContractCostType::ComputeKeccak256Hash.text() == "ComputeKeccak256Hash"@,
        ContractCostType::ComputeEcdsaSecp256k1Key.position() == 23,
        ContractCostType::ComputeEcdsaSecp256k1Key.text() == "ComputeEcdsaSecp256k1Key"@,
        ContractCostType::ComputeEcdsaSecp256k1Sig.position() == 24,
        ContractCostType::ComputeEcdsaSecp256k1Sig.text() == "ComputeEcdsaSecp256k1Sig"@,
        ContractCostType::RecoverEcdsaSecp256k1Key.position() == 25,
        ContractCostType::RecoverEcdsaSecp256k1Key.text() == "RecoverEcdsaSecp256k1Key"@,
        ContractCostType::Int256AddSub.position() == 26,
        ContractCostType::Int256AddSub.text() == "Int256AddSub"@,
        ContractCostType::Int256Mul.position() == 27,
        ContractCostType::Int256Mul.text() == "Int256Mul"@,
        ContractCostType::Int256Div.position() == 28,
        ContractCostType::Int256Div.text() == "Int256Div"@,
        ContractCostType::Int256Pow.position() == 29,
        ContractCostType::Int256Pow.text() == "Int256Pow"@,
        ContractCostType::Int256Shift.position() == 30,
        ContractCostType::Int256Shift.text() == "Int256Shift"@,
{
}

} // verus!
