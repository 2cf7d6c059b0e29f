//! The contracts that test environments deploy, as requests that a deployer
//! carries out: which contract, and with which constructor arguments.

use crate::primitives::{address_from_word, Address};
use vstd::prelude::*;

verus! {

/// One argument of a contract's constructor.
#[derive(Clone, Debug)]
pub enum ConstructorArg {
    /// A string.
    Text(String),
    /// An unsigned integer of the given width in bits, as 32 big-endian bytes.
    Uint { value: [u8; 32], bits: usize },
    /// An account address.
    Address(Address),
}

pub ghost enum ConstructorArgView {
    Text(Seq<char>),
    Uint { value: Seq<u8>, bits: usize },
    Address(Seq<u8>),
}

impl View for ConstructorArg {
    type V = ConstructorArgView;

    open spec fn view(&self) -> ConstructorArgView {
        match self {
            ConstructorArg::Text(s) => ConstructorArgView::Text(s@),
            ConstructorArg::Uint { value, bits } => ConstructorArgView::Uint {
                value: value@,
                bits: *bits,
            },
            ConstructorArg::Address(a) => ConstructorArgView::Address(a@),
        }
    }
}

/// A request to deploy a contract.
#[derive(Clone, Debug)]
pub struct ContractDeployment {
    /// The name of the compiled contract, or none for an empty contract.
    pub name: Option<String>,
    pub constructor_args: Vec<ConstructorArg>,
}

pub ghost struct ContractDeploymentView {
    pub name: Option<Seq<char>>,
    pub constructor_args: Seq<ConstructorArgView>,
}

impl View for ContractDeployment {
    type V = ContractDeploymentView;

    open spec fn view(&self) -> ContractDeploymentView {
        ContractDeploymentView {
            name: match self.name {
                Some(name) => Some(name@),
                None => None,
            },
            constructor_args: self.constructor_args@.map_values(|a: ConstructorArg| a@),
        }
    }
}

/// The 32 big-endian bytes of a number below 256.
pub open spec fn small_uint(n: u8) -> Seq<u8> {
    Seq::new(32, |i: int| if i == 31 { n } else { 0u8 })
}

/// The counter contract, which takes no constructor arguments.
pub fn counter() -> (deployment: ContractDeployment)
    ensures
        deployment@ == (ContractDeploymentView {
            name: Some("Counter"@),
            constructor_args: Seq::empty(),
        }),
{
    let deployment = ContractDeployment {
        name: Some("Counter".to_owned()),
        constructor_args: Vec::new(),
    };
    assert(deployment@.constructor_args =~= Seq::empty());
    deployment
}

/// An empty contract.
pub fn contract_empty() -> (deployment: ContractDeployment)
    ensures
        deployment@ == (ContractDeploymentView { name: None, constructor_args: Seq::empty() }),
{
    let deployment = ContractDeployment { name: None, constructor_args: Vec::new() };
    assert(deployment@.constructor_args =~= Seq::empty());
    deployment
}

/// The ERC20 contract, constructed with the name "Test", the symbol "TT" and 18
/// decimals (an 8-bit integer).
pub fn erc20() -> (deployment: ContractDeployment)
    ensures
        deployment@ == (ContractDeploymentView {
            name: Some("ERC20"@),
            constructor_args: seq![
                ConstructorArgView::Text("Test"@),
                ConstructorArgView::Text("TT"@),
                ConstructorArgView::Uint { value: small_uint(18), bits: 8 },
            ],
        }),
{
    let mut decimals = [0u8; 32];
    decimals[31] = 18;
    assert(decimals@ =~= small_uint(18));
    let mut constructor_args: Vec<ConstructorArg> = Vec::new();
    constructor_args.push(ConstructorArg::Text("Test".to_owned()));
    constructor_args.push(ConstructorArg::Text("TT".to_owned()));
    constructor_args.push(ConstructorArg::Uint { value: decimals, bits: 8 });
    let deployment = ContractDeployment { name: Some("ERC20".to_owned()), constructor_args };
    assert(deployment@.constructor_args =~= seq![
        ConstructorArgView::Text("Test"@),
        ConstructorArgView::Text("TT"@),
        ConstructorArgView::Uint { value: small_uint(18), bits: 8 },
    ]);
    deployment
}

/// The plain-opcodes contract, constructed with the address of a deployed
/// counter: the last 20 bytes of the counter's address on the execution layer,
/// given as 32 big-endian bytes.
pub fn plain_opcodes(counter_evm_address: &[u8; 32]) -> (deployment: ContractDeployment)
    ensures
        deployment@ == (ContractDeploymentView {
            name: Some("PlainOpcodes"@),
            constructor_args: seq![
                ConstructorArgView::Address(counter_evm_address@.subrange(12, 32)),
            ],
        }),
{
    let counter_address = address_from_word(counter_evm_address);
    let mut constructor_args: Vec<ConstructorArg> = Vec::new();
    constructor_args.push(ConstructorArg::Address(counter_address));
    let deployment = ContractDeployment {
        name: Some("PlainOpcodes".to_owned()),
        constructor_args,
    };
    assert(deployment@.constructor_args =~= seq![
        ConstructorArgView::Address(counter_evm_address@.subrange(12, 32)),
    ]);
    deployment
}

} // verus!
