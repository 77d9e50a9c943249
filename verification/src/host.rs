//! What the host hands to an operation, and what an operation hands back.
//!
//! The host supplies the clock, the caller and the funds sent along, and the
//! answers of the services it can ask. An operation returns instructions:
//! it transfers nothing itself.

use crate::state::{clone_text, text_of, TalisInfo};
use crate::taxation::TaxInfo;
use vstd::prelude::*;
use vstd::string::*;

verus! {

/// An amount of one currency.
#[derive(Debug, PartialEq, Eq)]
pub struct Coin {
    pub denom: String,
    pub amount: u128,
}

/// When the operation runs, in seconds, and the marketplace's own address.
#[derive(Debug, PartialEq, Eq)]
pub struct Env {
    pub time: u64,
    pub contract_address: String,
}

/// Who calls, and the funds sent along.
#[derive(Debug, PartialEq, Eq)]
pub struct MessageInfo {
    pub sender: String,
    pub funds: Vec<Coin>,
}

/// What the host's other services answer for this operation.
#[derive(Debug, PartialEq, Eq)]
pub struct Querier {
    /// The tax on transfers of the settlement currency.
    pub tax: TaxInfo,
    /// The minter that the asset's contract names, where it answers.
    pub minter: Option<String>,
    /// What the indexing service says of the asset, where it answers.
    pub minting_info: Option<TalisInfo>,
}

/// What the host is asked to do once an operation has succeeded.
#[derive(Debug, PartialEq, Eq)]
pub enum Instruction {
    /// Hand the asset `token_id` of `contract` to `recipient`.
    TransferNft { contract: String, recipient: String, token_id: String },
    /// Mint `amount` of the reward token `contract` to `recipient`.
    Mint { contract: String, recipient: String, amount: u128 },
    /// Burn `amount` of the reward token `contract`.
    Burn { contract: String, amount: u128 },
    /// Send `amount` of the currency `denom` to `to_address`.
    Send { to_address: String, amount: u128, denom: String },
    /// Deploy the reward token from the code `code_id`, with `minter` as the
    /// only one who may mint it, and report back under `reply_id`.
    InstantiateToken {
        code_id: u64,
        label: String,
        name: String,
        symbol: String,
        decimals: u8,
        minter: String,
        reply_id: u64,
    },
}

/// The view of an instruction.
pub enum InstructionView {
    TransferNft { contract: Seq<char>, recipient: Seq<char>, token_id: Seq<char> },
    Mint { contract: Seq<char>, recipient: Seq<char>, amount: u128 },
    Burn { contract: Seq<char>, amount: u128 },
    Send { to_address: Seq<char>, amount: u128, denom: Seq<char> },
    InstantiateToken {
        code_id: u64,
        label: Seq<char>,
        name: Seq<char>,
        symbol: Seq<char>,
        decimals: u8,
        minter: Seq<char>,
        reply_id: u64,
    },
}

impl View for Instruction {
    type V = InstructionView;

    open spec fn view(&self) -> InstructionView {
        match *self {
            Instruction::TransferNft { contract, recipient, token_id } => {
                InstructionView::TransferNft {
                    contract: contract@,
                    recipient: recipient@,
                    token_id: token_id@,
                }
            },
            Instruction::Mint { contract, recipient, amount } => InstructionView::Mint {
                contract: contract@,
                recipient: recipient@,
                amount,
            },
            Instruction::Burn { contract, amount } => InstructionView::Burn {
                contract: contract@,
                amount,
            },
            Instruction::Send { to_address, amount, denom } => InstructionView::Send {
                to_address: to_address@,
                amount,
                denom: denom@,
            },
            Instruction::InstantiateToken {
                code_id,
                label,
                name,
                symbol,
                decimals,
                minter,
                reply_id,
            } => {
                InstructionView::InstantiateToken {
                    code_id,
                    label: label@,
                    name: name@,
                    symbol: symbol@,
                    decimals,
                    minter: minter@,
                    reply_id,
                }
            },
        }
    }
}

/// A key and a value that an operation reports of itself.
#[derive(Debug, PartialEq, Eq)]
pub struct Attribute {
    pub key: String,
    pub value: String,
}

/// The view of an attribute.
pub struct AttributeView {
    pub key: Seq<char>,
    pub value: Seq<char>,
}

impl View for Attribute {
    type V = AttributeView;

    open spec fn view(&self) -> AttributeView {
        AttributeView { key: self.key@, value: self.value@ }
    }
}

/// The attribute with the given key and value.
pub open spec fn attr(key: Seq<char>, value: Seq<char>) -> AttributeView {
    AttributeView { key, value }
}

/// What a successful operation returns: instructions for the host, in the
/// order in which they are to be carried out, and attributes.
#[derive(Debug, PartialEq, Eq)]
pub struct Response {
    pub messages: Vec<Instruction>,
    pub attributes: Vec<Attribute>,
}

/// The view of a response.
pub struct ResponseView {
    pub messages: Seq<InstructionView>,
    pub attributes: Seq<AttributeView>,
}

impl View for Response {
    type V = ResponseView;

    open spec fn view(&self) -> ResponseView {
        ResponseView {
            messages: Seq::new(self.messages@.len(), |i: int| self.messages@[i]@),
            attributes: Seq::new(self.attributes@.len(), |i: int| self.attributes@[i]@),
        }
    }
}

impl Response {
    /// The response without instructions or attributes.
    pub fn new() -> (r: Response)
        ensures
            r@ == (ResponseView { messages: Seq::empty(), attributes: Seq::empty() }),
    {
        let r = Response { messages: Vec::new(), attributes: Vec::new() };
        assert(r@.messages =~= Seq::empty());
        assert(r@.attributes =~= Seq::empty());
        r
    }

    /// This response with one more instruction at the end.
    pub fn add_message(self, message: Instruction) -> (r: Response)
        ensures
            r@ == (ResponseView { messages: self@.messages.push(message@), ..self@ }),
    {
        let mut r = self;
        r.messages.push(message);
        assert(r@.messages =~= self@.messages.push(message@));
        r
    }

    /// This response with one more attribute at the end.
    pub fn add_attribute(self, key: &str, value: String) -> (r: Response)
        ensures
            r@ == (ResponseView { attributes: self@.attributes.push(attr(key@, value@)), ..self@ }),
    {
        let mut r = self;
        r.attributes.push(Attribute { key: String::from_str(key), value });
        assert(r@.attributes =~= self@.attributes.push(attr(key@, value@)));
        r
    }
}

/// An event of a call that the host made on the marketplace's behalf.
#[derive(Debug, PartialEq, Eq)]
pub struct Event {
    pub ty: String,
    pub attributes: Vec<Attribute>,
}

/// How a call that the host made on the marketplace's behalf ended: with the
/// events it emitted, or with an error.
#[derive(Debug, PartialEq, Eq)]
pub enum ContractResult {
    Success(Vec<Event>),
    Failure(String),
}

/// The host's report of such a call, under the number that the instruction
/// carried.
#[derive(Debug, PartialEq, Eq)]
pub struct Reply {
    pub id: u64,
    pub result: ContractResult,
}

/// The name that stands for a minter that the asset's contract does not name.
pub open spec fn unnamed_minter() -> Seq<char> {
    "talis"@
}

/// The name by which the indexing service says that it knows no minter.
pub open spec fn undefined_minter() -> Seq<char> {
    "undefined"@
}

/// Who minted an asset, from what its contract and the indexing service
/// answer. The contract's answer counts, unless it is missing or names the
/// placeholder: then the indexing service is asked, whose answer counts
/// unless it is missing or says that the minter is undefined.
pub open spec fn minter_of(direct: Option<Seq<char>>, indexed: Option<TalisInfo>) -> Option<
    Seq<char>,
> {
    if direct is Some && direct.unwrap() != unnamed_minter() {
        direct
    } else {
        match indexed {
            None => None,
            Some(info) => match info.minter {
                None => None,
                Some(m) => if m@ == undefined_minter() {
                    None
                } else {
                    Some(m@)
                },
            },
        }
    }
}

/// Whether `text` reads as `expected`.
pub fn is_text(text: &String, expected: &str) -> (r: bool)
    ensures
        r == (text@ == expected@),
{
    *text == String::from_str(expected)
}

/// Whether the indexing service has to be asked, given the answer of the
/// asset's contract.
pub fn needs_minting_info(direct: &Option<String>) -> (r: bool)
    ensures
        r == !(direct is Some && direct.unwrap()@ != unnamed_minter()),
{
    match direct {
        None => true,
        Some(m) => is_text(m, "talis"),
    }
}

impl Querier {
    /// Who minted the asset in question, if anyone is known.
    pub fn resolve_minter(&self) -> (r: Option<String>)
        ensures
            text_of(r) == minter_of(text_of(self.minter), self.minting_info),
    {
        if needs_minting_info(&self.minter) {
            match &self.minting_info {
                None => None,
                Some(info) => match &info.minter {
                    None => None,
                    Some(m) => if is_text(m, "undefined") {
                        None
                    } else {
                        Some(m.clone())
                    },
                },
            }
        } else {
            clone_text(&self.minter)
        }
    }
}

} // verus!
