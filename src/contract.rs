//! On-chain contract records: registration info, code indices, queries and
//! their responses.
use vstd::prelude::*;

pub mod messaging;

use vstd::string::{StrSliceExecFns, StringSliceAdditionalSpecFns};

verus! {

/// A 32-byte contract id.
pub type ContractId = [u8; 32];

/// The id of a built-in native contract.
pub type ContractId32 = u32;

pub const SYSTEM: ContractId32 = 0;
pub const DATA_PLAZA: ContractId32 = 1;
pub const BALANCES: ContractId32 = 2;
pub const ASSETS: ContractId32 = 3;
pub const WEB3_ANALYTICS: ContractId32 = 4;
pub const DIEM: ContractId32 = 5;
pub const SUBSTRATE_KITTIES: ContractId32 = 6;
pub const BTC_LOTTERY: ContractId32 = 7;
pub const GEOLOCATION: ContractId32 = 8;
pub const GUESS_NUMBER: ContractId32 = 100;
pub const BTC_PRICE_BOT: ContractId32 = 101;

/// Where a contract's code comes from.
#[derive(Clone, PartialEq, Eq, Debug)]
pub enum CodeIndex<CodeHash> {
    NativeCode(ContractId32),
    WasmCode(CodeHash),
}

/// On-chain contract registration info.
#[derive(Clone, PartialEq, Eq, Debug)]
pub struct ContractInfo<CodeHash, AccountId> {
    pub deployer: AccountId,
    pub code_index: CodeIndex<CodeHash>,
    pub salt: Vec<u8>,
    /// Contract cluster counter of the contract.
    pub cluster_id: u64,
    pub instantiate_data: Vec<u8>,
}

impl<CodeHash, AccountId> ContractInfo<CodeHash, AccountId> {
    /// The contract's id: for now every contract has the all-zero id.
    pub fn contract_id(&self) -> (r: ContractId)
        ensures
            forall|i: int| 0 <= i < 32 ==> r@[i] == 0u8,
    {
        [0u8; 32]
    }
}

/// Contract query response, to be encrypted.
#[derive(Debug)]
pub struct ContractQueryResponse<Data> {
    /// The nonce from the client.
    pub nonce: [u8; 32],
    /// The query result.
    pub result: Data,
}

/// Opaque query data, encoded as its raw bytes with no length prefix.
#[derive(Debug)]
pub struct Data(pub Vec<u8>);

impl Data {
    /// The size of the encoding.
    pub fn size_hint(&self) -> (r: usize)
        ensures
            r == self.0@.len(),
    {
        self.0.len()
    }

    /// Appends the encoding, the bytes themselves, to `dest`.
    pub fn encode_to(&self, dest: &mut Vec<u8>)
        ensures
            final(dest)@ == old(dest)@ + self.0@,
    {
        let mut i: usize = 0;
        while i < self.0.len()
            invariant
                i <= self.0@.len(),
                dest@ == old(dest)@ + self.0@.subrange(0, i as int),
            decreases self.0@.len() - i,
        {
            dest.push(self.0[i]);
            i = i + 1;
            assert(self.0@.subrange(0, i as int) =~= self.0@.subrange(0, i - 1 as int).push(
                self.0@[i - 1],
            ));
        }
        assert(self.0@.subrange(0, i as int) =~= self.0@);
    }
}

/// Contract query error.
#[derive(Debug)]
pub enum ContractQueryError {
    /// Signature is invalid.
    InvalidSignature,
    /// No such contract.
    ContractNotFound,
    /// Unable to decode the request data.
    DecodeError,
    /// Other errors reported during the contract query execution.
    OtherError(String),
}

/// The ASCII lowercase hex digit of a value below 16.
pub open spec fn hex_digit(n: u8) -> u8 {
    if n < 10 {
        (48 + n) as u8
    } else {
        (87 + n) as u8
    }
}

/// The ASCII bytes of `b` in lowercase hex: two digits for each byte, the
/// high half first.
pub open spec fn hex_ascii(b: Seq<u8>) -> Seq<u8>
    decreases b.len(),
{
    if b.len() == 0 {
        Seq::empty()
    } else {
        hex_ascii(b.drop_last()) + seq![hex_digit(b.last() / 16), hex_digit(b.last() % 16)]
    }
}

/// The message topic of commands to a contract:
/// `phala/contract/<hex of the id>/command`.
pub open spec fn command_topic_of(id: Seq<u8>) -> Seq<u8> {
    "phala/contract/".spec_bytes() + hex_ascii(id) + "/command".spec_bytes()
}

/// Relies on hex::encode: lowercase hex, two digits for each byte, the high
/// half first; the digits are ASCII, so the string's bytes are the digits.
#[verifier::external_body]
fn encode_hex(id: &ContractId) -> (r: Vec<u8>)
    ensures
        r@ == hex_ascii(id@),
{
    hex::encode(id).into_bytes()
}

/// The topic on which commands to contract `id` are sent.
pub fn command_topic(id: ContractId) -> (r: Vec<u8>)
    ensures
        r@ == command_topic_of(id@),
{
    let mut topic = "phala/contract/".as_bytes_vec();
    let mut digits = encode_hex(&id);
    topic.append(&mut digits);
    let mut suffix = "/command".as_bytes_vec();
    topic.append(&mut suffix);
    topic
}

} // verus!
