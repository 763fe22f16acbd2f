//! Messages about contracts exchanged between the chain and workers.
use vstd::prelude::*;

use super::ContractInfo;

verus! {

/// A worker's public identity key.
pub type WorkerPublicKey = [u8; 32];

/// A worker's public ECDH key.
pub type EcdhPublicKey = [u8; 32];

/// The id of a contract cluster.
pub type ContractClusterId = [u8; 32];

/// A worker, named by its two public keys.
#[derive(Clone, Copy, PartialEq, Eq, Debug)]
pub struct WorkerIdentity {
    pub pubkey: WorkerPublicKey,
    pub ecdh_pubkey: EcdhPublicKey,
}

/// An event about a contract.
#[derive(Debug)]
pub enum ContractEvent<CodeHash, AccountId> {
    InstantiateCode {
        contract_info: ContractInfo<CodeHash, AccountId>,
        deploy_workers: Vec<WorkerIdentity>,
    },
}

impl<CodeHash, AccountId> ContractEvent<CodeHash, AccountId> {
    /// The event that asks `deploy_workers` to instantiate the contract.
    pub fn instantiate_code(
        contract_info: ContractInfo<CodeHash, AccountId>,
        deploy_workers: Vec<WorkerIdentity>,
    ) -> (r: Self)
        ensures
            r == (ContractEvent::InstantiateCode { contract_info, deploy_workers }),
    {
        ContractEvent::InstantiateCode { contract_info, deploy_workers }
    }
}

/// An operation on contracts.
#[derive(Debug)]
pub enum ContractOperation<AccountId> {
    UploadCodeToCluster { origin: AccountId, code: Vec<u8>, cluster_id: ContractClusterId },
}

} // verus!
