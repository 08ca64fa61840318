//! Genesis construction: seeding a fresh world state with the system
//! contracts and any caller-supplied extra contracts or accounts.
//!
//! The hard invariant here: no contract code is ever written without its
//! hash also being registered as a factory dependency.

use vstd::prelude::*;

use crate::constants::{account_code_storage_bytes, contract_deployer_bytes};
use crate::hash::{bytecode_hash_of, hash_bytecode};
use crate::storage::{
    code_key_of, get_code_key, get_is_account_key, is_account_key_of, ContractToDeploy,
    DeployedContract, WorldState,
};
use crate::types::{copy_bytes, u256_bytes_of_u64, zeros, H256, U256};

verus! {

/// What the genesis builder reads of a contract to install: its bytecode
/// and address as byte sequences, and the account marker.
pub struct ContractModel {
    pub bytecode: Seq<u8>,
    pub address: Seq<u8>,
    pub is_account: bool,
}

pub open spec fn contract_model(c: ContractToDeploy) -> ContractModel {
    ContractModel { bytecode: c.bytecode@, address: c.address@, is_account: c.is_account }
}

/// A pre-installed system contract is never an account.
pub open spec fn deployed_model(c: DeployedContract) -> ContractModel {
    ContractModel { bytecode: c.bytecode@, address: c.account_id@, is_account: false }
}

/// Installing one contract: its code hash lands in its code slot, the
/// account marker is set where asked, and the bytecode is registered under
/// its hash.
pub open spec fn apply_contract(
    m: Map<(Seq<u8>, Seq<u8>), Seq<u8>>,
    d: Map<Seq<u8>, Seq<u8>>,
    c: ContractModel,
) -> (Map<(Seq<u8>, Seq<u8>), Seq<u8>>, Map<Seq<u8>, Seq<u8>>) {
    let h = bytecode_hash_of(c.bytecode);
    let m1 = m.insert(code_key_of(c.address), h);
    let m2 = if c.is_account {
        m1.insert(is_account_key_of(c.address), u256_bytes_of_u64(1))
    } else {
        m1
    };
    (m2, d.insert(h, c.bytecode))
}

/// Installing a list of contracts, first to last.
pub open spec fn apply_contracts(
    m: Map<(Seq<u8>, Seq<u8>), Seq<u8>>,
    d: Map<Seq<u8>, Seq<u8>>,
    cs: Seq<ContractModel>,
) -> (Map<(Seq<u8>, Seq<u8>), Seq<u8>>, Map<Seq<u8>, Seq<u8>>)
    decreases cs.len(),
{
    if cs.len() == 0 {
        (m, d)
    } else {
        let next = apply_contract(m, d, cs[0]);
        apply_contracts(next.0, next.1, cs.skip(1))
    }
}

/// Writes the given contracts into the world state, bypassing the deployer
/// system contract: each contract's code hash lands in its code slot, each
/// address asked for is marked as an account, and every bytecode is
/// registered as a factory dependency — never the hash without the
/// bytecode.
pub fn insert_contracts(raw_storage: &mut WorldState, contracts: &Vec<ContractToDeploy>)
    requires
        old(raw_storage).wf(),
        forall|i: int| 0 <= i < contracts@.len() ==> (#[trigger] contracts@[i]).wf(),
    ensures
        ({
            let applied = apply_contracts(
                old(raw_storage).slots_map(),
                old(raw_storage).deps_map(),
                contracts@.map_values(|c: ContractToDeploy| contract_model(c)),
            );
            final(raw_storage).slots_map() == applied.0 && final(raw_storage).deps_map()
                == applied.1
        }),
        final(raw_storage).chain_id == old(raw_storage).chain_id,
        final(raw_storage).wf(),
        old(raw_storage).no_dangling_code_hash() ==> final(raw_storage).no_dangling_code_hash(),
        old(raw_storage).deps_keyed_by_hash() ==> final(raw_storage).deps_keyed_by_hash(),
{
    let ghost models = contracts@.map_values(|c: ContractToDeploy| contract_model(c));
    let ghost target = apply_contracts(
        old(raw_storage).slots_map(),
        old(raw_storage).deps_map(),
        models,
    );
    proof {
        assert(models.skip(0) =~= models);
    }
    let mut idx: usize = 0;
    while idx < contracts.len()
        invariant
            idx <= contracts@.len(),
            models == contracts@.map_values(|c: ContractToDeploy| contract_model(c)),
            forall|i: int| 0 <= i < contracts@.len() ==> (#[trigger] contracts@[i]).wf(),
            apply_contracts(raw_storage.slots_map(), raw_storage.deps_map(), models.skip(idx as int))
                == target,
            raw_storage.chain_id == old(raw_storage).chain_id,
            raw_storage.wf(),
            old(raw_storage).no_dangling_code_hash() ==> raw_storage.no_dangling_code_hash(),
            old(raw_storage).deps_keyed_by_hash() ==> raw_storage.deps_keyed_by_hash(),
        decreases contracts@.len() - idx,
    {
        let ghost m0 = raw_storage.slots_map();
        let ghost d0 = raw_storage.deps_map();
        let contract = &contracts[idx];
        let code_key = get_code_key(&contract.address);
        let hash = match hash_bytecode(&contract.bytecode) {
            Ok(h) => h,
            Err(_) => {
                proof {
                    assert(contracts@[idx as int].wf());
                }
                vstd::pervasive::unreached()
            },
        };
        let hash_for_dep = hash.dup();
        raw_storage.set_value(code_key, hash);
        if contract.is_account {
            let one = U256::from_u64(1);
            raw_storage.set_value(get_is_account_key(&contract.address), H256 { bytes: one.bytes });
        }
        raw_storage.store_factory_dep(hash_for_dep, copy_bytes(&contract.bytecode));
        proof {
            let c = models[idx as int];
            let applied = apply_contract(m0, d0, c);
            assert(raw_storage.slots_map() == applied.0);
            assert(raw_storage.deps_map() == applied.1);
            assert(models.skip(idx as int)[0] == c);
            assert(models.skip(idx as int).skip(1) =~= models.skip(idx as int + 1));
            assert(apply_contracts(m0, d0, models.skip(idx as int)) == apply_contracts(
                applied.0,
                applied.1,
                models.skip(idx as int + 1),
            ));
            // The account marker lives in the deployer's storage, not the
            // code-storage account, so it cannot dangle.
            assert(contract_deployer_bytes() != account_code_storage_bytes()) by {
                assert(contract_deployer_bytes()[19] == 0x06u8);
                assert(account_code_storage_bytes()[19] == 0x02u8);
            }
            if old(raw_storage).deps_keyed_by_hash() {
                // The one new dependency entry is keyed by its bytecode's
                // own hash.
                assert forall|h: Seq<u8>|
                    #[trigger] raw_storage.deps_map().contains_key(h) implies bytecode_hash_of(
                    raw_storage.deps_map()[h],
                ) == h by {
                    if h != bytecode_hash_of(c.bytecode) {
                        assert(d0.contains_key(h) && d0[h] == raw_storage.deps_map()[h]);
                    }
                }
            }
            if old(raw_storage).no_dangling_code_hash() {
                assert forall|k: (Seq<u8>, Seq<u8>)|
                    #[trigger] raw_storage.slots_map().contains_key(k) && k.0
                        == account_code_storage_bytes() && raw_storage.slots_map()[k] != zeros(
                        32,
                    ) implies raw_storage.deps_map().contains_key(
                    raw_storage.slots_map()[k],
                ) by {
                    if k == code_key_of(c.address) {
                    } else if c.is_account && k == is_account_key_of(c.address) {
                    } else {
                        assert(m0.contains_key(k) && m0[k] == raw_storage.slots_map()[k]);
                    }
                }
            }
        }
        idx = idx + 1;
    }
    proof {
        assert(models.skip(contracts@.len() as int) =~= Seq::<ContractModel>::empty());
    }
}

/// Builds the default world state: a fresh state tagged with the fixed
/// chain identifier, seeded with the pre-installed system contracts, then
/// with the caller's extra contracts and accounts. Every code hash written
/// has its bytecode registered as a factory dependency.
pub fn default_empty_storage(
    system_contracts: &Vec<DeployedContract>,
    contracts: &Vec<ContractToDeploy>,
) -> (r: WorldState)
    requires
        forall|i: int| 0 <= i < system_contracts@.len() ==> (#[trigger] system_contracts@[i]).wf(),
        forall|i: int| 0 <= i < contracts@.len() ==> (#[trigger] contracts@[i]).wf(),
    ensures
        r.chain_id == crate::constants::CHAIN_ID,
        ({
            let genesis = WorldState::new_spec_maps();
            let seeded = apply_contracts(
                genesis.0,
                genesis.1,
                system_contracts@.map_values(|c: DeployedContract| deployed_model(c)),
            );
            let applied = apply_contracts(
                seeded.0,
                seeded.1,
                contracts@.map_values(|c: ContractToDeploy| contract_model(c)),
            );
            r.slots_map() == applied.0 && r.deps_map() == applied.1
        }),
        r.wf(),
        r.no_dangling_code_hash(),
        r.deps_keyed_by_hash(),
{
    let mut raw_storage = WorldState::new();
    let mut converted: Vec<ContractToDeploy> = Vec::new();
    let mut i: usize = 0;
    while i < system_contracts.len()
        invariant
            i <= system_contracts@.len(),
            converted@.len() == i,
            forall|j: int|
                0 <= j < system_contracts@.len() ==> (#[trigger] system_contracts@[j]).wf(),
            forall|j: int|
                0 <= j < i ==> (#[trigger] converted@[j]).bytecode@
                    == system_contracts@[j].bytecode@ && converted@[j].address@
                    == system_contracts@[j].account_id@ && converted@[j].is_account == false,
            forall|j: int| 0 <= j < converted@.len() ==> (#[trigger] converted@[j]).wf(),
        decreases system_contracts@.len() - i,
    {
        let sc = &system_contracts[i];
        converted.push(
            ContractToDeploy {
                bytecode: copy_bytes(&sc.bytecode),
                address: sc.account_id.dup(),
                is_account: false,
            },
        );
        i = i + 1;
    }
    proof {
        let cmapped = converted@.map_values(|c: ContractToDeploy| contract_model(c));
        let dmapped = system_contracts@.map_values(|c: DeployedContract| deployed_model(c));
        assert forall|j: int| 0 <= j < system_contracts@.len() implies #[trigger] cmapped[j]
            == dmapped[j] by {
            assert(cmapped[j] == contract_model(converted@[j]));
            assert(dmapped[j] == deployed_model(system_contracts@[j]));
        }
        assert(cmapped =~= dmapped);
    }
    insert_contracts(&mut raw_storage, &converted);
    insert_contracts(&mut raw_storage, contracts);
    raw_storage
}

/// For every address with a non-empty code hash in world state, a
/// corresponding bytecode entry exists in the factory-dependency table —
/// no dangling code hash — and that entry's bytecode re-hashes to the very
/// code hash it was looked up by.
pub proof fn lemma_no_dangling_code_hash(ws: WorldState, k: (Seq<u8>, Seq<u8>))
    requires
        ws.no_dangling_code_hash(),
        ws.deps_keyed_by_hash(),
        ws.slots_map().contains_key(k),
        k.0 == account_code_storage_bytes(),
        ws.slots_map()[k] != zeros(32),
    ensures
        ws.deps_map().contains_key(ws.slots_map()[k]),
        bytecode_hash_of(ws.deps_map()[ws.slots_map()[k]]) == ws.slots_map()[k],
{
}

} // verus!
