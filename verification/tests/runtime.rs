use modular_runtime::balances;
use modular_runtime::proof_of_existence;
use modular_runtime::support::DispatchError;
use modular_runtime::types::{Block, Extrinsic, Header};
use modular_runtime::{Runtime, RuntimeCall};

fn transfer(to: &str, amount: u128) -> RuntimeCall {
    RuntimeCall::Balances(balances::Call::Transfer {
        to: to.to_string(),
        amount,
    })
}

fn create_claim(claim: &str) -> RuntimeCall {
    RuntimeCall::ProofOfExistence(proof_of_existence::Call::CreateClaim {
        claim: claim.to_string(),
    })
}

#[test]
fn block_of_transfers() {
    let mut runtime = Runtime::new();
    let alice = "alice".to_string();
    let bob = "bob".to_string();
    let charlie = "charlie".to_string();

    runtime.balances.set_balance(&alice, 100);
    let block_1 = Block {
        header: Header { block_number: 1 },
        extrinsics: vec![
            Extrinsic {
                caller: alice.clone(),
                call: transfer("bob", 30),
            },
            Extrinsic {
                caller: alice.clone(),
                call: transfer("charlie", 20),
            },
        ],
    };

    assert_eq!(runtime.execute_block(block_1), Ok(()));
    assert_eq!(runtime.balances.balance(&alice), 50);
    assert_eq!(runtime.balances.balance(&bob), 30);
    assert_eq!(runtime.balances.balance(&charlie), 20);
    assert_eq!(runtime.system.block_number(), 1);
}

#[test]
fn failing_operation_does_not_abort_the_block() {
    let mut runtime = Runtime::new();
    let alice = "alice".to_string();
    let bob = "bob".to_string();

    let block_1 = Block {
        header: Header { block_number: 1 },
        extrinsics: vec![],
    };
    assert_eq!(runtime.execute_block(block_1), Ok(()));

    let block_2 = Block {
        header: Header { block_number: 2 },
        extrinsics: vec![
            Extrinsic {
                caller: alice.clone(),
                call: create_claim("doc"),
            },
            Extrinsic {
                caller: bob.clone(),
                call: create_claim("doc"),
            },
        ],
    };

    // the second claim fails with AlreadyClaimed, but the block call succeeds
    assert_eq!(runtime.execute_block(block_2), Ok(()));
    assert_eq!(
        runtime.proof_of_existence.get_claim(&"doc".to_string()),
        Some(&alice)
    );
    // the failed operation still consumed its caller's nonce
    assert_eq!(runtime.system.get_nonce(&bob), Some(1));
    assert_eq!(runtime.system.block_number(), 2);
}

#[test]
fn block_height_mismatch_is_fatal() {
    let mut runtime = Runtime::new();
    let alice = "alice".to_string();
    let bob = "bob".to_string();

    runtime.balances.set_balance(&alice, 100);
    let block = Block {
        header: Header { block_number: 5 },
        extrinsics: vec![Extrinsic {
            caller: alice.clone(),
            call: transfer("bob", 30),
        }],
    };

    assert_eq!(
        runtime.execute_block(block),
        Err(DispatchError::BlockNumberMismatch)
    );
    // no operation was processed ...
    assert_eq!(runtime.balances.balance(&alice), 100);
    assert_eq!(runtime.balances.balance(&bob), 0);
    assert_eq!(runtime.system.get_nonce(&alice), None);
    // ... but the rejected block still consumed a height slot
    assert_eq!(runtime.system.block_number(), 1);
}

#[test]
fn nonce_increments_whether_or_not_the_operation_succeeds() {
    let mut runtime = Runtime::new();
    let alice = "alice".to_string();
    let bob = "bob".to_string();

    runtime.balances.set_balance(&alice, 10);
    let block = Block {
        header: Header { block_number: 1 },
        extrinsics: vec![
            Extrinsic {
                caller: alice.clone(),
                call: transfer("bob", 100),
            },
            Extrinsic {
                caller: alice.clone(),
                call: transfer("bob", 5),
            },
        ],
    };

    assert_eq!(runtime.execute_block(block), Ok(()));
    // the first transfer failed, the second succeeded; both cost a nonce
    assert_eq!(runtime.system.get_nonce(&alice), Some(2));
    assert_eq!(runtime.balances.balance(&alice), 5);
    assert_eq!(runtime.balances.balance(&bob), 5);
}

#[test]
fn fresh_runtime_reads_as_all_zero() {
    let runtime = Runtime::new();
    assert_eq!(runtime.system.block_number(), 0);
    assert_eq!(runtime.balances.balance(&"anyone".to_string()), 0);
    assert_eq!(runtime.system.get_nonce(&"anyone".to_string()), None);
    assert_eq!(
        runtime.proof_of_existence.get_claim(&"anything".to_string()),
        None
    );
}
