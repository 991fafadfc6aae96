use state_machine::balances;
use state_machine::proof_of_existence;
use state_machine::support::{DispatchError, ExtrinsicFailure};
use state_machine::{Block, Extrinsic, Header, Runtime, RuntimeCall};

#[test]
fn new_runtime_starts_empty() {
    let runtime = Runtime::new();
    assert_eq!(runtime.system.block_number(), 0);
    assert_eq!(runtime.system.nonce(&"alice".to_string()), 0);
    assert_eq!(runtime.balances.balance(&"alice".to_string()), 0);
    assert_eq!(runtime.proof_of_existence.get_claim(&"hello".to_string()), None);
}

#[test]
fn error_messages_are_fixed() {
    assert_eq!(DispatchError::InsufficientFunds.message(), "Not enough funds.");
    assert_eq!(DispatchError::Overflow.message(), "Overflow");
    assert_eq!(DispatchError::AlreadyClaimed.message(), "this content is already claimed");
    assert_eq!(DispatchError::NotOwner.message(), "this content is owned by someone else");
    assert_eq!(DispatchError::ClaimNotFound.message(), "claim does not exist");
    assert_eq!(
        DispatchError::InvalidBlockNumber.message(),
        "block number does not match what is expected"
    );
}

#[test]
fn dispatch_routes_to_owning_pallet() {
    let mut runtime = Runtime::new();
    runtime.balances.set_balance(&"alice".to_string(), 100);
    let transfer = RuntimeCall::Balances(balances::Call::transfer {
        to: "bob".to_string(),
        amount: 25,
    });
    assert_eq!(runtime.dispatch("alice".to_string(), transfer), Ok(()));
    assert_eq!(runtime.balances.balance(&"bob".to_string()), 25);
    let claim = RuntimeCall::ProofOfExistence(proof_of_existence::Call::create_claim {
        claim: "hello".to_string(),
    });
    assert_eq!(runtime.dispatch("bob".to_string(), claim), Ok(()));
    assert_eq!(
        runtime.proof_of_existence.get_claim(&"hello".to_string()),
        Some(&"bob".to_string())
    );
}

#[test]
fn block_with_wrong_header_number_is_rejected() {
    let mut runtime = Runtime::new();
    runtime.balances.set_balance(&"alice".to_string(), 100);
    let block = Block {
        header: Header { block_number: 5 },
        extrinsics: vec![Extrinsic {
            caller: "alice".to_string(),
            call: RuntimeCall::Balances(balances::Call::transfer {
                to: "bob".to_string(),
                amount: 30,
            }),
        }],
    };
    let result = runtime.execute_block(block);
    assert_eq!(result, Err(DispatchError::InvalidBlockNumber));
    // the block number itself has advanced, but no extrinsic was applied
    assert_eq!(runtime.system.block_number(), 1);
    assert_eq!(runtime.system.nonce(&"alice".to_string()), 0);
    assert_eq!(runtime.balances.balance(&"alice".to_string()), 100);
    assert_eq!(runtime.balances.balance(&"bob".to_string()), 0);
}

#[test]
fn failing_extrinsic_does_not_stop_the_block() {
    let mut runtime = Runtime::new();
    runtime.balances.set_balance(&"alice".to_string(), 10);
    let block = Block {
        header: Header { block_number: 1 },
        extrinsics: vec![
            Extrinsic {
                caller: "alice".to_string(),
                call: RuntimeCall::Balances(balances::Call::transfer {
                    to: "bob".to_string(),
                    amount: 100,
                }),
            },
            Extrinsic {
                caller: "alice".to_string(),
                call: RuntimeCall::Balances(balances::Call::transfer {
                    to: "bob".to_string(),
                    amount: 5,
                }),
            },
            Extrinsic {
                caller: "bob".to_string(),
                call: RuntimeCall::ProofOfExistence(proof_of_existence::Call::create_claim {
                    claim: "hello".to_string(),
                }),
            },
        ],
    };
    let failures = runtime.execute_block(block).expect("the block itself is valid");
    assert_eq!(
        failures,
        vec![ExtrinsicFailure {
            block_number: 1,
            index: 0,
            error: DispatchError::InsufficientFunds,
        }]
    );
    // the extrinsics after the failing one were still applied
    assert_eq!(runtime.balances.balance(&"alice".to_string()), 5);
    assert_eq!(runtime.balances.balance(&"bob".to_string()), 5);
    assert_eq!(
        runtime.proof_of_existence.get_claim(&"hello".to_string()),
        Some(&"bob".to_string())
    );
    // every caller's nonce advanced, the failing extrinsic's too
    assert_eq!(runtime.system.nonce(&"alice".to_string()), 2);
    assert_eq!(runtime.system.nonce(&"bob".to_string()), 1);
}

#[test]
fn blocks_advance_state_in_order() {
    let mut runtime = Runtime::new();
    let alice = "alice".to_string();
    let bob = "bob".to_string();
    let charlie = "charlie".to_string();
    runtime.balances.set_balance(&alice, 100);

    let block_1 = Block {
        header: Header { block_number: 1 },
        extrinsics: vec![
            Extrinsic {
                caller: alice.clone(),
                call: RuntimeCall::Balances(balances::Call::transfer {
                    to: bob.clone(),
                    amount: 30,
                }),
            },
            Extrinsic {
                caller: alice.clone(),
                call: RuntimeCall::Balances(balances::Call::transfer {
                    to: charlie.clone(),
                    amount: 20,
                }),
            },
        ],
    };
    let block_2 = Block {
        header: Header { block_number: 2 },
        extrinsics: vec![
            Extrinsic {
                caller: alice.clone(),
                call: RuntimeCall::ProofOfExistence(proof_of_existence::Call::create_claim {
                    claim: "Hello, world!".to_string(),
                }),
            },
            Extrinsic {
                caller: bob.clone(),
                call: RuntimeCall::ProofOfExistence(proof_of_existence::Call::create_claim {
                    claim: "Hello, world!".to_string(),
                }),
            },
        ],
    };
    let block_3 = Block {
        header: Header { block_number: 3 },
        extrinsics: vec![
            Extrinsic {
                caller: alice.clone(),
                call: RuntimeCall::ProofOfExistence(proof_of_existence::Call::revoke_claim {
                    claim: "Hello, world!".to_string(),
                }),
            },
            Extrinsic {
                caller: bob.clone(),
                call: RuntimeCall::ProofOfExistence(proof_of_existence::Call::create_claim {
                    claim: "Hello, world!".to_string(),
                }),
            },
        ],
    };

    assert_eq!(runtime.execute_block(block_1), Ok(vec![]));
    assert_eq!(
        runtime.execute_block(block_2),
        Ok(vec![ExtrinsicFailure {
            block_number: 2,
            index: 1,
            error: DispatchError::AlreadyClaimed,
        }])
    );
    assert_eq!(runtime.execute_block(block_3), Ok(vec![]));

    assert_eq!(runtime.system.block_number(), 3);
    assert_eq!(runtime.balances.balance(&alice), 50);
    assert_eq!(runtime.balances.balance(&bob), 30);
    assert_eq!(runtime.balances.balance(&charlie), 20);
    assert_eq!(
        runtime.proof_of_existence.get_claim(&"Hello, world!".to_string()),
        Some(&bob)
    );
    assert_eq!(runtime.system.nonce(&alice), 4);
    assert_eq!(runtime.system.nonce(&bob), 2);
    assert_eq!(runtime.system.nonce(&charlie), 0);
}
