use poh_ledger::api::{
    admission_response, mining_response, verification_response, ApiResponse, CreateProposalRequest,
    CreateWalletRequest, TransferRequest,
};
use poh_ledger::blockchain::Blockchain;
use poh_ledger::database::DatabaseConfig;
use poh_ledger::error::{CorruptionError, MiningError, ValidationError};
use poh_ledger::network::{admission_event, mining_event, NetworkMessage, PeerInfo};
use poh_ledger::transaction::Transaction;

fn announced(id: &str) -> Transaction {
    Transaction {
        id: id.to_string(),
        from: "alice".to_string(),
        to: "bob".to_string(),
        amount: 4,
        timestamp: 8,
        signature: vec![1, 2, 3],
    }
}

#[test]
fn envelope_is_success_with_data_or_failure_with_reason() {
    let ok: ApiResponse<u8> = ApiResponse::ok(7);
    assert_eq!(
        ok,
        ApiResponse {
            success: true,
            data: Some(7),
            error: None
        }
    );
    let failed: ApiResponse<u8> = ApiResponse::fail("no".to_string());
    assert_eq!(
        failed,
        ApiResponse {
            success: false,
            data: None,
            error: Some("no".to_string())
        }
    );
}

#[test]
fn answers_carry_the_outcome() {
    let admitted = admission_response("tx-1", &Ok(()));
    assert_eq!(admitted, ApiResponse::ok("tx-1".to_string()));
    let rejected = admission_response("tx-1", &Err(ValidationError::DuplicateId));
    assert_eq!(
        rejected,
        ApiResponse::fail("transaction identifier already used".to_string())
    );

    let mut chain = Blockchain::genesis_at(0);
    let outcome = chain.mine_block_at(3);
    let block = outcome.clone().unwrap();
    assert_eq!(mining_response(outcome), ApiResponse::ok(block));
    assert_eq!(
        mining_response(Err(MiningError::ClockExhausted)),
        ApiResponse::fail("hash clock count exhausted".to_string())
    );

    assert_eq!(verification_response(&Ok(()), 2), ApiResponse::ok(2));
    assert_eq!(
        verification_response(&Err(CorruptionError { index: 17 }), 40),
        ApiResponse::fail("chain corrupted at block 17".to_string())
    );
}

#[test]
fn events_follow_success_only() {
    let t = announced("e1");
    assert_eq!(
        admission_event(&Ok(()), &t),
        Some(NetworkMessage::NewTransaction(t.clone()))
    );
    assert_eq!(
        admission_event(&Err(ValidationError::InvalidSignature), &t),
        None
    );
    let mut chain = Blockchain::genesis_at(0);
    let outcome = chain.mine_block_at(3);
    assert_eq!(
        mining_event(&outcome),
        Some(NetworkMessage::NewBlock(outcome.clone().unwrap()))
    );
    assert_eq!(mining_event(&Err(MiningError::EmptyChain)), None);
    let peer = PeerInfo {
        address: "10.0.0.1:9000".to_string(),
        version: "1".to_string(),
        last_seen: 3,
    };
    assert_eq!(
        NetworkMessage::Peers(vec![peer.clone()]),
        NetworkMessage::Peers(vec![peer])
    );
    assert_ne!(NetworkMessage::GetPeers, NetworkMessage::GetBlocks(vec![]));
}

#[test]
fn requests_hold_their_fields() {
    let w = CreateWalletRequest {
        email: "a@b".to_string(),
        pin: "1234567".to_string(),
    };
    let t = TransferRequest {
        from: "a".to_string(),
        to: "b".to_string(),
        amount: 5,
    };
    let p = CreateProposalRequest {
        title: "t".to_string(),
        description: "d".to_string(),
        budget_amount: 9,
    };
    assert_eq!(w.clone(), w);
    assert_eq!(t.clone(), t);
    assert_eq!(p.clone(), p);
}

#[test]
fn default_store_is_local() {
    let config = DatabaseConfig::default();
    assert_eq!(config.username, "root");
    assert_eq!(config.password, "");
    assert_eq!(config.database, "blockchain");
    assert_eq!(config.host, "localhost");
    assert_eq!(config.port, 3306);
    assert_eq!(
        config.connection_url(),
        "mysql://root:@localhost:3306/blockchain"
    );
    let other = DatabaseConfig {
        username: "u".to_string(),
        password: "p@ss".to_string(),
        database: "d".to_string(),
        host: "db.example.org".to_string(),
        port: 0,
    };
    assert_eq!(other.connection_url(), "mysql://u:p@ss@db.example.org:0/d");
}
