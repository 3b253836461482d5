use ledger_core::keypair::{PrivateKey, VerifyError};
use ledger_core::server::handle_transaction;
use ledger_core::transaction::Transaction;
use ledger_core::txpool::TxPool;
use rand::Rng;

#[test]
fn test_tx_pool() {
    let p = TxPool::new();
    assert_eq!(p.len(), 0);
}

#[test]
fn test_tx_pool_add_tx() {
    let mut p = TxPool::new();
    let tx = Transaction::new(b"fooo".to_vec()).unwrap();
    assert!(p.add(tx).is_ok());
    assert_eq!(p.len(), 1);

    let _ = Transaction::new(b"fooo".to_vec());
    assert_eq!(p.len(), 1);

    let tx = Transaction::new(b"sway".to_vec()).unwrap();
    assert!(p.add(tx).is_ok());
    assert_eq!(p.len(), 2);

    let _ = p.flush();
    assert_eq!(p.len(), 0);
}

#[test]
fn test_sort_transactions() {
    let mut p = TxPool::new();
    let tx_len = 1000;
    let mut rng = rand::thread_rng();

    for i in 0..tx_len {
        let tx = Transaction::new(i.to_string().as_bytes().to_vec());
        assert!(tx.is_ok());
        let mut tx = tx.unwrap();
        tx.set_seen(rng.gen::<i64>());
        assert!(p.add(tx).is_ok());
    }

    assert_eq!(tx_len, p.len());

    let txx = p.drain_ordered();
    println!("{:?}", txx);
    for i in 0..txx.len() - 1 {
        assert!(txx[i].seen() < txx[i + 1].seen());
    }
}

#[test]
fn drain_orders_by_arrival_mark() {
    let mut p = TxPool::new();
    for (payload, seen) in [(b"a", 5i64), (b"b", 1), (b"c", 3)] {
        let mut tx = Transaction::new(payload.to_vec()).unwrap();
        tx.set_seen(seen);
        p.add(tx).unwrap();
    }
    let unmarked = Transaction::new(b"d".to_vec()).unwrap();
    p.add(unmarked).unwrap();
    let order: Vec<Option<i64>> = p.drain_ordered().iter().map(|t| t.seen()).collect();
    assert_eq!(order, vec![None, Some(1), Some(3), Some(5)]);
    assert_eq!(p.len(), 4);
}

#[test]
fn same_hash_overwrites() {
    let mut p = TxPool::new();
    let mut a = Transaction::new(b"same".to_vec()).unwrap();
    a.set_seen(1);
    let mut b = Transaction::new(b"same".to_vec()).unwrap();
    b.set_seen(2);
    let mut probe = Transaction::new(b"same".to_vec()).unwrap();
    let key = probe.hash(ledger_core::hasher::Hasher::new());
    assert!(!p.has(&key));
    p.add(a).unwrap();
    assert!(p.has(&key));
    p.add(b).unwrap();
    assert_eq!(p.len(), 1);
    assert_eq!(p.drain_ordered()[0].seen(), Some(2));
}

#[test]
fn server_path_dedups_on_check() {
    let mut p = TxPool::new();
    let key = PrivateKey::generate_key();
    let mut tx = Transaction::new(b"pay".to_vec()).unwrap();
    tx.sign(&key).unwrap();
    tx.set_seen(1);
    assert!(handle_transaction(&mut p, &tx).is_ok());
    assert_eq!(p.len(), 1);
    let mut again = tx.clone();
    again.set_seen(2);
    assert!(handle_transaction(&mut p, &again).is_ok());
    assert_eq!(p.len(), 1);
    assert_eq!(p.drain_ordered()[0].seen(), Some(1));
}

#[test]
fn server_path_rejects_unverified() {
    let mut p = TxPool::new();
    let tx = Transaction::new(b"unsigned".to_vec()).unwrap();
    assert_eq!(handle_transaction(&mut p, &tx), Err(VerifyError::MissingSignature));
    assert_eq!(p.len(), 0);
}
