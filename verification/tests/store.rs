use updb::new;
use updb::Db;
use updb::Error;

#[test]
fn can_create_db() {
    let db: Db = new();
    assert_eq!(0, db.size());
}

#[test]
fn can_create_read_transactions() {
    let db: Db = new();
    let tx = db.begin(false);
    assert!(tx.is_ok());
}

#[test]
fn can_create_writable_transactions() {
    let db: Db = new();
    let tx = db.begin(true);
    assert!(tx.is_ok());
}

#[test]
fn readable_transactions_not_writable() {
    let db: Db = new();

    let tx = db.begin(false);
    assert!(tx.is_ok());
    let mut tx = tx.unwrap();

    let res = tx.set("name".to_string(), "ibrahim".to_string());
    assert!(res.is_err());

    let res = tx.del("name".to_string());
    assert!(res.is_err());

    let res = tx.commit();
    assert!(res.is_err());

    let res = tx.rollback();
    assert!(res.is_ok());
}

#[test]
fn commit_publishes_all_mutations() {
    let db: Db = new();
    let mut w = db.begin(true).unwrap();
    assert!(w.set("a".to_string(), "1".to_string()).is_ok());
    assert!(w.set("b".to_string(), "2".to_string()).is_ok());
    assert!(w.commit().is_ok());
    assert_eq!(2, db.size());

    let mut r = db.begin(false).unwrap();
    assert_eq!(Ok(Some("1".to_string())), r.get("a".to_string()));
    assert_eq!(Ok(false), r.contains("c".to_string()));
    assert_eq!(Err(Error::TxNotWritable), r.del("a".to_string()));
    assert!(r.rollback().is_ok());

    let mut r2 = db.begin(false).unwrap();
    assert_eq!(2, db.size());
    assert_eq!(Ok(Some("1".to_string())), r2.get("a".to_string()));
    assert!(r2.rollback().is_ok());
}

#[test]
fn reader_sees_begin_time_snapshot() {
    let db: Db = new();
    let mut setup = db.begin(true).unwrap();
    assert!(setup.set("x".to_string(), "old".to_string()).is_ok());
    assert!(setup.commit().is_ok());

    let mut r = db.begin(false).unwrap();
    let mut w = db.begin(true).unwrap();
    assert!(w.set("x".to_string(), "new".to_string()).is_ok());
    let before = r.get("x".to_string());
    assert!(w.commit().is_ok());
    let after = r.get("x".to_string());
    assert_eq!(Ok(Some("old".to_string())), before);
    assert_eq!(before, after);
    assert!(r.rollback().is_ok());

    let mut fresh = db.begin(false).unwrap();
    assert_eq!(Ok(Some("new".to_string())), fresh.get("x".to_string()));
    assert!(fresh.rollback().is_ok());
}

#[test]
fn closed_transaction_rejects_every_operation() {
    let db: Db = new();
    let mut t = db.begin(true).unwrap();
    assert!(t.commit().is_ok());
    assert!(t.closed());
    for _ in 0..2 {
        assert_eq!(Err(Error::TxClosed), t.set("k".to_string(), "v".to_string()));
        assert_eq!(Err(Error::TxClosed), t.del("k".to_string()));
        assert_eq!(Err(Error::TxClosed), t.commit());
        assert_eq!(Err(Error::TxClosed), t.rollback());
        assert_eq!(Err(Error::TxClosed), t.contains("k".to_string()));
        assert!(matches!(t.get("k".to_string()), Err(Error::TxClosed)));
        assert!(t.closed());
    }
}

#[test]
fn rollback_succeeds_exactly_once() {
    let db: Db = new();
    let mut t = db.begin(true).unwrap();
    assert!(t.set("k".to_string(), "v".to_string()).is_ok());
    assert!(t.rollback().is_ok());
    assert_eq!(Err(Error::TxClosed), t.rollback());
    assert_eq!(0, db.size());
    let r = db.begin(false).unwrap();
    assert_eq!(Ok(false), r.contains("k".to_string()));
}

#[test]
fn del_removes_and_missing_del_is_noop() {
    let db: Db = new();
    let mut w = db.begin(true).unwrap();
    assert!(w.set("a".to_string(), "1".to_string()).is_ok());
    assert!(w.del("a".to_string()).is_ok());
    assert!(w.del("ghost".to_string()).is_ok());
    assert!(w.commit().is_ok());
    assert_eq!(0, db.size());
    let r = db.begin(false).unwrap();
    assert_eq!(Ok(None), r.get("a".to_string()));
}

#[test]
fn uncommitted_writes_stay_private() {
    let db: Db = new();
    let mut w = db.begin(true).unwrap();
    assert!(w.set("a".to_string(), "1".to_string()).is_ok());
    assert_eq!(0, db.size());
    let r = db.begin(false).unwrap();
    assert_eq!(Ok(false), r.contains("a".to_string()));
    assert_eq!(Ok(true), w.contains("a".to_string()));
    assert!(w.rollback().is_ok());
    assert_eq!(0, db.size());
}

#[test]
fn overwrite_replaces_value() {
    let db: Db = new();
    let mut w = db.begin(true).unwrap();
    assert!(w.set("k".to_string(), "v1".to_string()).is_ok());
    assert!(w.set("k".to_string(), "v2".to_string()).is_ok());
    assert!(w.commit().is_ok());
    assert_eq!(1, db.size());
    let r = db.begin(false).unwrap();
    assert_eq!(Ok(Some("v2".to_string())), r.get("k".to_string()));
}

#[test]
fn writer_admission_frees_on_both_terminal_paths() {
    let db: Db = new();
    let mut w1 = db.begin(true).unwrap();
    assert!(w1.set("a".to_string(), "1".to_string()).is_ok());
    assert!(w1.commit().is_ok());
    let mut w2 = db.begin(true).unwrap();
    assert!(w2.set("b".to_string(), "2".to_string()).is_ok());
    assert!(w2.rollback().is_ok());
    let mut w3 = db.begin(true).unwrap();
    assert!(w3.rollback().is_ok());
    assert_eq!(1, db.size());
}
