use lens::error::LensError;
use lens::registry::{Fetch, Pulled, StreamRegistry};
use lens::model::StreamId;
use lens::rows::Batch;

fn batch(names: &[&str], cols: Vec<Vec<Option<&str>>>, n: usize) -> Batch {
    let columns = names.iter().map(|s| s.to_string()).collect();
    let cells = cols
        .into_iter()
        .map(|c| c.into_iter().map(|v| v.map(|s| s.to_string())).collect())
        .collect();
    Batch::new(columns, cells, n).expect("well-shaped batch")
}

fn reply(f: Fetch<u32>) -> Result<Option<Vec<lens::model::Row>>, LensError> {
    match f {
        Fetch::Reply(r) => r,
        Fetch::PullAgain(_) => panic!("a reply was expected"),
    }
}

fn fetch(reg: &mut StreamRegistry<u32>, id: StreamId, pulled: Pulled) -> Result<Option<Vec<lens::model::Row>>, LensError> {
    let source = reg.checkout(id)?;
    reply(reg.complete_next(id, source, pulled))
}

#[test]
fn drain_yields_all_rows_in_order_then_none() {
    let mut reg: StreamRegistry<u32> = StreamRegistry::new();
    let id = reg.create(Ok(7)).unwrap();
    let b1 = batch(&["n"], vec![vec![Some("1"), Some("2")]], 2);
    let b2 = batch(&["n"], vec![vec![Some("3")]], 1);
    let mut seen = Vec::new();
    for b in [b1, b2] {
        let rows = fetch(&mut reg, id, Pulled::Batch(b)).unwrap().unwrap();
        assert!(!rows.is_empty());
        for r in rows {
            seen.push(r.values[0].clone());
        }
        assert!(reg.is_live(id));
    }
    assert_eq!(seen, vec!["1", "2", "3"]);
    assert!(fetch(&mut reg, id, Pulled::End).unwrap().is_none());
    assert!(!reg.is_live(id));
    assert!(matches!(fetch(&mut reg, id, Pulled::End), Err(LensError::UnknownStream(x)) if x == id));
}

#[test]
fn never_issued_id_is_unknown() {
    let mut reg: StreamRegistry<u32> = StreamRegistry::new();
    let id = StreamId(42);
    assert!(matches!(reg.checkout(id), Err(LensError::UnknownStream(x)) if x == id));
    assert!(matches!(reply(reg.complete_next(id, 1, Pulled::End)), Err(LensError::UnknownStream(_))));
    assert!(!reg.is_live(id));
}

#[test]
fn failed_pull_retires_cursor() {
    let mut reg: StreamRegistry<u32> = StreamRegistry::new();
    let id = reg.create(Ok(1)).unwrap();
    match fetch(&mut reg, id, Pulled::Failed("disk gone".to_string())) {
        Err(LensError::Execution(m)) => assert_eq!(m, "disk gone"),
        other => panic!("unexpected {:?}", other.is_ok()),
    }
    assert!(matches!(reg.checkout(id), Err(LensError::UnknownStream(_))));
}

#[test]
fn two_creates_get_distinct_ids() {
    let mut reg: StreamRegistry<u32> = StreamRegistry::new();
    let a = reg.create(Ok(1)).unwrap();
    let b = reg.create(Ok(2)).unwrap();
    assert_ne!(a, b);
    assert!(reg.is_live(a) && reg.is_live(b));
    assert_eq!(reg.checkout(a).unwrap(), 1);
    assert_eq!(reg.checkout(b).unwrap(), 2);
}

#[test]
fn failed_execution_registers_nothing() {
    let mut reg: StreamRegistry<u32> = StreamRegistry::new();
    let r = reg.create(Err(LensError::Parse("syntax error at SELEC".to_string())));
    assert!(matches!(r, Err(LensError::Parse(ref m)) if m == "syntax error at SELEC"));
    let r = reg.create(Err(LensError::Plan("table not found".to_string())));
    assert!(matches!(r, Err(LensError::Plan(_))));
}

#[test]
fn checked_out_cursor_is_not_live_until_completed() {
    let mut reg: StreamRegistry<u32> = StreamRegistry::new();
    let id = reg.create(Ok(5)).unwrap();
    let s = reg.checkout(id).unwrap();
    assert!(!reg.is_live(id));
    let s = match reg.complete_next(id, s, Pulled::Batch(batch(&["a"], vec![vec![]], 0))) {
        Fetch::PullAgain(s) => s,
        Fetch::Reply(_) => panic!("an empty batch must not be a page"),
    };
    assert_eq!(s, 5);
    assert!(!reg.is_live(id));
    let rows = reply(reg.complete_next(id, s, Pulled::Batch(batch(&["a"], vec![vec![Some("v")]], 1))))
        .unwrap()
        .unwrap();
    assert_eq!(rows.len(), 1);
    assert_eq!(rows[0].values, vec!["v".to_string()]);
    assert!(reg.is_live(id));
}

#[test]
fn completing_without_checkout_does_not_revive() {
    let mut reg: StreamRegistry<u32> = StreamRegistry::new();
    let id = reg.create(Ok(3)).unwrap();
    assert!(fetch(&mut reg, id, Pulled::End).unwrap().is_none());
    let b = batch(&["n"], vec![vec![Some("1")]], 1);
    assert!(matches!(reply(reg.complete_next(id, 3, Pulled::Batch(b))), Err(LensError::UnknownStream(x)) if x == id));
    assert!(!reg.is_live(id));
    let live = reg.create(Ok(4)).unwrap();
    let b = batch(&["n"], vec![vec![Some("1")]], 1);
    assert!(matches!(reply(reg.complete_next(live, 4, Pulled::Batch(b))), Err(LensError::UnknownStream(_))));
    assert!(reg.is_live(live));
}

#[test]
fn register_refuses_used_token() {
    let mut reg: StreamRegistry<u32> = StreamRegistry::new();
    assert_eq!(reg.register(9, 1).unwrap(), StreamId(9));
    assert!(reg.is_live(StreamId(9)));
    assert!(matches!(reg.register(9, 2), Err(2)));
    assert_eq!(reg.checkout(StreamId(9)).unwrap(), 1);
    assert!(matches!(reg.register(9, 3), Err(3)));
}
