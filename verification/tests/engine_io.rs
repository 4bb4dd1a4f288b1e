//! End-to-end runs: transaction streams in the tabular input format, driven
//! through the engine, and the account snapshots they produce.

use payments::account::MoneyAggregate;
use payments::engine::Engine;
use payments::transaction::{Transaction, TransactionType};

/// A monetary value as the fixed-point representation the ledger uses.
fn units(value: f64) -> i64 {
    (value * 100_000.0).round() as i64
}

/// The four-decimal output value of a balance, as the output writer would
/// render it.
fn output_value(balance: i64) -> f64 {
    MoneyAggregate(balance).output_units() as f64 / 10_000.0
}

/// Parses the tabular input format the way the host does: leading and
/// trailing whitespace trimmed, amount column optional, unparsable rows
/// skipped.
fn parse_transactions(csv_text: &str) -> Vec<Transaction> {
    let mut out = Vec::new();
    let mut reader = csv::ReaderBuilder::new()
        .trim(csv::Trim::All)
        .flexible(true)
        .from_reader(csv_text.as_bytes());
    for record in reader.records() {
        let record = match record {
            Ok(r) => r,
            Err(_) => continue,
        };
        let kind = match record.get(0) {
            Some("deposit") => TransactionType::Deposit,
            Some("withdrawal") => TransactionType::Withdrawal,
            Some("dispute") => TransactionType::Dispute,
            Some("resolve") => TransactionType::Resolve,
            Some("chargeback") => TransactionType::Chargeback,
            _ => continue,
        };
        let client: u16 = match record.get(1).and_then(|s| s.parse().ok()) {
            Some(v) => v,
            None => continue,
        };
        let tx: u32 = match record.get(2).and_then(|s| s.parse().ok()) {
            Some(v) => v,
            None => continue,
        };
        let amount: Option<i64> = match record.get(3) {
            None | Some("") => None,
            Some(s) => match s.parse::<f64>() {
                Ok(v) => Some(units(v)),
                Err(_) => continue,
            },
        };
        out.push(Transaction::new(kind, client, tx, amount, false));
    }
    out
}

/// smoke test to observe accounts on std out
#[test]
fn process() {
    let csv = "\
type,       client, tx, amount
deposit,         2,  1,    2.1
deposit,         1,  1,    2.0
withdrawal,      2,  2,    1.10001
dispute,         1,  1,
resolve,         1,  1,
chargeback,      1,  1,
";

    let mut engine = Engine::new();
    engine.input(&parse_transactions(csv));

    let mut writer = csv::WriterBuilder::new().from_writer(std::io::stdout());
    writer
        .write_record(&["client", "available", "held", "total", "locked"])
        .expect("cannot serialize account");
    for snap in engine.snapshots() {
        writer
            .serialize((
                snap.client,
                output_value(snap.available),
                output_value(snap.held),
                output_value(snap.total),
                snap.locked,
            ))
            .expect("cannot serialize account");
    }
}

/// balances with rounding
#[test]
fn input() {
    let csv = "\
type,       client, tx, amount
deposit,         2,  1,    2.1
deposit,         1,  1,    2.0
withdrawal,      2,  2,    1.10001
dispute,         1,  1,
resolve,         1,  1,
chargeback,      1,  1,
";

    let mut engine = Engine::new();
    engine.input(&parse_transactions(csv));

    let a1 = engine.account_map.get(&1).unwrap();
    assert_eq!(a1.available.0, units(2.0));
    assert_eq!(a1.held.0, units(0.0));
    assert_eq!(a1.total.0, units(2.0));
    assert_eq!(a1.locked, false);

    // 2.1 - 1.10001 is exactly 0.99999 in fixed point; it rounds to 1.0 in
    // the four-decimal output.
    let a2 = engine.account_map.get(&2).unwrap();
    assert_eq!(a2.available.0, units(2.1) - units(1.10001));
    assert_eq!(output_value(a2.available.0), 1.0);
    assert_eq!(a2.held.0, 0);
    assert_eq!(output_value(a2.total.0), 1.0);
    assert_eq!(a2.locked, false);
}

/// one withdrawal empties an account another has insufficient funds and leaves balances intact
#[test]
fn insufficient_funds() {
    let csv = "\
type,       client, tx, amount
deposit,    1,      1,  1.0
deposit,    2,      2,  2.0
deposit,    1,      3,  2.0
withdrawal, 1,      4,  3.0
withdrawal, 2,      5,  2.1
";

    let mut engine = Engine::new();
    engine.input(&parse_transactions(csv));

    let a1 = engine.account_map.get(&1).unwrap();
    assert_eq!(a1.available.0, 0);
    assert_eq!(a1.held.0, 0);
    assert_eq!(a1.total.0, 0);
    assert_eq!(a1.locked, false);

    // withdrawal of 2.1 after deposit of 2.0 gets insufficient funds error leaving the total intact
    let a2 = engine.account_map.get(&2).unwrap();
    assert_eq!(a2.available.0, units(2.0));
    assert_eq!(a2.held.0, 0);
    assert_eq!(a2.total.0, units(2.0));
    assert_eq!(a2.locked, false);
}

/// dispute moves funds from available into held, withdrawal above available fails leaving it intact
#[test]
fn dispute() {
    let csv = "\
type,       client, tx, amount
deposit,    1,      1,  1.0
deposit,    1,      2,  2.0
dispute,    1,      1,
withdrawal, 1,      3,  2.1
";

    let mut engine = Engine::new();
    engine.input(&parse_transactions(csv));

    let a1 = engine.account_map.get(&1).unwrap();
    assert_eq!(a1.available.0, units(2.0));
    assert_eq!(a1.held.0, units(1.0));
    assert_eq!(a1.total.0, units(3.0));
    assert_eq!(a1.locked, false);
}

/// resolve after dispute brings available balance back and allows withdrawal
#[test]
fn resolve() {
    let csv = "\
type,       client, tx, amount
deposit,    1,      1,  1.0
dispute,    1,      1,
resolve,    1,      1,
withdrawal, 1,      2,  1.0
";

    let mut engine = Engine::new();
    engine.input(&parse_transactions(csv));

    let a1 = engine.account_map.get(&1).unwrap();
    assert_eq!(a1.available.0, 0);
    assert_eq!(a1.held.0, 0);
    assert_eq!(a1.total.0, 0);
    assert_eq!(a1.locked, false);
}

/// dispute with an explicit amount is ignored as ambiguous
#[test]
fn dispute_with_amount() {
    let csv = "\
type,       client, tx, amount
deposit,    1,      1,  1.0
dispute,    1,      1,  1.0
withdrawal, 1,      2,  1.0
";

    let mut engine = Engine::new();
    engine.input(&parse_transactions(csv));

    let a1 = engine.account_map.get(&1).unwrap();
    assert_eq!(a1.available.0, 0);
    assert_eq!(a1.held.0, 0);
    assert_eq!(a1.total.0, 0);
    assert_eq!(a1.locked, false);
}

/// resolve a non disputed transaction is ignored
#[test]
fn resolve_not_disputed() {
    let csv = "\
type,       client, tx, amount
deposit,    1,      1,  1.0
resolve,    1,      1,
withdrawal, 1,      2,  1.0
";

    let mut engine = Engine::new();
    engine.input(&parse_transactions(csv));

    let a1 = engine.account_map.get(&1).unwrap();
    assert_eq!(a1.available.0, 0);
    assert_eq!(a1.held.0, 0);
    assert_eq!(a1.total.0, 0);
    assert_eq!(a1.locked, false);
}

/// chargeback a non disputed transaction is ignored
#[test]
fn chargeback_not_disputed() {
    let csv = "\
type,       client, tx, amount
deposit,    1,      1,  1.0
chargeback,    1,      1,
withdrawal, 1,      2,  1.0
";

    let mut engine = Engine::new();
    engine.input(&parse_transactions(csv));

    let a1 = engine.account_map.get(&1).unwrap();
    assert_eq!(a1.available.0, 0);
    assert_eq!(a1.held.0, 0);
    assert_eq!(a1.total.0, 0);
    assert_eq!(a1.locked, false);
}

/// disputing a transaction with type other than deposit is ignored
#[test]
fn dispute_not_deposit() {
    let csv = "\
type,       client, tx, amount
deposit,    1,      1,  1.0
withdrawal, 1,      2,  1.0
dispute,    1,      2,
";

    let mut engine = Engine::new();
    engine.input(&parse_transactions(csv));

    let a1 = engine.account_map.get(&1).unwrap();
    assert_eq!(a1.available.0, 0);
    assert_eq!(a1.held.0, 0);
    assert_eq!(a1.total.0, 0);
    assert_eq!(a1.locked, false);
}

/// chargeback locks account, moves from held back to available, prevents withdrawal
#[test]
fn chargeback() {
    let csv = "\
type,       client, tx, amount
deposit,    1,      1,  1.0
deposit,    1,      2,  2.0
dispute,    1,      1,
chargeback, 1,      1,
withdrawal, 1,      3,  2.0
";

    let mut engine = Engine::new();
    engine.input(&parse_transactions(csv));

    let a1 = engine.account_map.get(&1).unwrap();
    assert_eq!(a1.available.0, units(2.0)); // funds intact despite an attempt to withdraw by tx 3
    assert_eq!(a1.held.0, 0);
    assert_eq!(a1.total.0, units(2.0));
    assert_eq!(a1.locked, true);
}

#[test]
fn deserialize_transactions() {
    let csv = "\
type,       client, tx, amount
deposit,         1,  1,    2.0
withdrawal,      2,  2,    1.10001
dispute,         1,  1,
resolve,         1,  1,
chargeback,      1,  1,
";

    let expected = vec![
        Transaction::new(TransactionType::Deposit, 1, 1, Some(units(2.0)), false),
        Transaction::new(TransactionType::Withdrawal, 2, 2, Some(units(1.10001)), false),
        Transaction::new(TransactionType::Dispute, 1, 1, None, false),
        Transaction::new(TransactionType::Resolve, 1, 1, None, false),
        Transaction::new(TransactionType::Chargeback, 1, 1, None, false),
    ];

    let parsed = parse_transactions(csv);
    assert_eq!(parsed.len(), expected.len());
    for (r, e) in parsed.iter().zip(expected.iter()) {
        assert_eq!(r, e);
    }
}

#[test]
fn serialize_accounts() {
    let accounts = vec![
        (
            1u16,
            MoneyAggregate(units(1.0)),
            MoneyAggregate(units(0.1)),
            MoneyAggregate(units(1.10001)), // should round to 1.1
            false,
        ),
        (
            2u16,
            MoneyAggregate(units(2.0)),
            MoneyAggregate(units(0.0001)),
            MoneyAggregate(units(2.0001)),
            true,
        ),
    ];

    let mut writer = csv::WriterBuilder::new().from_writer(vec![]);
    writer
        .write_record(&["client", "available", "held", "total", "locked"])
        .expect("cannot serialize account");
    for (client, available, held, total, locked) in accounts.iter() {
        writer
            .serialize((
                client,
                output_value(available.0),
                output_value(held.0),
                output_value(total.0),
                locked,
            ))
            .expect("cannot serialize account");
    }

    let csv = String::from_utf8(writer.into_inner().unwrap()).unwrap();
    assert_eq!(
        csv,
        "\
client,available,held,total,locked
1,1.0,0.1,1.1,false
2,2.0,0.0001,2.0001,true
"
    )
}
