use gluex::{
    add_donation, add_maintainer, create_fee_pool, distribute_fees, set_fee_params, split_fees,
    trim_fixed_string, FeePool, GluXError, Pubkey,
};

fn key(b: u8) -> Pubkey {
    Pubkey::new_from_array([b; 32])
}

fn pool_with(n: u8) -> FeePool {
    let mut pool = create_fee_pool(key(1), 250);
    for i in 0..n {
        add_maintainer(&mut pool, &key(1), key(10 + i)).unwrap();
    }
    pool
}

#[test]
fn new_pool_defaults() {
    let pool = create_fee_pool(key(1), 250);
    assert_eq!(pool.founder, key(1));
    assert!(pool.maintainers.is_empty());
    assert_eq!((pool.protocol_fee_numerator, pool.protocol_fee_denominator), (1, 1000));
    assert!(pool.donations.is_empty());
    assert_eq!(pool.bump, 250);
    assert_eq!(FeePool::seeds(), b"gluex-fee-pool".to_vec());
}

#[test]
fn maintainers_roster_rules() {
    let mut pool = create_fee_pool(key(1), 250);
    assert_eq!(add_maintainer(&mut pool, &key(2), key(3)), Err(GluXError::UnauthorizedSigner));
    assert_eq!(add_maintainer(&mut pool, &key(1), key(3)), Ok(()));
    assert_eq!(add_maintainer(&mut pool, &key(1), key(3)), Ok(()));
    assert_eq!(pool.maintainers, vec![key(3)]);
    for i in 0..9 {
        add_maintainer(&mut pool, &key(1), key(20 + i)).unwrap();
    }
    assert_eq!(pool.maintainers.len(), 10);
    assert_eq!(add_maintainer(&mut pool, &key(1), key(99)), Err(GluXError::MaxMaintainersReached));
    assert_eq!(pool.maintainers.len(), 10);
    assert_eq!(pool.maintainers[1], key(20));
}

#[test]
fn fee_params_rules() {
    let mut pool = create_fee_pool(key(1), 250);
    assert_eq!(set_fee_params(&mut pool, &key(2), 1, 100), Err(GluXError::UnauthorizedSigner));
    assert_eq!(set_fee_params(&mut pool, &key(1), 1, 0), Err(GluXError::HabitConfigInvalid));
    assert_eq!((pool.protocol_fee_numerator, pool.protocol_fee_denominator), (1, 1000));
    assert_eq!(set_fee_params(&mut pool, &key(1), 3, 100), Ok(()));
    assert_eq!((pool.protocol_fee_numerator, pool.protocol_fee_denominator), (3, 100));
}

#[test]
fn split_formula() {
    assert_eq!(split_fees(1000, 0), (1000, 0));
    assert_eq!(split_fees(1001, 1), (500, 501));
    assert_eq!(split_fees(1001, 2), (501, 250));
    assert_eq!(split_fees(1000, 3), (502, 166));
    assert_eq!(split_fees(1, 5), (1, 0));
}

#[test]
fn distribution_with_many_maintainers_leaves_no_dust() {
    let pool = pool_with(3);
    let mut balance: u64 = 1000;
    let mut founder: u64 = 7;
    let mut dests: Vec<u64> = vec![0, 10, 20];
    assert_eq!(distribute_fees(&pool, &mut balance, &mut founder, &mut dests), Ok(()));
    assert_eq!(balance, 0);
    assert_eq!(founder, 7 + 502);
    assert_eq!(dests, vec![166, 176, 186]);
    assert_eq!((founder - 7) + (dests.iter().sum::<u64>() - 30), 1000);
}

#[test]
fn distribution_edge_cases() {
    let solo = pool_with(0);
    let mut balance: u64 = 99;
    let mut founder: u64 = 0;
    let mut none: Vec<u64> = vec![];
    assert_eq!(distribute_fees(&solo, &mut balance, &mut founder, &mut none), Ok(()));
    assert_eq!((balance, founder), (0, 99));
    assert_eq!(distribute_fees(&solo, &mut balance, &mut founder, &mut none), Err(GluXError::NoFundsAvailable));

    let pair = pool_with(1);
    let mut balance: u64 = 99;
    let mut founder: u64 = 0;
    let mut one: Vec<u64> = vec![0];
    assert_eq!(distribute_fees(&pair, &mut balance, &mut founder, &mut one), Ok(()));
    assert_eq!((founder, one[0]), (49, 50));

    let trio = pool_with(2);
    let mut balance: u64 = 10;
    let mut founder: u64 = 0;
    let mut two: Vec<u64> = vec![0, u64::MAX];
    assert_eq!(distribute_fees(&trio, &mut balance, &mut founder, &mut two), Err(GluXError::NoFundsAvailable));
    assert_eq!((balance, founder), (10, 0));
    assert_eq!(two, vec![0, u64::MAX]);
}

#[test]
fn donations_are_logged() {
    let mut pool = create_fee_pool(key(1), 250);
    add_donation(&mut pool, key(5), 1234, 42, "USDC");
    add_donation(&mut pool, key(6), 1, 43, "SOLANA-NATIVE");
    assert_eq!(pool.donations.len(), 2);
    assert_eq!(pool.donations[0].donor, key(5));
    assert_eq!(pool.donations[0].amount, 1234);
    assert_eq!(pool.donations[0].ts, 42);
    assert_eq!(pool.donations[0].currency, *b"USDC\0\0\0\0");
    assert_eq!(trim_fixed_string(&pool.donations[1].currency), "SOLANA-N");
}
