use gluex::{
    account_discriminator, check_migration_target, create_fee_pool, goal_seeds, id_to_le_bytes,
    migrate_fee_pool, migrate_total_goal, migrated_goal, pool_seeds, write_record, EventType,
    GluXError, Pubkey, SubGoalStatus,
};
use solana_program::pubkey::Pubkey as ChainKey;

fn key(b: u8) -> Pubkey {
    Pubkey::new_from_array([b; 32])
}

fn derive(seeds: &Vec<Vec<u8>>, program: &Pubkey) -> Pubkey {
    let refs: Vec<&[u8]> = seeds.iter().map(|s| s.as_slice()).collect();
    let program = ChainKey::new_from_array(program.bytes);
    let found = ChainKey::create_program_address(&refs, &program).unwrap();
    Pubkey::new_from_array(found.to_bytes())
}

fn goal_bump(issuer: &Pubkey, taker: &Pubkey, id: i64, program: &Pubkey) -> u8 {
    let id_bytes = id.to_le_bytes();
    let seeds: [&[u8]; 4] = [b"gluex-goals", &issuer.bytes, &taker.bytes, &id_bytes];
    ChainKey::find_program_address(&seeds, &ChainKey::new_from_array(program.bytes)).1
}

#[test]
fn discriminators_of_record_types() {
    assert_eq!(account_discriminator(b"TotalGoal"), vec![72, 64, 113, 26, 170, 125, 93, 94]);
    assert_eq!(account_discriminator(b"FeePool"), vec![172, 38, 77, 146, 148, 5, 51, 242]);
}

#[test]
fn id_bytes_are_little_endian() {
    assert_eq!(id_to_le_bytes(1), vec![1, 0, 0, 0, 0, 0, 0, 0]);
    assert_eq!(id_to_le_bytes(0x0102), vec![2, 1, 0, 0, 0, 0, 0, 0]);
    assert_eq!(id_to_le_bytes(-1), vec![255; 8]);
    assert_eq!(id_to_le_bytes(i64::MIN), i64::MIN.to_le_bytes().to_vec());
    assert_eq!(id_to_le_bytes(i64::MAX), i64::MAX.to_le_bytes().to_vec());
}

#[test]
fn goal_seeds_layout() {
    let seeds = goal_seeds(&key(1), &key(2), 5, 254);
    assert_eq!(seeds.len(), 5);
    assert_eq!(seeds[0], b"gluex-goals".to_vec());
    assert_eq!(seeds[1], vec![1u8; 32]);
    assert_eq!(seeds[2], vec![2u8; 32]);
    assert_eq!(seeds[3], 5i64.to_le_bytes().to_vec());
    assert_eq!(seeds[4], vec![254]);
    assert_eq!(pool_seeds(3), vec![b"gluex-fee-pool".to_vec(), vec![3]]);
}

#[test]
fn record_is_framed_and_zeroed() {
    let mut data = vec![9u8; 12];
    assert_eq!(write_record(&mut data, &[1, 2], &[3, 4, 5]), Ok(()));
    assert_eq!(data, vec![1, 2, 3, 4, 5, 0, 0, 0, 0, 0, 0, 0]);
    let mut small = vec![9u8; 4];
    assert_eq!(write_record(&mut small, &[1, 2], &[3, 4, 5]), Err(GluXError::RecordTooSmall));
    assert_eq!(small, vec![9u8; 4]);
    let mut exact = vec![9u8; 5];
    assert_eq!(write_record(&mut exact, &[1, 2], &[3, 4, 5]), Ok(()));
    assert_eq!(exact, vec![1, 2, 3, 4, 5]);
}

#[test]
fn migration_target_checks() {
    let program = key(7);
    assert_eq!(check_migration_target(&key(8), &program, &key(3), Some(key(3))), Err(GluXError::UnauthorizedSigner));
    assert_eq!(check_migration_target(&program, &program, &key(3), None), Err(GluXError::ParsePubkeyError));
    assert_eq!(check_migration_target(&program, &program, &key(3), Some(key(4))), Err(GluXError::ParsePubkeyError));
    assert_eq!(check_migration_target(&program, &program, &key(3), Some(key(3))), Ok(()));
}

#[test]
fn goal_record_migrates_in_place() {
    let program = key(7);
    let (issuer, taker, id) = (key(1), key(2), 42i64);
    let bump = goal_bump(&issuer, &taker, id, &program);
    let target = derive(&goal_seeds(&issuer, &taker, id, bump), &program);
    let mut data = vec![0xAAu8; 64];
    let body = vec![5u8; 10];
    assert_eq!(
        migrate_total_goal(&program, &program, &target, &mut data, &issuer, &taker, id, bump, &body),
        Ok(())
    );
    assert_eq!(&data[..8], &[72, 64, 113, 26, 170, 125, 93, 94]);
    assert_eq!(&data[8..18], &body[..]);
    assert!(data[18..].iter().all(|b| *b == 0));

    let mut untouched = vec![0xAAu8; 64];
    assert_eq!(
        migrate_total_goal(&program, &program, &key(9), &mut untouched, &issuer, &taker, id, bump, &body),
        Err(GluXError::ParsePubkeyError)
    );
    assert_eq!(
        migrate_total_goal(&key(8), &program, &target, &mut untouched, &issuer, &taker, id, bump, &body),
        Err(GluXError::UnauthorizedSigner)
    );
    let mut tiny = vec![0xAAu8; 12];
    assert_eq!(
        migrate_total_goal(&program, &program, &target, &mut tiny, &issuer, &taker, id, bump, &body),
        Err(GluXError::RecordTooSmall)
    );
    assert_eq!(untouched, vec![0xAAu8; 64]);
    assert_eq!(tiny, vec![0xAAu8; 12]);
}

#[test]
fn pool_record_migrates_in_place() {
    let program = key(7);
    let seeds: [&[u8]; 1] = [b"gluex-fee-pool"];
    let bump = ChainKey::find_program_address(&seeds, &ChainKey::new_from_array(program.bytes)).1;
    let target = derive(&pool_seeds(bump), &program);
    let mut data = vec![1u8; 20];
    assert_eq!(migrate_fee_pool(&program, &program, &target, &mut data, bump, &[9, 9]), Ok(()));
    assert_eq!(data[..10].to_vec(), vec![172, 38, 77, 146, 148, 5, 51, 242, 9, 9]);
    assert!(data[10..].iter().all(|b| *b == 0));
    let _ = create_fee_pool(key(1), bump);
}

#[test]
fn fresh_goal_keeps_identity_only() {
    let goal = migrated_goal(key(1), key(2), 9, 77);
    assert_eq!((goal.issuer, goal.taker, goal.id, goal.bump), (key(1), key(2), 9, 77));
    assert_eq!(goal.version, 1);
    assert!(goal.description.is_empty());
    assert_eq!(goal.eventype, EventType::HabitTraining);
    assert_eq!(goal.active_sub_goals, 0);
    assert_eq!(goal.deposited_amount, 0);
    assert!(goal.sub_goals.iter().all(|s| !s.is_active && s.status == SubGoalStatus::Pending));
}
