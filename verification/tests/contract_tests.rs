use the_resistance::contract::TheResistanceContract;
use the_resistance::identity::Identity;
use the_resistance::proof_check::PROOF_BYTES;
use the_resistance::{Error, BASES_PER_PLAYER, TOTAL_STARS};

fn identity(tag: u8) -> Identity {
    let mut key = vec![0u8; 32];
    key[0] = tag;
    Identity::new(key)
}

fn setup_test() -> (TheResistanceContract, Identity, Identity) {
    let admin = identity(100);
    let hub = identity(101);
    let dummy_vk = vec![0u8; 64];
    let contract = TheResistanceContract::new(admin, hub, dummy_vk);
    (contract, identity(1), identity(2))
}

fn fake_commitment(seed: u8) -> [u8; 32] {
    let mut bytes = [0u8; 32];
    bytes[0] = seed;
    bytes[31] = seed;
    bytes
}

fn assert_resistance_error<T: std::fmt::Debug>(result: &Result<T, Error>, expected_error: Error) {
    match result {
        Err(actual_error) => {
            assert_eq!(
                *actual_error,
                expected_error,
                "Expected error {:?} (code {}), but got {:?} (code {})",
                expected_error,
                expected_error.code(),
                actual_error,
                actual_error.code()
            );
        }
        Ok(_) => {
            panic!(
                "Expected error {:?} (code {}), but operation succeeded",
                expected_error,
                expected_error.code()
            );
        }
    }
}

#[test]
fn test_start_game() {
    let (mut client, player1, player2) = setup_test();

    let session_id = 1u32;
    let points = 100_0000000;
    let p1_commitment = fake_commitment(1);
    let p2_commitment = fake_commitment(2);

    client
        .start_game(
            session_id,
            player1.clone(),
            player2.clone(),
            points,
            points,
            p1_commitment,
            p2_commitment,
        )
        .unwrap();

    let game = client.get_game(session_id).unwrap();
    assert_eq!(game.player1, player1);
    assert_eq!(game.player2, player2);
    assert_eq!(game.player1_points, points);
    assert_eq!(game.player2_points, points);
    assert_eq!(game.player1_commitment, p1_commitment);
    assert_eq!(game.player2_commitment, p2_commitment);
    assert_eq!(game.player1_found, 0);
    assert_eq!(game.player2_found, 0);
    assert_eq!(game.current_turn, player1);
    assert!(game.winner.is_none());
    assert!(game.player1_scanned.is_empty());
    assert!(game.player2_scanned.is_empty());
    assert!(game.player1_arms_struck.is_empty());
    assert!(game.player2_arms_struck.is_empty());
    assert!(game.is_well_formed());
}

#[test]
fn test_multiple_sessions() {
    let (mut client, player1, player2) = setup_test();
    let player3 = identity(3);
    let player4 = identity(4);

    let session1 = 1u32;
    let session2 = 2u32;

    client
        .start_game(
            session1,
            player1.clone(),
            player2,
            100_0000000,
            100_0000000,
            fake_commitment(1),
            fake_commitment(2),
        )
        .unwrap();
    client
        .start_game(
            session2,
            player3.clone(),
            player4,
            50_0000000,
            50_0000000,
            fake_commitment(3),
            fake_commitment(4),
        )
        .unwrap();

    let game1 = client.get_game(session1).unwrap();
    let game2 = client.get_game(session2).unwrap();

    assert_eq!(game1.player1, player1);
    assert_eq!(game2.player1, player3);
    assert_eq!(game1.player1_points, 100_0000000);
    assert_eq!(game2.player1_points, 50_0000000);
}

#[test]
#[should_panic(expected = "Cannot play against yourself")]
fn test_cannot_self_play() {
    let (mut client, player1, _player2) = setup_test();

    client
        .start_game(
            1u32,
            player1.clone(),
            player1,
            100_0000000,
            100_0000000,
            fake_commitment(1),
            fake_commitment(1),
        )
        .expect("Cannot play against yourself");
}

#[test]
fn test_self_play_leaves_no_record() {
    let (mut client, player1, _player2) = setup_test();

    let result = client.start_game(
        1u32,
        player1.clone(),
        player1,
        100_0000000,
        100_0000000,
        fake_commitment(1),
        fake_commitment(1),
    );
    assert_resistance_error(&result, Error::SelfPlay);
    assert_resistance_error(&client.get_game(1), Error::GameNotFound);
}

#[test]
fn test_game_not_found() {
    let (client, _player1, _player2) = setup_test();

    let result = client.get_game(999);
    assert_resistance_error(&result, Error::GameNotFound);
    assert_resistance_error(&client.get_current_turn(999), Error::GameNotFound);
    assert_resistance_error(&client.get_scans(999, &identity(1)), Error::GameNotFound);
    assert_resistance_error(&client.get_found_count(999, &identity(1)), Error::GameNotFound);
}

#[test]
fn test_get_current_turn() {
    let (mut client, player1, player2) = setup_test();

    client
        .start_game(
            1u32,
            player1.clone(),
            player2,
            100_0000000,
            100_0000000,
            fake_commitment(1),
            fake_commitment(2),
        )
        .unwrap();

    let turn = client.get_current_turn(1u32).unwrap();
    assert_eq!(turn, player1);
}

#[test]
fn test_get_scans_empty() {
    let (mut client, player1, player2) = setup_test();

    client
        .start_game(
            1u32,
            player1.clone(),
            player2,
            100_0000000,
            100_0000000,
            fake_commitment(1),
            fake_commitment(2),
        )
        .unwrap();

    let scans = client.get_scans(1u32, &player1).unwrap();
    assert_eq!(scans.len(), 0);
}

#[test]
fn test_get_found_count_initial() {
    let (mut client, player1, player2) = setup_test();

    client
        .start_game(
            1u32,
            player1.clone(),
            player2,
            100_0000000,
            100_0000000,
            fake_commitment(1),
            fake_commitment(2),
        )
        .unwrap();

    let found = client.get_found_count(1u32, &player1).unwrap();
    assert_eq!(found, 0);
}

#[test]
fn test_not_player_error_on_scans() {
    let (mut client, player1, player2) = setup_test();
    let non_player = identity(9);

    client
        .start_game(
            1u32,
            player1,
            player2,
            100_0000000,
            100_0000000,
            fake_commitment(1),
            fake_commitment(2),
        )
        .unwrap();

    let result = client.get_scans(1u32, &non_player);
    assert_resistance_error(&result, Error::NotPlayer);
    assert_resistance_error(&client.get_found_count(1u32, &non_player), Error::NotPlayer);
}

#[test]
fn test_admin_functions() {
    let admin = identity(100);
    let new_admin = identity(102);
    let hub_addr = identity(101);
    let new_hub = identity(103);
    let dummy_vk = vec![0u8; 64];

    let mut client = TheResistanceContract::new(admin.clone(), hub_addr.clone(), dummy_vk);

    assert_eq!(client.get_admin(), admin);

    client.set_admin(new_admin.clone());
    assert_eq!(client.get_admin(), new_admin);

    assert_eq!(client.get_hub(), hub_addr);

    client.set_hub(new_hub.clone());
    assert_eq!(client.get_hub(), new_hub);
}

#[test]
fn test_set_vk() {
    let admin = identity(100);
    let hub_addr = identity(101);
    let dummy_vk = vec![0u8; 64];
    let new_vk = vec![1u8; 128];

    let mut client = TheResistanceContract::new(admin, hub_addr, dummy_vk.clone());
    assert_eq!(client.get_vk(), dummy_vk);

    client.set_vk(new_vk.clone());
    assert_eq!(client.get_vk(), new_vk);
}

#[test]
fn test_constants() {
    assert_eq!(TOTAL_STARS, 200);
    assert_eq!(BASES_PER_PLAYER, 10);
}

#[test]
fn test_scan_invalid_star_id() {
    let (mut client, player1, player2) = setup_test();

    client
        .start_game(
            1u32,
            player1.clone(),
            player2,
            100_0000000,
            100_0000000,
            fake_commitment(1),
            fake_commitment(2),
        )
        .unwrap();

    let fake_proof = vec![0u8; 32];
    let result = client.scan(1u32, &player1, 200, &fake_proof, false);
    assert_resistance_error(&result, Error::InvalidStarId);
}

#[test]
fn test_scan_invalid_proof_length() {
    let (mut client, player1, player2) = setup_test();

    client
        .start_game(
            1u32,
            player1.clone(),
            player2,
            100_0000000,
            100_0000000,
            fake_commitment(1),
            fake_commitment(2),
        )
        .unwrap();

    let fake_proof = vec![0u8; 32];
    let result = client.scan(1u32, &player1, 50, &fake_proof, false);
    assert_resistance_error(&result, Error::InvalidProof);
}

#[test]
fn test_scan_not_your_turn() {
    let (mut client, player1, player2) = setup_test();

    client
        .start_game(
            1u32,
            player1,
            player2.clone(),
            100_0000000,
            100_0000000,
            fake_commitment(1),
            fake_commitment(2),
        )
        .unwrap();

    let fake_proof = vec![0u8; PROOF_BYTES];
    let result = client.scan(1u32, &player2, 50, &fake_proof, false);
    assert_resistance_error(&result, Error::NotYourTurn);
}

#[test]
fn test_scan_game_not_found() {
    let (mut client, player1, _player2) = setup_test();

    let fake_proof = vec![0u8; PROOF_BYTES];
    let result = client.scan(999, &player1, 50, &fake_proof, false);
    assert_resistance_error(&result, Error::GameNotFound);
}
