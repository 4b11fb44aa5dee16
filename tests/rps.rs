use rps_game::error::RpsError;
use rps_game::game::{Game, Player, RPSMove, Winner, GAME_LEN};
use rps_game::instruction::RPSInstruction;
use rps_game::processor::{commit, process_crank, process_instruction, Context, Effect, Reveal};

fn key(b: u8) -> [u8; 32] {
    [b; 32]
}

fn player(id: u8, m: RPSMove) -> Player {
    Player { pubkey: key(id), hash: key(id.wrapping_add(100)), rps_move: m }
}

fn game_with(m1: RPSMove, m2: RPSMove) -> Game {
    Game {
        creator: key(1),
        size: 10,
        token_mint: key(2),
        player_1: player(3, m1),
        player_2: player(4, m2),
    }
}

fn ctx(signer: u8) -> Context {
    Context {
        owned: true,
        signer: key(signer),
        stake: 50,
        asset: key(9),
        reveal_1: Reveal { rps_move: RPSMove::NoMove, salt: key(0) },
        reveal_2: Reveal { rps_move: RPSMove::NoMove, salt: key(0) },
    }
}

fn assert_same_game(a: &Game, b: &Game) {
    assert_eq!(a.creator, b.creator);
    assert_eq!(a.size, b.size);
    assert_eq!(a.token_mint, b.token_mint);
    for (p, q) in [(&a.player_1, &b.player_1), (&a.player_2, &b.player_2)] {
        assert_eq!(p.pubkey, q.pubkey);
        assert_eq!(p.hash, q.hash);
        assert_eq!(p.rps_move, q.rps_move);
    }
}

#[test]
fn winner_table() {
    let w = |a, b| game_with(a, b).winner();
    assert_eq!(w(RPSMove::Rock, RPSMove::Scissors), Ok(Winner::Player1));
    assert_eq!(w(RPSMove::Scissors, RPSMove::Paper), Ok(Winner::Player1));
    assert_eq!(w(RPSMove::Paper, RPSMove::Rock), Ok(Winner::Player1));
    assert_eq!(w(RPSMove::Rock, RPSMove::Paper), Ok(Winner::Player2));
    assert_eq!(w(RPSMove::Rock, RPSMove::Rock), Ok(Winner::Neither));
}

#[test]
fn winner_symmetric_and_draws() {
    let moves = [RPSMove::Rock, RPSMove::Paper, RPSMove::Scissors];
    for a in moves {
        assert_eq!(game_with(a, a).winner(), Ok(Winner::Neither));
        for b in moves {
            let ab = game_with(a, b).winner().unwrap();
            let ba = game_with(b, a).winner().unwrap();
            let swapped = match ab {
                Winner::Neither => Winner::Neither,
                Winner::Player1 => Winner::Player2,
                Winner::Player2 => Winner::Player1,
            };
            assert_eq!(ba, swapped);
        }
    }
}

#[test]
fn winner_needs_both_moves() {
    assert_eq!(game_with(RPSMove::NoMove, RPSMove::Rock).winner(), Err(RpsError::IncompleteMatch));
    assert_eq!(game_with(RPSMove::Paper, RPSMove::NoMove).winner(), Err(RpsError::IncompleteMatch));
}

#[test]
fn move_tags() {
    assert_eq!(RPSMove::from_u8(0), RPSMove::NoMove);
    assert_eq!(RPSMove::from_u8(3), RPSMove::Scissors);
    assert_eq!(RPSMove::Paper.to_u8(), 2);
    assert!(RPSMove::NoMove.is_none());
    assert!(!RPSMove::Rock.is_none());
}

#[test]
fn game_round_trip() {
    let mut g = game_with(RPSMove::Paper, RPSMove::Scissors);
    g.size = 0x0102_0304_0506_0708;
    let bytes = g.pack();
    assert_eq!(bytes.len(), GAME_LEN);
    assert_eq!(&bytes[32..40], &[8, 7, 6, 5, 4, 3, 2, 1]);
    assert_eq!(bytes[136], 2);
    assert_eq!(bytes[201], 3);
    let back = Game::unpack(&bytes).unwrap();
    assert_same_game(&g, &back);
    assert_eq!(back.pack(), bytes);
}

#[test]
fn player_round_trip() {
    let p = player(5, RPSMove::Rock);
    let mut out = Vec::new();
    p.pack_into(&mut out);
    assert_eq!(out.len(), 65);
    assert_eq!(out[64], 1);
    let back = Player::unpack_at(&out, 0).unwrap();
    assert_eq!(back.pubkey, p.pubkey);
    assert_eq!(back.hash, p.hash);
    assert_eq!(back.rps_move, p.rps_move);
}

#[test]
fn game_unpack_errors() {
    assert_eq!(Game::unpack(&[0u8; 201]).err(), Some(RpsError::TruncatedInput));
    let mut bytes = vec![0u8; GAME_LEN];
    bytes[201] = 4;
    assert_eq!(Game::unpack(&bytes).err(), Some(RpsError::InvalidMoveTag));
    let long = vec![0u8; GAME_LEN + 5];
    assert!(Game::unpack(&long).is_ok());
}

#[test]
fn instruction_decoding() {
    assert!(matches!(RPSInstruction::unpack(&[2]), Ok(RPSInstruction::Crank)));
    assert!(matches!(RPSInstruction::unpack(&[3, 9, 9]), Ok(RPSInstruction::WithdrawFees)));
    let mut data = vec![1u8];
    data.extend((0..32).map(|i| i as u8));
    match RPSInstruction::unpack(&data) {
        Ok(RPSInstruction::PlaceChallenge { hash }) => assert_eq!(hash.to_vec(), data[1..].to_vec()),
        other => panic!("unexpected {:?}", other),
    }
    data[0] = 0;
    match RPSInstruction::unpack(&data) {
        Ok(RPSInstruction::Init { withdraw_fee_authority }) => {
            assert_eq!(withdraw_fee_authority.to_vec(), data[1..].to_vec())
        }
        other => panic!("unexpected {:?}", other),
    }
    assert_eq!(RPSInstruction::unpack(&[]).err(), Some(RpsError::EmptyInstruction));
    assert_eq!(RPSInstruction::unpack(&[1; 11]).err(), Some(RpsError::TruncatedOperand));
    assert_eq!(RPSInstruction::unpack(&[0; 32]).err(), Some(RpsError::TruncatedOperand));
    assert_eq!(RPSInstruction::unpack(&[9]).err(), Some(RpsError::UnknownInstruction));
    assert_eq!(RPSInstruction::unpack(&[4]).err(), Some(RpsError::UnknownInstruction));
}

#[test]
fn commitment_is_sha256_of_tag_and_salt() {
    let c = commit(RPSMove::Rock, &key(7));
    let expected: [u8; 32] = [
        211, 144, 124, 2, 71, 231, 233, 139, 114, 51, 138, 0, 216, 114, 68, 36, 141, 247, 30,
        179, 19, 88, 157, 162, 144, 212, 90, 223, 186, 68, 230, 210,
    ];
    assert_eq!(c, expected);
    assert_ne!(commit(RPSMove::Paper, &key(7)), c);
}

fn instr(tag: u8, operand: [u8; 32]) -> Vec<u8> {
    let mut v = vec![tag];
    v.extend_from_slice(&operand);
    v
}

#[test]
fn end_to_end_match() {
    let authority = 11u8;
    let mut record = vec![0u8; GAME_LEN];
    let init = instr(0, key(authority));
    assert_eq!(process_instruction(&ctx(authority), &mut record, &init), Ok(Effect::Nothing));
    let g = Game::unpack(&record).unwrap();
    assert_eq!(g.creator, key(authority));
    assert_eq!(g.size, 50);
    assert_eq!(g.token_mint, key(9));

    let salt_1 = key(21);
    let salt_2 = key(22);
    let c1 = commit(RPSMove::Rock, &salt_1);
    let c2 = commit(RPSMove::Scissors, &salt_2);
    assert_eq!(process_instruction(&ctx(31), &mut record, &instr(1, c1)), Ok(Effect::Nothing));
    assert_eq!(process_instruction(&ctx(32), &mut record, &instr(1, c2)), Ok(Effect::Nothing));

    let mut crank = ctx(40);
    crank.reveal_1 = Reveal { rps_move: RPSMove::Rock, salt: salt_1 };
    crank.reveal_2 = Reveal { rps_move: RPSMove::Scissors, salt: salt_2 };
    let effect = process_instruction(&crank, &mut record, &[2]);
    assert_eq!(effect, Ok(Effect::Payout { to: Winner::Player1, amount: 100 }));
    let g = Game::unpack(&record).unwrap();
    assert_eq!(g.player_1.pubkey, key(31));
    assert_eq!(g.player_1.rps_move, RPSMove::Rock);
    assert_eq!(g.player_2.rps_move, RPSMove::Scissors);
    assert_eq!(g.winner(), Ok(Winner::Player1));

    assert_eq!(process_instruction(&ctx(authority), &mut record, &[3]), Ok(Effect::Close));
    assert_eq!(record, vec![0u8; GAME_LEN]);
    let before = record.clone();
    assert_eq!(
        process_instruction(&ctx(authority), &mut record, &[3]),
        Err(RpsError::NotResolved)
    );
    assert_eq!(record, before);
}

fn full_match_record() -> Vec<u8> {
    let mut g = game_with(RPSMove::NoMove, RPSMove::NoMove);
    g.player_1.hash = commit(RPSMove::Paper, &key(1));
    g.player_2.hash = commit(RPSMove::Paper, &key(2));
    g.pack()
}

#[test]
fn place_challenge_on_occupied_slot() {
    let mut record = full_match_record();
    let before = record.clone();
    let r = process_instruction(&ctx(50), &mut record, &instr(1, key(5)));
    assert_eq!(r, Err(RpsError::SlotOccupied));
    assert_eq!(record, before);
}

#[test]
fn crank_before_both_committed() {
    let mut g = game_with(RPSMove::NoMove, RPSMove::NoMove);
    g.player_2.pubkey = key(0);
    let mut record = g.pack();
    let before = record.clone();
    assert_eq!(process_instruction(&ctx(1), &mut record, &[2]), Err(RpsError::IncompleteMatch));
    assert_eq!(record, before);
}

#[test]
fn withdraw_by_non_authority() {
    let mut record = game_with(RPSMove::Rock, RPSMove::Paper).pack();
    let before = record.clone();
    assert_eq!(process_instruction(&ctx(77), &mut record, &[3]), Err(RpsError::AccessDenied));
    assert_eq!(record, before);
    assert_eq!(process_instruction(&ctx(1), &mut record, &[3]), Ok(Effect::Close));
}

#[test]
fn withdraw_before_resolution() {
    let mut record = full_match_record();
    assert_eq!(process_instruction(&ctx(1), &mut record, &[3]), Err(RpsError::NotResolved));
}

#[test]
fn init_errors() {
    let mut record = full_match_record();
    let before = record.clone();
    let init = instr(0, key(1));
    assert_eq!(process_instruction(&ctx(1), &mut record, &init), Err(RpsError::AlreadyInitialized));
    assert_eq!(record, before);
    let mut fresh = vec![0u8; GAME_LEN];
    let mut c = ctx(1);
    c.asset = key(0);
    assert_eq!(process_instruction(&c, &mut fresh, &init), Err(RpsError::InvalidAsset));
    c = ctx(1);
    c.owned = false;
    assert_eq!(process_instruction(&c, &mut fresh, &init), Err(RpsError::AccessDenied));
    assert_eq!(fresh, vec![0u8; GAME_LEN]);
}

#[test]
fn record_errors_leave_bytes() {
    let mut short = vec![0u8; 100];
    assert_eq!(process_instruction(&ctx(1), &mut short, &[2]), Err(RpsError::TruncatedInput));
    assert_eq!(short, vec![0u8; 100]);
    let mut bad = vec![0u8; GAME_LEN];
    bad[136] = 7;
    assert_eq!(process_instruction(&ctx(1), &mut bad, &[2]), Err(RpsError::InvalidMoveTag));
    let mut record = vec![0u8; GAME_LEN];
    assert_eq!(process_instruction(&ctx(1), &mut record, &[]), Err(RpsError::EmptyInstruction));
    assert_eq!(process_instruction(&ctx(1), &mut record, &[8]), Err(RpsError::UnknownInstruction));
}

#[test]
fn trailing_record_bytes_are_kept() {
    let mut record = vec![0u8; GAME_LEN + 3];
    record[GAME_LEN] = 5;
    record[GAME_LEN + 2] = 6;
    assert_eq!(process_instruction(&ctx(1), &mut record, &instr(0, key(1))), Ok(Effect::Nothing));
    assert_eq!(&record[GAME_LEN..], &[5, 0, 6]);
}

#[test]
fn place_challenge_uninitialized_and_zero_signer() {
    let mut record = vec![0u8; GAME_LEN];
    assert_eq!(process_instruction(&ctx(3), &mut record, &instr(1, key(5))), Err(RpsError::NotInitialized));
    let mut g = game_with(RPSMove::NoMove, RPSMove::NoMove);
    g.player_2.pubkey = key(0);
    let mut record = g.pack();
    assert_eq!(process_instruction(&ctx(0), &mut record, &instr(1, key(5))), Err(RpsError::AccessDenied));
    assert_eq!(process_instruction(&ctx(8), &mut record, &instr(1, key(5))), Ok(Effect::Nothing));
    let after = Game::unpack(&record).unwrap();
    assert_eq!(after.player_2.pubkey, key(8));
    assert_eq!(after.player_2.hash, key(5));
    assert_eq!(after.player_1.pubkey, key(3));
}

#[test]
fn crank_outcomes() {
    let g = Game::unpack(&full_match_record()).unwrap();
    let mut c = ctx(1);
    c.reveal_1 = Reveal { rps_move: RPSMove::Paper, salt: key(1) };
    c.reveal_2 = Reveal { rps_move: RPSMove::Paper, salt: key(2) };
    let (next, effect) = process_crank(&c, &g).unwrap();
    assert_eq!(effect, Effect::Refund { amount: 10 });
    assert_eq!(next.winner(), Ok(Winner::Neither));
    assert_eq!(process_crank(&c, &next).err(), Some(RpsError::AlreadyResolved));
    c.reveal_2 = Reveal { rps_move: RPSMove::Rock, salt: key(2) };
    assert_eq!(process_crank(&c, &g).err(), Some(RpsError::CommitmentMismatch));
    let mut big = g;
    big.size = u64::MAX;
    c.reveal_2 = Reveal { rps_move: RPSMove::Paper, salt: key(2) };
    assert!(process_crank(&c, &big).is_ok());
    big.player_2.hash = commit(RPSMove::Scissors, &key(2));
    c.reveal_2 = Reveal { rps_move: RPSMove::Scissors, salt: key(2) };
    assert_eq!(process_crank(&c, &big).err(), Some(RpsError::StakeOverflow));
}

#[test]
fn resolve_with_given_digests() {
    let g = game_with(RPSMove::NoMove, RPSMove::NoMove);
    let (next, effect) = g.resolve(RPSMove::Scissors, &key(103), RPSMove::Rock, &key(104)).unwrap();
    assert_eq!(effect, Effect::Payout { to: Winner::Player2, amount: 20 });
    assert_eq!(next.player_1.rps_move, RPSMove::Scissors);
    assert_eq!(g.resolve(RPSMove::NoMove, &key(103), RPSMove::Rock, &key(104)).err(), Some(RpsError::CommitmentMismatch));
    assert_eq!(g.resolve(RPSMove::Rock, &key(104), RPSMove::Rock, &key(104)).err(), Some(RpsError::CommitmentMismatch));
}

#[test]
fn player_pack_and_unpack() {
    let p = player(6, RPSMove::Scissors);
    let bytes = p.pack();
    assert_eq!(bytes.len(), 65);
    assert_eq!(&bytes[0..32], &[6u8; 32]);
    assert_eq!(&bytes[32..64], &[106u8; 32]);
    assert_eq!(bytes[64], 3);
    let back = Player::unpack(&bytes).unwrap();
    assert_eq!(back.pubkey, p.pubkey);
    assert_eq!(back.hash, p.hash);
    assert_eq!(back.rps_move, RPSMove::Scissors);
    assert_eq!(Player::unpack(&bytes[..64]).err(), Some(RpsError::TruncatedInput));
    let mut bad = bytes.clone();
    bad[64] = 200;
    assert_eq!(Player::unpack(&bad).err(), Some(RpsError::InvalidMoveTag));
    assert!(!Player::unpack(&[0u8; 65]).unwrap().is_initialized());
    assert!(back.is_initialized());
}
