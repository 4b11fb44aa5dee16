use crate::error::RpsError;
use crate::game::{
    decode_game, game_bytes, lemma_game_round_trip, game_tags_valid, move_tag, outcome, push_key, zero_key, Game,
    GameView, Player, PlayerView, RPSMove, Winner, GAME_LEN, key_is_zero, keys_equal,
};
use crate::instruction::{decode_instruction, instruction_error, InstructionView, RPSInstruction};
use vstd::prelude::*;

verus! {

/// A player's reveal: the move and the salt that went into the commitment.
#[derive(Clone, Copy, Debug)]
pub struct Reveal {
    pub rps_move: RPSMove,
    pub salt: [u8; 32],
}

/// Facts that the storage, signer and reveal layers supply for one transition.
#[derive(Clone, Copy, Debug)]
pub struct Context {
    /// The record is owned by, and writable for, this program.
    pub owned: bool,
    /// Identity of the transaction's signer.
    pub signer: [u8; 32],
    /// Stake per player that `Init` records.
    pub stake: u64,
    /// Asset of the stake that `Init` records.
    pub asset: [u8; 32],
    /// Player one's reveal, read by `Crank`.
    pub reveal_1: Reveal,
    /// Player two's reveal, read by `Crank`.
    pub reveal_2: Reveal,
}

/// What the payout layer must carry out once the new record is persisted.
#[derive(Clone, Copy, Debug, PartialEq, Eq, Structural)]
pub enum Effect {
    /// No transfer.
    Nothing,
    /// Transfer `amount` of the asset to the winning player.
    Payout { to: Winner, amount: u64 },
    /// Return `amount` of the asset to each player.
    Refund { amount: u64 },
    /// Transfer the residual fees to the authority and reclaim the record.
    Close,
}

/// SHA-256 of a byte string.
pub uninterp spec fn sha256_of(data: Seq<u8>) -> Seq<u8>;

/// Relies on solana_program::hash::hash: SHA-256 of the bytes, a function of the bytes alone.
#[verifier::external_body]
fn sha256(data: &[u8]) -> (r: [u8; 32])
    ensures
        r@ == sha256_of(data@),
{
    solana_program::hash::hash(data).to_bytes()
}

/// The commitment to a move under a salt: the hash of the move tag followed by the salt.
pub open spec fn commitment_of(m: RPSMove, salt: Seq<u8>) -> Seq<u8> {
    sha256_of(seq![move_tag(m)] + salt)
}

/// Computes the commitment a player places for `m` under `salt`.
pub fn commit(m: RPSMove, salt: &[u8; 32]) -> (r: [u8; 32])
    ensures
        r@ == commitment_of(m, salt@),
{
    let mut data: Vec<u8> = Vec::new();
    data.push(m.to_u8());
    push_key(&mut data, salt);
    assert(data@ =~= seq![move_tag(m)] + salt@);
    sha256(data.as_slice())
}

/// A free player slot.
pub open spec fn empty_player() -> PlayerView {
    PlayerView { pubkey: zero_key(), hash: zero_key(), rps_move: RPSMove::NoMove }
}

/// The record after `WithdrawFees`: all zero, hence uninitialized and reclaimable.
pub open spec fn closed_game() -> GameView {
    GameView {
        creator: zero_key(),
        size: 0,
        token_mint: zero_key(),
        player_1: empty_player(),
        player_2: empty_player(),
    }
}

/// Both moves are set.
pub open spec fn is_resolved(g: GameView) -> bool {
    g.is_initialized() && g.player_1.rps_move != RPSMove::NoMove && g.player_2.rps_move
        != RPSMove::NoMove
}

/// `Init`: the record before and the authority operand give the record after, or the error.
pub open spec fn spec_init(ctx: Context, g: GameView, authority: Seq<u8>) -> Result<
    GameView,
    RpsError,
> {
    if !ctx.owned {
        Err(RpsError::AccessDenied)
    } else if g.is_initialized() {
        Err(RpsError::AlreadyInitialized)
    } else if ctx.asset@ == zero_key() {
        Err(RpsError::InvalidAsset)
    } else {
        Ok(
            GameView {
                creator: authority,
                size: ctx.stake,
                token_mint: ctx.asset@,
                player_1: empty_player(),
                player_2: empty_player(),
            },
        )
    }
}

/// `PlaceChallenge`: the signer takes the first free slot.
pub open spec fn spec_place_challenge(ctx: Context, g: GameView, hash: Seq<u8>) -> Result<
    GameView,
    RpsError,
> {
    let p = PlayerView { pubkey: ctx.signer@, hash: hash, rps_move: RPSMove::NoMove };
    if !ctx.owned || ctx.signer@ == zero_key() {
        Err(RpsError::AccessDenied)
    } else if !g.is_initialized() {
        Err(RpsError::NotInitialized)
    } else if !g.player_1.is_occupied() {
        Ok(GameView { player_1: p, ..g })
    } else if !g.player_2.is_occupied() {
        Ok(GameView { player_2: p, ..g })
    } else {
        Err(RpsError::SlotOccupied)
    }
}

/// Resolution given each revealed move and the commitment it hashes to.
pub open spec fn spec_resolve(
    g: GameView,
    move_1: RPSMove,
    digest_1: Seq<u8>,
    move_2: RPSMove,
    digest_2: Seq<u8>,
) -> Result<(GameView, Effect), RpsError> {
    let w = outcome(move_1, move_2);
    let next = GameView {
        player_1: PlayerView { rps_move: move_1, ..g.player_1 },
        player_2: PlayerView { rps_move: move_2, ..g.player_2 },
        ..g
    };
    if !g.is_initialized() {
        Err(RpsError::NotInitialized)
    } else if !g.player_1.is_occupied() || !g.player_2.is_occupied() {
        Err(RpsError::IncompleteMatch)
    } else if g.player_1.rps_move != RPSMove::NoMove || g.player_2.rps_move != RPSMove::NoMove {
        Err(RpsError::AlreadyResolved)
    } else if move_1 == RPSMove::NoMove || move_2 == RPSMove::NoMove || digest_1
        != g.player_1.hash || digest_2 != g.player_2.hash {
        Err(RpsError::CommitmentMismatch)
    } else if w == Winner::Neither {
        Ok((next, Effect::Refund { amount: g.size }))
    } else if 2 * g.size > u64::MAX {
        Err(RpsError::StakeOverflow)
    } else {
        Ok((next, Effect::Payout { to: w, amount: (2 * g.size) as u64 }))
    }
}

/// `Crank`: resolution against the commitments of the context's reveals.
pub open spec fn spec_crank(ctx: Context, g: GameView) -> Result<(GameView, Effect), RpsError> {
    if !ctx.owned {
        Err(RpsError::AccessDenied)
    } else {
        spec_resolve(
            g,
            ctx.reveal_1.rps_move,
            commitment_of(ctx.reveal_1.rps_move, ctx.reveal_1.salt@),
            ctx.reveal_2.rps_move,
            commitment_of(ctx.reveal_2.rps_move, ctx.reveal_2.salt@),
        )
    }
}

/// `WithdrawFees`: the authority closes a resolved match.
pub open spec fn spec_withdraw_fees(ctx: Context, g: GameView) -> Result<
    (GameView, Effect),
    RpsError,
> {
    if !ctx.owned {
        Err(RpsError::AccessDenied)
    } else if !is_resolved(g) {
        Err(RpsError::NotResolved)
    } else if ctx.signer@ != g.creator {
        Err(RpsError::AccessDenied)
    } else {
        Ok((closed_game(), Effect::Close))
    }
}

/// One transition of a decoded game under a decoded command.
pub open spec fn spec_step(ctx: Context, g: GameView, i: InstructionView) -> Result<
    (GameView, Effect),
    RpsError,
> {
    match i {
        InstructionView::Init { withdraw_fee_authority } => match spec_init(
            ctx,
            g,
            withdraw_fee_authority,
        ) {
            Ok(n) => Ok((n, Effect::Nothing)),
            Err(e) => Err(e),
        },
        InstructionView::PlaceChallenge { hash } => match spec_place_challenge(ctx, g, hash) {
            Ok(n) => Ok((n, Effect::Nothing)),
            Err(e) => Err(e),
        },
        InstructionView::Crank => spec_crank(ctx, g),
        InstructionView::WithdrawFees => spec_withdraw_fees(ctx, g),
    }
}

/// A whole transition on bytes: the new record bytes and the effect, or the error.
pub open spec fn spec_process(ctx: Context, record: Seq<u8>, data: Seq<u8>) -> Result<
    (Seq<u8>, Effect),
    RpsError,
> {
    match instruction_error(data) {
        Some(e) => Err(e),
        None => if record.len() < GAME_LEN {
            Err(RpsError::TruncatedInput)
        } else if !game_tags_valid(record) {
            Err(RpsError::InvalidMoveTag)
        } else {
            match spec_step(
                ctx,
                decode_game(record.subrange(0, GAME_LEN as int)),
                decode_instruction(data),
            ) {
                Ok((g, e)) => Ok((game_bytes(g) + record.subrange(GAME_LEN as int, record.len() as int), e)),
                Err(e) => Err(e),
            }
        },
    }
}

fn empty_slot() -> (r: Player)
    ensures
        r@ == empty_player(),
{
    let z: [u8; 32] = [0u8; 32];
    assert(z@ =~= zero_key());
    Player { pubkey: z, hash: z, rps_move: RPSMove::NoMove }
}

impl Game {
    /// `Init`: records the authority, stake and asset on an uninitialized record.
    pub fn process_init(&self, ctx: &Context, authority: &[u8; 32]) -> (r: Result<Game, RpsError>)
        ensures
            match r {
                Ok(g) => spec_init(*ctx, self@, authority@) == Ok::<GameView, RpsError>(g@),
                Err(e) => spec_init(*ctx, self@, authority@) == Err::<GameView, RpsError>(e),
            },
    {
        if !ctx.owned {
            return Err(RpsError::AccessDenied);
        }
        if self.is_initialized() {
            return Err(RpsError::AlreadyInitialized);
        }
        if key_is_zero(&ctx.asset) {
            return Err(RpsError::InvalidAsset);
        }
        Ok(
            Game {
                creator: *authority,
                size: ctx.stake,
                token_mint: ctx.asset,
                player_1: empty_slot(),
                player_2: empty_slot(),
            },
        )
    }

    /// `PlaceChallenge`: the signer takes the first free slot with commitment `hash`.
    pub fn process_place_challenge(&self, ctx: &Context, hash: &[u8; 32]) -> (r: Result<
        Game,
        RpsError,
    >)
        ensures
            match r {
                Ok(g) => spec_place_challenge(*ctx, self@, hash@) == Ok::<GameView, RpsError>(g@),
                Err(e) => spec_place_challenge(*ctx, self@, hash@) == Err::<GameView, RpsError>(e),
            },
    {
        if !ctx.owned || key_is_zero(&ctx.signer) {
            return Err(RpsError::AccessDenied);
        }
        if !self.is_initialized() {
            return Err(RpsError::NotInitialized);
        }
        let p = Player { pubkey: ctx.signer, hash: *hash, rps_move: RPSMove::NoMove };
        if !self.player_1.is_initialized() {
            Ok(
                Game {
                    creator: self.creator,
                    size: self.size,
                    token_mint: self.token_mint,
                    player_1: p,
                    player_2: self.player_2,
                },
            )
        } else if !self.player_2.is_initialized() {
            Ok(
                Game {
                    creator: self.creator,
                    size: self.size,
                    token_mint: self.token_mint,
                    player_1: self.player_1,
                    player_2: p,
                },
            )
        } else {
            Err(RpsError::SlotOccupied)
        }
    }

    /// Resolution: checks each revealed move against its stored commitment, given the
    /// commitment each reveal hashes to, then sets both moves and arbitrates.
    pub fn resolve(
        &self,
        move_1: RPSMove,
        digest_1: &[u8; 32],
        move_2: RPSMove,
        digest_2: &[u8; 32],
    ) -> (r: Result<(Game, Effect), RpsError>)
        ensures
            match r {
                Ok((g, e)) => spec_resolve(self@, move_1, digest_1@, move_2, digest_2@) == Ok::<
                    (GameView, Effect),
                    RpsError,
                >((g@, e)),
                Err(e) => spec_resolve(self@, move_1, digest_1@, move_2, digest_2@) == Err::<
                    (GameView, Effect),
                    RpsError,
                >(e),
            },
    {
        if !self.is_initialized() {
            return Err(RpsError::NotInitialized);
        }
        if !self.player_1.is_initialized() || !self.player_2.is_initialized() {
            return Err(RpsError::IncompleteMatch);
        }
        if !self.player_1.rps_move.is_none() || !self.player_2.rps_move.is_none() {
            return Err(RpsError::AlreadyResolved);
        }
        if move_1.is_none() || move_2.is_none() || !keys_equal(digest_1, &self.player_1.hash)
            || !keys_equal(digest_2, &self.player_2.hash) {
            return Err(RpsError::CommitmentMismatch);
        }
        let next = Game {
            creator: self.creator,
            size: self.size,
            token_mint: self.token_mint,
            player_1: Player {
                pubkey: self.player_1.pubkey,
                hash: self.player_1.hash,
                rps_move: move_1,
            },
            player_2: Player {
                pubkey: self.player_2.pubkey,
                hash: self.player_2.hash,
                rps_move: move_2,
            },
        };
        let w = match next.winner() {
            Ok(w) => w,
            Err(e) => return Err(e),
        };
        match w {
            Winner::Neither => Ok((next, Effect::Refund { amount: self.size })),
            _ => match self.size.checked_mul(2) {
                Some(amount) => Ok((next, Effect::Payout { to: w, amount })),
                None => Err(RpsError::StakeOverflow),
            },
        }
    }

    /// `WithdrawFees`: the authority closes a resolved match.
    pub fn process_withdraw_fees(&self, ctx: &Context) -> (r: Result<(Game, Effect), RpsError>)
        ensures
            match r {
                Ok((g, e)) => spec_withdraw_fees(*ctx, self@) == Ok::<(GameView, Effect), RpsError>(
                    (g@, e),
                ),
                Err(e) => spec_withdraw_fees(*ctx, self@) == Err::<(GameView, Effect), RpsError>(
                    e,
                ),
            },
    {
        if !ctx.owned {
            return Err(RpsError::AccessDenied);
        }
        if !self.is_initialized() || self.player_1.rps_move.is_none()
            || self.player_2.rps_move.is_none() {
            return Err(RpsError::NotResolved);
        }
        if !keys_equal(&ctx.signer, &self.creator) {
            return Err(RpsError::AccessDenied);
        }
        let z: [u8; 32] = [0u8; 32];
        assert(z@ =~= zero_key());
        let closed = Game {
            creator: z,
            size: 0,
            token_mint: z,
            player_1: empty_slot(),
            player_2: empty_slot(),
        };
        Ok((closed, Effect::Close))
    }
}

/// `Crank`: hashes both reveals from the context and resolves the match.
pub fn process_crank(ctx: &Context, game: &Game) -> (r: Result<(Game, Effect), RpsError>)
    ensures
        match r {
            Ok((g, e)) => spec_crank(*ctx, game@) == Ok::<(GameView, Effect), RpsError>((g@, e)),
            Err(e) => spec_crank(*ctx, game@) == Err::<(GameView, Effect), RpsError>(e),
        },
{
    if !ctx.owned {
        return Err(RpsError::AccessDenied);
    }
    let digest_1 = commit(ctx.reveal_1.rps_move, &ctx.reveal_1.salt);
    let digest_2 = commit(ctx.reveal_2.rps_move, &ctx.reveal_2.salt);
    game.resolve(ctx.reveal_1.rps_move, &digest_1, ctx.reveal_2.rps_move, &digest_2)
}

/// Applies one instruction to a record. On success the record holds the re-encoded game
/// (bytes past its width kept) and the effect is returned; on failure the record is untouched.
pub fn process_instruction(
    ctx: &Context,
    record: &mut Vec<u8>,
    instruction_data: &[u8],
) -> (r: Result<Effect, RpsError>)
    ensures
        match spec_process(*ctx, old(record)@, instruction_data@) {
            Ok((bytes, e)) => r == Ok::<Effect, RpsError>(e) && final(record)@ == bytes,
            Err(e) => r == Err::<Effect, RpsError>(e) && final(record)@ == old(record)@,
        },
{
    let instruction = match RPSInstruction::unpack(instruction_data) {
        Ok(i) => i,
        Err(e) => return Err(e),
    };
    let game = match Game::unpack(record.as_slice()) {
        Ok(g) => g,
        Err(e) => return Err(e),
    };
    let stepped = match instruction {
        RPSInstruction::Init { withdraw_fee_authority } => match game.process_init(
            ctx,
            &withdraw_fee_authority,
        ) {
            Ok(g) => Ok((g, Effect::Nothing)),
            Err(e) => Err(e),
        },
        RPSInstruction::PlaceChallenge { hash } => match game.process_place_challenge(
            ctx,
            &hash,
        ) {
            Ok(g) => Ok((g, Effect::Nothing)),
            Err(e) => Err(e),
        },
        RPSInstruction::Crank => process_crank(ctx, &game),
        RPSInstruction::WithdrawFees => game.process_withdraw_fees(ctx),
    };
    let (next, effect) = match stepped {
        Ok(p) => p,
        Err(e) => return Err(e),
    };
    let mut bytes = next.pack();
    let n: usize = record.len();
    let ghost packed = bytes@;
    let mut i: usize = GAME_LEN;
    while i < n
        invariant
            GAME_LEN <= i <= n,
            n == record@.len(),
            bytes@ == packed + record@.subrange(GAME_LEN as int, i as int),
        decreases n - i,
    {
        bytes.push(record[i]);
        i = i + 1;
        assert(bytes@ =~= packed + record@.subrange(GAME_LEN as int, i as int));
    }
    *record = bytes;
    Ok(effect)
}

proof fn lemma_decode_encoded(g: GameView, rest: Seq<u8>)
    requires
        g.wf(),
    ensures
        (game_bytes(g) + rest).len() >= GAME_LEN,
        game_tags_valid(game_bytes(g) + rest),
        decode_game((game_bytes(g) + rest).subrange(0, GAME_LEN as int)) == g,
{
    lemma_game_round_trip(g);
    let s = game_bytes(g) + rest;
    assert(s.subrange(0, GAME_LEN as int) =~= game_bytes(g));
}

/// A challenge on a match whose two slots are both taken fails with `SlotOccupied`.
pub proof fn lemma_place_challenge_on_full_match(
    ctx: Context,
    g: GameView,
    rest: Seq<u8>,
    data: Seq<u8>,
)
    requires
        g.wf(),
        g.is_initialized(),
        g.player_1.is_occupied(),
        g.player_2.is_occupied(),
        ctx.owned,
        ctx.signer@ != zero_key(),
        instruction_error(data) is None,
        data[0] == 1,
    ensures
        spec_process(ctx, game_bytes(g) + rest, data) == Err::<(Seq<u8>, Effect), RpsError>(
            RpsError::SlotOccupied,
        ),
{
    lemma_decode_encoded(g, rest);
}

/// A crank before both players are in fails with `IncompleteMatch`.
pub proof fn lemma_crank_before_both_committed(
    ctx: Context,
    g: GameView,
    rest: Seq<u8>,
    data: Seq<u8>,
)
    requires
        g.wf(),
        g.is_initialized(),
        !g.player_1.is_occupied() || !g.player_2.is_occupied(),
        ctx.owned,
        instruction_error(data) is None,
        data[0] == 2,
    ensures
        spec_process(ctx, game_bytes(g) + rest, data) == Err::<(Seq<u8>, Effect), RpsError>(
            RpsError::IncompleteMatch,
        ),
{
    lemma_decode_encoded(g, rest);
    assert(decode_instruction(data) == InstructionView::Crank);
    assert(spec_crank(ctx, g) == Err::<(GameView, Effect), RpsError>(RpsError::IncompleteMatch));
}

/// A fee withdrawal on a resolved match by anyone but the authority fails with `AccessDenied`.
pub proof fn lemma_withdraw_by_other_identity(
    ctx: Context,
    g: GameView,
    rest: Seq<u8>,
    data: Seq<u8>,
)
    requires
        g.wf(),
        is_resolved(g),
        ctx.owned,
        ctx.signer@ != g.creator,
        instruction_error(data) is None,
        data[0] == 3,
    ensures
        spec_process(ctx, game_bytes(g) + rest, data) == Err::<(Seq<u8>, Effect), RpsError>(
            RpsError::AccessDenied,
        ),
{
    lemma_decode_encoded(g, rest);
}

/// Once fees are withdrawn the record is closed: a second withdrawal fails with `NotResolved`.
pub proof fn lemma_withdraw_twice(ctx1: Context, ctx2: Context, record: Seq<u8>, data: Seq<u8>)
    requires
        instruction_error(data) is None,
        data[0] == 3,
        spec_process(ctx1, record, data) is Ok,
        ctx2.owned,
    ensures
        spec_process(ctx2, spec_process(ctx1, record, data)->Ok_0.0, data) == Err::<
            (Seq<u8>, Effect),
            RpsError,
        >(RpsError::NotResolved),
{
    let g = decode_game(record.subrange(0, GAME_LEN as int));
    let rest = record.subrange(GAME_LEN as int, record.len() as int);
    assert(spec_withdraw_fees(ctx1, g) is Ok);
    assert(closed_game().wf());
    lemma_decode_encoded(closed_game(), rest);
}

} // verus!
