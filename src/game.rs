use crate::error::RpsError;
use vstd::prelude::*;

verus! {

/// Width of an encoded `Player`.
pub const PLAYER_LEN: usize = 65;

/// Width of an encoded `Game`.
pub const GAME_LEN: usize = 202;

/// A move; `NoMove` is the uncommitted default and never enters arbitration.
#[derive(Clone, Copy, Debug, PartialEq, Eq, Structural)]
pub enum RPSMove {
    NoMove,
    Rock,
    Paper,
    Scissors,
}

/// Outcome of a resolved match.
#[derive(Clone, Copy, Debug, PartialEq, Eq, Structural)]
pub enum Winner {
    Neither,
    Player1,
    Player2,
}

/// One participant's slot; the all-zero `pubkey` marks the slot as free.
#[derive(Clone, Copy, Debug)]
pub struct Player {
    pub pubkey: [u8; 32],
    pub hash: [u8; 32],
    pub rps_move: RPSMove,
}

/// One match record.
#[derive(Clone, Copy, Debug)]
pub struct Game {
    /// Identity entitled to withdraw fees and reclaim the record.
    pub creator: [u8; 32],
    /// Stake each player wagers.
    pub size: u64,
    /// Asset of the stake; all zero while the record is uninitialized.
    pub token_mint: [u8; 32],
    pub player_1: Player,
    pub player_2: Player,
}

/// Mathematical view of a `Player`.
pub struct PlayerView {
    pub pubkey: Seq<u8>,
    pub hash: Seq<u8>,
    pub rps_move: RPSMove,
}

/// Mathematical view of a `Game`.
pub struct GameView {
    pub creator: Seq<u8>,
    pub size: u64,
    pub token_mint: Seq<u8>,
    pub player_1: PlayerView,
    pub player_2: PlayerView,
}

impl View for Player {
    type V = PlayerView;

    open spec fn view(&self) -> PlayerView {
        PlayerView { pubkey: self.pubkey@, hash: self.hash@, rps_move: self.rps_move }
    }
}

impl View for Game {
    type V = GameView;

    open spec fn view(&self) -> GameView {
        GameView {
            creator: self.creator@,
            size: self.size,
            token_mint: self.token_mint@,
            player_1: self.player_1@,
            player_2: self.player_2@,
        }
    }
}

/// The all-zero identity, which marks a free slot or an unset asset.
pub open spec fn zero_key() -> Seq<u8> {
    Seq::new(32, |i: int| 0u8)
}

impl PlayerView {
    pub open spec fn wf(self) -> bool {
        self.pubkey.len() == 32 && self.hash.len() == 32
    }

    pub open spec fn is_occupied(self) -> bool {
        self.pubkey != zero_key()
    }
}

impl GameView {
    pub open spec fn wf(self) -> bool {
        &&& self.creator.len() == 32
        &&& self.token_mint.len() == 32
        &&& self.player_1.wf()
        &&& self.player_2.wf()
    }

    pub open spec fn is_initialized(self) -> bool {
        self.token_mint != zero_key()
    }
}

/// Integer tag of a move in the encoding.
pub open spec fn move_tag(m: RPSMove) -> u8 {
    match m {
        RPSMove::NoMove => 0,
        RPSMove::Rock => 1,
        RPSMove::Paper => 2,
        RPSMove::Scissors => 3,
    }
}

/// The move a tag in `0..=3` stands for.
pub open spec fn move_of(t: u8) -> RPSMove {
    if t == 0 {
        RPSMove::NoMove
    } else if t == 1 {
        RPSMove::Rock
    } else if t == 2 {
        RPSMove::Paper
    } else {
        RPSMove::Scissors
    }
}

/// `a` beats `b` under the classic rule.
pub open spec fn beats(a: RPSMove, b: RPSMove) -> bool {
    ||| a == RPSMove::Rock && b == RPSMove::Scissors
    ||| a == RPSMove::Scissors && b == RPSMove::Paper
    ||| a == RPSMove::Paper && b == RPSMove::Rock
}

/// Outcome of two committed moves, player one's first.
pub open spec fn outcome(a: RPSMove, b: RPSMove) -> Winner {
    if a == b {
        Winner::Neither
    } else if beats(a, b) {
        Winner::Player1
    } else {
        Winner::Player2
    }
}

/// The winner with the two players' roles exchanged.
pub open spec fn swap_roles(w: Winner) -> Winner {
    match w {
        Winner::Neither => Winner::Neither,
        Winner::Player1 => Winner::Player2,
        Winner::Player2 => Winner::Player1,
    }
}

/// Little-endian bytes of a `u64`.
pub open spec fn u64_le(v: u64) -> Seq<u8> {
    seq![
        (v & 0xff) as u8,
        ((v >> 8u64) & 0xff) as u8,
        ((v >> 16u64) & 0xff) as u8,
        ((v >> 24u64) & 0xff) as u8,
        ((v >> 32u64) & 0xff) as u8,
        ((v >> 40u64) & 0xff) as u8,
        ((v >> 48u64) & 0xff) as u8,
        ((v >> 56u64) & 0xff) as u8,
    ]
}

/// The `u64` whose little-endian bytes are `s[0..8]`.
pub open spec fn le_u64(s: Seq<u8>) -> u64 {
    (s[0] as u64) | ((s[1] as u64) << 8u64) | ((s[2] as u64) << 16u64) | ((s[3] as u64)
        << 24u64) | ((s[4] as u64) << 32u64) | ((s[5] as u64) << 40u64) | ((s[6] as u64)
        << 48u64) | ((s[7] as u64) << 56u64)
}

/// Encoding of a player: identity, commitment, move tag.
pub open spec fn player_bytes(p: PlayerView) -> Seq<u8> {
    p.pubkey + p.hash + seq![move_tag(p.rps_move)]
}

/// Encoding of a game: creator, stake, asset, player one, player two.
pub open spec fn game_bytes(g: GameView) -> Seq<u8> {
    g.creator + u64_le(g.size) + g.token_mint + player_bytes(g.player_1) + player_bytes(
        g.player_2,
    )
}

/// The player that 65 bytes encode.
pub open spec fn decode_player(s: Seq<u8>) -> PlayerView {
    PlayerView {
        pubkey: s.subrange(0, 32),
        hash: s.subrange(32, 64),
        rps_move: move_of(s[64]),
    }
}

/// The game that 202 bytes encode.
pub open spec fn decode_game(s: Seq<u8>) -> GameView {
    GameView {
        creator: s.subrange(0, 32),
        size: le_u64(s.subrange(32, 40)),
        token_mint: s.subrange(40, 72),
        player_1: decode_player(s.subrange(72, 137)),
        player_2: decode_player(s.subrange(137, 202)),
    }
}

/// Both move tags of an encoded game lie in `0..=3`.
pub open spec fn game_tags_valid(s: Seq<u8>) -> bool {
    s[136] <= 3 && s[201] <= 3
}

proof fn lemma_byte_cast(x: u64)
    ensures
        ((x & 0xff) as u8) as u64 == x & 0xff,
{
    assert(x & 0xff < 256) by (bit_vector);
}

proof fn lemma_u64_round_trip(v: u64)
    ensures
        le_u64(u64_le(v)) == v,
{
    let s = u64_le(v);
    lemma_byte_cast(v);
    lemma_byte_cast(v >> 8u64);
    lemma_byte_cast(v >> 16u64);
    lemma_byte_cast(v >> 24u64);
    lemma_byte_cast(v >> 32u64);
    lemma_byte_cast(v >> 40u64);
    lemma_byte_cast(v >> 48u64);
    lemma_byte_cast(v >> 56u64);
    assert((v & 0xff) | (((v >> 8u64) & 0xff) << 8u64) | (((v >> 16u64) & 0xff) << 16u64) | (((v
        >> 24u64) & 0xff) << 24u64) | (((v >> 32u64) & 0xff) << 32u64) | (((v >> 40u64) & 0xff)
        << 40u64) | (((v >> 48u64) & 0xff) << 48u64) | (((v >> 56u64) & 0xff) << 56u64) == v)
        by (bit_vector);
}

/// Decoding an encoded player gives the player back.
pub proof fn lemma_player_round_trip(p: PlayerView)
    requires
        p.wf(),
    ensures
        player_bytes(p).len() == PLAYER_LEN,
        decode_player(player_bytes(p)) == p,
{
    let s = player_bytes(p);
    assert(s.subrange(0, 32) =~= p.pubkey);
    assert(s.subrange(32, 64) =~= p.hash);
    assert(s[64] == move_tag(p.rps_move));
}

/// Decoding an encoded game gives the game back, and its tags are valid.
pub proof fn lemma_game_round_trip(g: GameView)
    requires
        g.wf(),
    ensures
        game_bytes(g).len() == GAME_LEN,
        game_tags_valid(game_bytes(g)),
        decode_game(game_bytes(g)) == g,
{
    let s = game_bytes(g);
    lemma_u64_round_trip(g.size);
    lemma_player_round_trip(g.player_1);
    lemma_player_round_trip(g.player_2);
    assert(s.subrange(0, 32) =~= g.creator);
    assert(s.subrange(32, 40) =~= u64_le(g.size));
    assert(s.subrange(40, 72) =~= g.token_mint);
    assert(s.subrange(72, 137) =~= player_bytes(g.player_1));
    assert(s.subrange(137, 202) =~= player_bytes(g.player_2));
    assert(s[136] == player_bytes(g.player_1)[64]);
    assert(s[201] == player_bytes(g.player_2)[64]);
}

/// Different games have different encodings.
pub proof fn lemma_game_bytes_injective(g1: GameView, g2: GameView)
    requires
        g1.wf(),
        g2.wf(),
        game_bytes(g1) == game_bytes(g2),
    ensures
        g1 == g2,
{
    lemma_game_round_trip(g1);
    lemma_game_round_trip(g2);
}

/// Arbitration is symmetric: exchanging the moves exchanges the roles, and equal moves draw.
pub proof fn lemma_outcome_symmetric(a: RPSMove, b: RPSMove)
    requires
        a != RPSMove::NoMove,
        b != RPSMove::NoMove,
    ensures
        outcome(b, a) == swap_roles(outcome(a, b)),
        outcome(a, a) == Winner::Neither,
{
}

impl RPSMove {
    pub fn is_none(&self) -> (r: bool)
        ensures
            r == (*self == RPSMove::NoMove),
    {
        match self {
            RPSMove::NoMove => true,
            _ => false,
        }
    }

    /// The move with tag `tag`.
    pub fn from_u8(tag: u8) -> (r: Self)
        requires
            tag <= 3,
        ensures
            r == move_of(tag),
            move_tag(r) == tag,
    {
        match tag {
            0 => RPSMove::NoMove,
            1 => RPSMove::Rock,
            2 => RPSMove::Paper,
            _ => RPSMove::Scissors,
        }
    }

    /// The tag of this move.
    pub fn to_u8(&self) -> (r: u8)
        ensures
            r == move_tag(*self),
            move_of(r) == *self,
    {
        match self {
            RPSMove::NoMove => 0,
            RPSMove::Rock => 1,
            RPSMove::Paper => 2,
            RPSMove::Scissors => 3,
        }
    }
}

/// Whether all 32 bytes are zero.
pub fn key_is_zero(k: &[u8; 32]) -> (r: bool)
    ensures
        r == (k@ == zero_key()),
{
    let mut i: usize = 0;
    while i < 32
        invariant
            i <= 32,
            forall|j: int| 0 <= j < i ==> k@[j] == 0u8,
        decreases 32 - i,
    {
        if k[i] != 0 {
            assert(k@ != zero_key()) by {
                assert(k@[i as int] != zero_key()[i as int]);
            }
            return false;
        }
        i = i + 1;
    }
    assert(k@ =~= zero_key());
    true
}

/// Whether two 32-byte values are equal.
pub fn keys_equal(a: &[u8; 32], b: &[u8; 32]) -> (r: bool)
    ensures
        r == (a@ == b@),
{
    let mut i: usize = 0;
    while i < 32
        invariant
            i <= 32,
            forall|j: int| 0 <= j < i ==> a@[j] == b@[j],
        decreases 32 - i,
    {
        if a[i] != b[i] {
            return false;
        }
        i = i + 1;
    }
    assert(a@ =~= b@);
    true
}

/// The 32 bytes of `input` from `at`.
pub(crate) fn read_key(input: &[u8], at: usize) -> (r: [u8; 32])
    requires
        at + 32 <= input@.len(),
    ensures
        r@ == input@.subrange(at as int, at + 32),
{
    let n: usize = input.len();
    let mut r: [u8; 32] = [0u8; 32];
    let mut i: usize = 0;
    while i < 32
        invariant
            i <= 32,
            at + 32 <= n,
            n == input@.len(),
            r@.len() == 32,
            forall|j: int| 0 <= j < i ==> r@[j] == input@[at + j],
        decreases 32 - i,
    {
        r[i] = input[at + i];
        i = i + 1;
    }
    assert(r@ =~= input@.subrange(at as int, at + 32));
    r
}

pub(crate) fn push_key(out: &mut Vec<u8>, k: &[u8; 32])
    ensures
        final(out)@ == old(out)@ + k@,
{
    let ghost start = out@;
    let mut i: usize = 0;
    while i < 32
        invariant
            i <= 32,
            out@ == start + k@.subrange(0, i as int),
        decreases 32 - i,
    {
        out.push(k[i]);
        i = i + 1;
        assert(out@ =~= start + k@.subrange(0, i as int));
    }
    assert(k@.subrange(0, 32) =~= k@);
}

fn push_u64_le(out: &mut Vec<u8>, v: u64)
    ensures
        final(out)@ == old(out)@ + u64_le(v),
{
    let ghost start = out@;
    out.push((v & 0xff) as u8);
    out.push(((v >> 8) & 0xff) as u8);
    out.push(((v >> 16) & 0xff) as u8);
    out.push(((v >> 24) & 0xff) as u8);
    out.push(((v >> 32) & 0xff) as u8);
    out.push(((v >> 40) & 0xff) as u8);
    out.push(((v >> 48) & 0xff) as u8);
    out.push(((v >> 56) & 0xff) as u8);
    assert(out@ =~= start + u64_le(v));
}

fn read_u64_le(input: &[u8], at: usize) -> (r: u64)
    requires
        at + 8 <= input@.len(),
    ensures
        r == le_u64(input@.subrange(at as int, at + 8)),
{
    let s = Ghost(input@.subrange(at as int, at + 8));
    assert(s@[0] == input@[at as int]);
    assert(s@[1] == input@[at + 1]);
    assert(s@[2] == input@[at + 2]);
    assert(s@[3] == input@[at + 3]);
    assert(s@[4] == input@[at + 4]);
    assert(s@[5] == input@[at + 5]);
    assert(s@[6] == input@[at + 6]);
    assert(s@[7] == input@[at + 7]);
    (input[at] as u64) | ((input[at + 1] as u64) << 8) | ((input[at + 2] as u64) << 16) | ((
    input[at + 3] as u64) << 24) | ((input[at + 4] as u64) << 32) | ((input[at + 5] as u64)
        << 40) | ((input[at + 6] as u64) << 48) | ((input[at + 7] as u64) << 56)
}

impl Player {
    /// Whether the slot holds a participant.
    pub fn is_initialized(&self) -> (r: bool)
        ensures
            r == self@.is_occupied(),
    {
        !key_is_zero(&self.pubkey)
    }

    /// Appends the 65-byte encoding of this player.
    pub fn pack_into(&self, out: &mut Vec<u8>)
        ensures
            final(out)@ == old(out)@ + player_bytes(self@),
    {
        let ghost start = out@;
        push_key(out, &self.pubkey);
        push_key(out, &self.hash);
        out.push(self.rps_move.to_u8());
        assert(out@ =~= start + player_bytes(self@));
    }

    /// The 65-byte encoding of this player.
    pub fn pack(&self) -> (r: Vec<u8>)
        ensures
            r@ == player_bytes(self@),
    {
        let mut out: Vec<u8> = Vec::new();
        self.pack_into(&mut out);
        assert(out@ =~= player_bytes(self@));
        out
    }

    /// Decodes a player from the first 65 bytes of `input`; later bytes are ignored.
    pub fn unpack(input: &[u8]) -> (r: Result<Player, RpsError>)
        ensures
            input@.len() < PLAYER_LEN ==> r == Err::<Player, RpsError>(RpsError::TruncatedInput),
            input@.len() >= PLAYER_LEN && input@[64] > 3 ==> r == Err::<Player, RpsError>(
                RpsError::InvalidMoveTag,
            ),
            input@.len() >= PLAYER_LEN && input@[64] <= 3 ==> (r matches Ok(p) && p@
                == decode_player(input@.subrange(0, PLAYER_LEN as int))),
    {
        if input.len() < PLAYER_LEN {
            return Err(RpsError::TruncatedInput);
        }
        Self::unpack_at(input, 0)
    }

    /// Decodes the player at `input[at..at + 65]`.
    pub fn unpack_at(input: &[u8], at: usize) -> (r: Result<Player, RpsError>)
        requires
            at + PLAYER_LEN <= input@.len(),
        ensures
            match r {
                Ok(p) => input@[at + 64] <= 3 && p@ == decode_player(
                    input@.subrange(at as int, at + PLAYER_LEN),
                ),
                Err(e) => input@[at + 64] > 3 && e == RpsError::InvalidMoveTag,
            },
    {
        let n: usize = input.len();
        assert(at + 64 < n);
        let tag = input[at + 64];
        if tag > 3 {
            return Err(RpsError::InvalidMoveTag);
        }
        let pubkey = read_key(input, at);
        let hash = read_key(input, at + 32);
        let p = Player { pubkey, hash, rps_move: RPSMove::from_u8(tag) };
        let ghost s = input@.subrange(at as int, at + PLAYER_LEN);
        assert(p@.pubkey =~= s.subrange(0, 32));
        assert(p@.hash =~= s.subrange(32, 64));
        Ok(p)
    }
}

impl Game {
    /// Whether `Init` has completed on this record.
    pub fn is_initialized(&self) -> (r: bool)
        ensures
            r == self@.is_initialized(),
    {
        !key_is_zero(&self.token_mint)
    }

    /// The 202-byte encoding of this game.
    pub fn pack(&self) -> (r: Vec<u8>)
        ensures
            r@ == game_bytes(self@),
    {
        let mut out: Vec<u8> = Vec::new();
        push_key(&mut out, &self.creator);
        push_u64_le(&mut out, self.size);
        push_key(&mut out, &self.token_mint);
        self.player_1.pack_into(&mut out);
        self.player_2.pack_into(&mut out);
        assert(out@ =~= game_bytes(self@));
        out
    }

    /// Decodes a game from the first 202 bytes of `input`; later bytes are ignored.
    pub fn unpack(input: &[u8]) -> (r: Result<Game, RpsError>)
        ensures
            input@.len() < GAME_LEN ==> r == Err::<Game, RpsError>(RpsError::TruncatedInput),
            input@.len() >= GAME_LEN && !game_tags_valid(input@) ==> r == Err::<Game, RpsError>(
                RpsError::InvalidMoveTag,
            ),
            input@.len() >= GAME_LEN && game_tags_valid(input@) ==> r is Ok,
            r matches Ok(g) ==> g@ == decode_game(input@.subrange(0, GAME_LEN as int)),
    {
        if input.len() < GAME_LEN {
            return Err(RpsError::TruncatedInput);
        }
        let ghost s = input@.subrange(0, GAME_LEN as int);
        let creator = read_key(input, 0);
        let size = read_u64_le(input, 32);
        let token_mint = read_key(input, 40);
        let player_1 = match Player::unpack_at(input, 72) {
            Ok(p) => p,
            Err(e) => return Err(e),
        };
        let player_2 = match Player::unpack_at(input, 137) {
            Ok(p) => p,
            Err(e) => return Err(e),
        };
        let g = Game { creator, size, token_mint, player_1, player_2 };
        assert(g@.creator =~= s.subrange(0, 32));
        assert(input@.subrange(32, 40) =~= s.subrange(32, 40));
        assert(g@.token_mint =~= s.subrange(40, 72));
        assert(input@.subrange(72, 137) =~= s.subrange(72, 137));
        assert(input@.subrange(137, 202) =~= s.subrange(137, 202));
        Ok(g)
    }

    /// Arbitrates the two committed moves.
    pub fn winner(&self) -> (r: Result<Winner, RpsError>)
        ensures
            self.player_1.rps_move == RPSMove::NoMove || self.player_2.rps_move == RPSMove::NoMove
                ==> r == Err::<Winner, RpsError>(RpsError::IncompleteMatch),
            self.player_1.rps_move != RPSMove::NoMove && self.player_2.rps_move != RPSMove::NoMove
                ==> r == Ok::<Winner, RpsError>(
                outcome(self.player_1.rps_move, self.player_2.rps_move),
            ),
    {
        if self.player_1.rps_move.is_none() || self.player_2.rps_move.is_none() {
            return Err(RpsError::IncompleteMatch);
        }
        // Rows: player one's move; columns: player two's move.
        let w = match (self.player_1.rps_move, self.player_2.rps_move) {
            (RPSMove::Rock, RPSMove::Rock) => Winner::Neither,
            (RPSMove::Rock, RPSMove::Paper) => Winner::Player2,
            (RPSMove::Rock, RPSMove::Scissors) => Winner::Player1,
            (RPSMove::Paper, RPSMove::Rock) => Winner::Player1,
            (RPSMove::Paper, RPSMove::Paper) => Winner::Neither,
            (RPSMove::Paper, RPSMove::Scissors) => Winner::Player2,
            (RPSMove::Scissors, RPSMove::Rock) => Winner::Player2,
            (RPSMove::Scissors, RPSMove::Paper) => Winner::Player1,
            (RPSMove::Scissors, RPSMove::Scissors) => Winner::Neither,
            _ => Winner::Neither,
        };
        Ok(w)
    }
}

} // verus!
