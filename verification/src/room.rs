//! A poker room: its table settings, the seated players, and the hand in play.
use vstd::prelude::*;
use vstd::seq_lib::*;

use crate::error::SolanaPokerError;
use crate::hand::{GameState, Hand, HandState};
use crate::player::{PlayerStatus, PokerPlayer};
use crate::pubkey::{zero_key, Pubkey};
use crate::token::TokenTransferParams;

verus! {

/// A room: the blinds, the seats, who holds the blinds, and the current hand.
#[derive(Clone, Debug, PartialEq, Eq)]
pub struct Room {
    pub small_blind: u64,
    pub big_blind: u64,
    pub max_players: u8,
    pub players: Vec<PokerPlayer>,
    pub creator: Pubkey,
    pub big_blind_position: u8,
    pub big_blind_address: Pubkey,
    pub small_blind_position: u8,
    pub small_blind_address: Pubkey,
    pub game_state: GameState,
    pub current_hand: Hand,
}

/// Keeps the players whose address is not `key`.
pub open spec fn other_than(key: Seq<u8>) -> spec_fn(PokerPlayer) -> bool {
    |p: PokerPlayer| p.address@ != key
}

/// Keeps the players who take part in the next hand.
pub open spec fn playing() -> spec_fn(PokerPlayer) -> bool {
    |p: PokerPlayer| p.status == PlayerStatus::Playing
}

/// The seats after every player at address `key` has left, in seating order.
pub open spec fn without_player(players: Seq<PokerPlayer>, key: Seq<u8>) -> Seq<PokerPlayer> {
    players.filter(other_than(key))
}

/// Some seat is held by address `key`.
pub open spec fn holds_seat(players: Seq<PokerPlayer>, key: Seq<u8>) -> bool {
    exists|i: int| 0 <= i < players.len() && #[trigger] players[i].address@ == key
}

/// The players dealt into the next hand, in seating order.
pub open spec fn playing_players(players: Seq<PokerPlayer>) -> Seq<PokerPlayer> {
    players.filter(playing())
}

/// One past the last seat held by address `key`, or 0 when no seat is.
pub open spec fn seat_after(players: Seq<PokerPlayer>, key: Seq<u8>) -> nat
    decreases players.len(),
{
    if players.len() == 0 {
        0
    } else if players.last().address@ == key {
        players.len()
    } else {
        seat_after(players.drop_last(), key)
    }
}

/// The big blind of the next hand, as a position among the players dealt
/// in: one past the number of the previous big blind's last seat (seats
/// counted among all seated players, whether they play or not), or 0 when
/// that number is greater than the number of players dealt in.
pub open spec fn next_big_blind(players: Seq<PokerPlayer>, key: Seq<u8>) -> int {
    let seat = seat_after(players, key);
    if seat > playing_players(players).len() {
        0
    } else {
        seat as int
    }
}

/// The small blind of the next hand, as a position among the `count`
/// players dealt in: one past the big blind while the big blind is below
/// `count`, otherwise 0.
pub open spec fn next_small_blind(big_blind: int, count: int) -> int {
    if big_blind < count {
        big_blind + 1
    } else {
        0
    }
}

/// Both blind positions of the next hand name players dealt in.
pub open spec fn blinds_in_range(players: Seq<PokerPlayer>, key: Seq<u8>) -> bool {
    let count = playing_players(players).len() as int;
    let bb = next_big_blind(players, key);
    &&& bb < count
    &&& next_small_blind(bb, count) < count
}

impl Room {
    /// No more players are seated than the room allows.
    pub open spec fn wf(self) -> bool {
        self.players@.len() <= self.max_players
    }

    /// A room just created by `creator` with the given big blind and size.
    pub open spec fn is_new(self, creator: Pubkey, big_blind: u64, max_players: u8) -> bool {
        &&& self.creator == creator
        &&& self.big_blind == big_blind
        &&& self.small_blind == big_blind / 2
        &&& self.max_players == max_players
        &&& self.players@.len() == 0
        &&& self.big_blind_position == 0
        &&& self.big_blind_address@ == zero_key()
        &&& self.small_blind_position == 0
        &&& self.small_blind_address@ == zero_key()
        &&& self.game_state == GameState::Ready
        &&& self.current_hand.is_blank()
    }

    /// The same room with other seats.
    pub open spec fn with_players(self, players: Vec<PokerPlayer>) -> Room {
        Room {
            small_blind: self.small_blind,
            big_blind: self.big_blind,
            max_players: self.max_players,
            players,
            creator: self.creator,
            big_blind_position: self.big_blind_position,
            big_blind_address: self.big_blind_address,
            small_blind_position: self.small_blind_position,
            small_blind_address: self.small_blind_address,
            game_state: self.game_state,
            current_hand: self.current_hand,
        }
    }

    /// The same room with another hand in play.
    pub open spec fn with_hand(self, hand: Hand) -> Room {
        Room {
            small_blind: self.small_blind,
            big_blind: self.big_blind,
            max_players: self.max_players,
            players: self.players,
            creator: self.creator,
            big_blind_position: self.big_blind_position,
            big_blind_address: self.big_blind_address,
            small_blind_position: self.small_blind_position,
            small_blind_address: self.small_blind_address,
            game_state: self.game_state,
            current_hand: hand,
        }
    }

    /// The same room in another game state.
    pub open spec fn with_game_state(self, game_state: GameState) -> Room {
        Room {
            small_blind: self.small_blind,
            big_blind: self.big_blind,
            max_players: self.max_players,
            players: self.players,
            creator: self.creator,
            big_blind_position: self.big_blind_position,
            big_blind_address: self.big_blind_address,
            small_blind_position: self.small_blind_position,
            small_blind_address: self.small_blind_address,
            game_state,
            current_hand: self.current_hand,
        }
    }

    /// `hand` is the hand dealt from this room's seats: every playing
    /// player in seating order, the blinds rotated on from the previous big
    /// blind, nothing bet yet.
    pub open spec fn deals(self, hand: Hand) -> bool {
        let dealt = playing_players(self.players@);
        let bb = next_big_blind(self.players@, self.big_blind_address@);
        let sb = next_small_blind(bb, dealt.len() as int);
        &&& hand.players@ == dealt
        &&& hand.big_blind_position == bb
        &&& hand.big_blind_address == dealt[bb].address
        &&& hand.small_blind_position == sb
        &&& hand.small_blind_address == dealt[sb].address
        &&& hand.turn_index == 0
        &&& hand.pot == 0
        &&& hand.hand_state == HandState::WaitingBigBlind
    }

    /// Opens a room owned by `creator`; the small blind is half the big one.
    pub fn create(creator: &Pubkey, big_blind: u64, max_players: u8) -> (room: Room)
        ensures
            room.is_new(*creator, big_blind, max_players),
            room.wf(),
            room.creator == *creator,
            room.big_blind == big_blind,
            room.small_blind == big_blind / 2,
            room.max_players == max_players,
            room.players@.len() == 0,
            room.game_state == GameState::Ready,
            room.current_hand.players@.len() == 0,
    {
        Room {
            small_blind: big_blind / 2,
            big_blind,
            max_players,
            players: Vec::new(),
            creator: *creator,
            big_blind_position: 0,
            big_blind_address: Pubkey::zero(),
            small_blind_position: 0,
            small_blind_address: Pubkey::zero(),
            game_state: GameState::Ready,
            current_hand: Hand::default(),
        }
    }

    /// Opens a room, taking the creator by value.
    pub fn new(creator: Pubkey, big_blind: u64, max_players: u8) -> (room: Room)
        ensures
            room.is_new(creator, big_blind, max_players),
            room.wf(),
            room.creator == creator,
            room.big_blind == big_blind,
            room.small_blind == big_blind / 2,
            room.max_players == max_players,
            room.players@.len() == 0,
            room.game_state == GameState::Ready,
            room.current_hand.players@.len() == 0,
    {
        Room::create(&creator, big_blind, max_players)
    }

    /// Seats `player` at the end of the table if a seat is free.
    pub fn join(&mut self, player: Pubkey) -> (r: Result<(), SolanaPokerError>)
        ensures
            r is Ok <==> old(self).players@.len() < old(self).max_players,
            r is Ok ==> final(self).players@ == old(self).players@.push(
                PokerPlayer::seated(player),
            ) && *final(self) == old(self).with_players(final(self).players),
            r is Ok ==> final(self).players@.len() == old(self).players@.len() + 1
                && final(self).players@.subrange(0, old(self).players@.len() as int)
                == old(self).players@ && final(self).players@.last().address == player
                && final(self).players@.last().status == PlayerStatus::Out
                && final(self).players@.last().last_activity == 0,
            r matches Err(e) ==> e == SolanaPokerError::RoomFull && *final(self) == *old(self),
            old(self).wf() ==> final(self).wf(),
    {
        if self.players.len() < self.max_players as usize {
            let poker_player = PokerPlayer::new(player);
            self.players.push(poker_player);
            Ok(())
        } else {
            Err(SolanaPokerError::RoomFull)
        }
    }

    /// Unseats every player at address `player`; the others keep their order.
    pub fn leave(&mut self, player: Pubkey) -> (r: Result<(), SolanaPokerError>)
        ensures
            r is Ok,
            final(self).players@ == without_player(old(self).players@, player@),
            *final(self) == old(self).with_players(final(self).players),
            old(self).wf() ==> final(self).wf(),
    {
        let ghost seats = self.players@;
        let mut kept: Vec<PokerPlayer> = Vec::new();
        let mut i: usize = 0;
        while i < self.players.len()
            invariant
                self.players@ == seats,
                i <= seats.len(),
                kept@ == seats.take(i as int).filter(other_than(player@)),
            decreases seats.len() - i,
        {
            let p = self.players[i];
            proof {
                assert(seats.take(i + 1) =~= seats.take(i as int).push(p));
                seats.take(i as int).lemma_filter_push(p, other_than(player@));
            }
            if !p.address.key_eq(&player) {
                kept.push(p);
            }
            i = i + 1;
        }
        proof {
            assert(seats.take(seats.len() as int) =~= seats);
            seats.lemma_filter_len(other_than(player@));
        }
        self.players = kept;
        Ok(())
    }

    /// Looks for the seats at address `player` and gives them `status`. The
    /// loop moves on only past seats held by other addresses: at a seat of
    /// `player` it sets the status and looks at the same seat again, and so
    /// never returns. It returns only when `player` holds no seat, and then
    /// has changed nothing.
    fn set_status(&mut self, player: Pubkey, status: PlayerStatus)
        requires
            !holds_seat(old(self).players@, player@),
        ensures
            *final(self) == *old(self),
    {
        let mut i: usize = 0;
        while i < self.players.len()
            invariant
                *self == *old(self),
                !holds_seat(self.players@, player@),
                i <= self.players@.len(),
            decreases self.players@.len() - i,
        {
            let p = self.players[i];
            if p.address.key_eq(&player) {
                assert(self.players@[i as int].address@ == player@);
                self.players.set(
                    i,
                    PokerPlayer { address: p.address, status, last_activity: p.last_activity },
                );
            } else {
                i = i + 1;
            }
        }
    }

    /// Marks the seats at address `player` as taking part in the next hand;
    /// see `set_status`: the call only returns when `player` holds no seat,
    /// and then changes nothing.
    pub fn available(&mut self, player: Pubkey) -> (r: Result<(), SolanaPokerError>)
        requires
            !holds_seat(old(self).players@, player@),
        ensures
            r is Ok,
            *final(self) == *old(self),
    {
        self.set_status(player, PlayerStatus::Playing);
        Ok(())
    }

    /// Marks the seats at address `player` as sitting out; see `set_status`:
    /// the call only returns when `player` holds no seat, and then changes
    /// nothing.
    pub fn disabled(&mut self, player: Pubkey) -> (r: Result<(), SolanaPokerError>)
        requires
            !holds_seat(old(self).players@, player@),
        ensures
            r is Ok,
            *final(self) == *old(self),
    {
        self.set_status(player, PlayerStatus::Out);
        Ok(())
    }

    /// Deals a new hand from the seats: every playing player is dealt in, in
    /// seating order. The big blind's position among them is one past the
    /// number of the previous big blind's last seat, counted among all
    /// seats, or 0 when that is greater than the number dealt in; the small
    /// blind's is one past the big blind's. Both must name a player dealt in,
    /// as they are looked up among them. Fewer than two playing players is
    /// refused.
    #[allow(non_snake_case)]
    pub fn startHand(&mut self) -> (r: Result<(), SolanaPokerError>)
        requires
            playing_players(old(self).players@).len() <= 256,
            playing_players(old(self).players@).len() >= 2 ==> blinds_in_range(
                old(self).players@,
                old(self).big_blind_address@,
            ),
        ensures
            r is Ok <==> playing_players(old(self).players@).len() >= 2,
            r is Ok ==> old(self).deals(final(self).current_hand) && *final(self) == old(
                self,
            ).with_hand(final(self).current_hand),
            r is Ok ==> final(self).current_hand.turn_index == 0 && final(self).current_hand.pot
                == 0 && final(self).current_hand.hand_state == HandState::WaitingBigBlind,
            r is Ok ==> final(self).current_hand.players@.len() >= 2,
            r matches Err(e) ==> e == SolanaPokerError::RoomFull && *final(self) == *old(self),
            old(self).wf() ==> final(self).wf(),
    {
        let ghost seats = self.players@;
        let ghost key = self.big_blind_address@;
        let mut dealt: Vec<PokerPlayer> = Vec::new();
        let mut seat: usize = 0;
        let mut i: usize = 0;
        while i < self.players.len()
            invariant
                self.players@ == seats,
                self.big_blind_address@ == key,
                i <= seats.len(),
                dealt@ == seats.take(i as int).filter(playing()),
                seat == seat_after(seats.take(i as int), key),
                seat <= i,
            decreases seats.len() - i,
        {
            let p = self.players[i];
            proof {
                assert(seats.take(i + 1) =~= seats.take(i as int).push(p));
                assert(seats.take(i + 1).drop_last() =~= seats.take(i as int));
                seats.take(i as int).lemma_filter_push(p, playing());
            }
            if p.is_playing() {
                dealt.push(p);
            }
            i = i + 1;
            if p.address.key_eq(&self.big_blind_address) {
                seat = i;
            }
        }
        proof {
            assert(seats.take(seats.len() as int) =~= seats);
        }
        let count = dealt.len();
        if count >= 2 {
            let big_blind = if seat > count {
                0
            } else {
                seat
            };
            let small_blind = if big_blind < count {
                big_blind + 1
            } else {
                0
            };
            let big_blind_address = dealt[big_blind].address;
            let small_blind_address = dealt[small_blind].address;
            let hand = Hand {
                players: dealt,
                turn_index: 0,
                big_blind_position: big_blind as u8,
                big_blind_address,
                small_blind_position: small_blind as u8,
                small_blind_address,
                hand_state: HandState::WaitingBigBlind,
                pot: 0,
            };
            self.current_hand = hand;
            Ok(())
        } else {
            Err(SolanaPokerError::RoomFull)
        }
    }

    /// The transfer with which `player` pays the big blind to `destination`:
    /// exactly the room's big blind, authorized by `authority`.
    pub fn big_blind_transfer(
        &self,
        player: &Pubkey,
        destination: &Pubkey,
        authority: &Pubkey,
        token_program: &Pubkey,
    ) -> (params: TokenTransferParams)
        ensures
            params.source == *player,
            params.destination == *destination,
            params.amount == self.big_blind,
            params.authority == *authority,
            params.token_program == *token_program,
    {
        TokenTransferParams {
            source: *player,
            destination: *destination,
            amount: self.big_blind,
            authority: *authority,
            token_program: *token_program,
        }
    }

    /// Settles the big blind's call once the token transfer of `big_blind`
    /// from the player has been attempted: a completed transfer moves the
    /// game on to the small blind, a failed one is reported and changes
    /// nothing.
    pub fn call_big_blind(&mut self, transferred: bool) -> (r: Result<(), SolanaPokerError>)
        ensures
            r is Ok <==> transferred,
            r is Ok ==> *final(self) == old(self).with_game_state(GameState::WaitingSmallBlind),
            r is Ok ==> final(self).game_state == GameState::WaitingSmallBlind
                && final(self).players == old(self).players && final(self).current_hand == old(
                self,
            ).current_hand,
            r matches Err(e) ==> e == SolanaPokerError::TokenTransferFailed && *final(self)
                == *old(self),
            old(self).wf() ==> final(self).wf(),
    {
        if transferred {
            self.game_state = GameState::WaitingSmallBlind;
            Ok(())
        } else {
            Err(SolanaPokerError::TokenTransferFailed)
        }
    }
}

impl Default for Room {
    /// The empty room: no blinds, no seats, nobody holding anything, ready
    /// for play with a blank hand.
    fn default() -> (room: Room)
        ensures
            room.small_blind == 0,
            room.big_blind == 0,
            room.max_players == 0,
            room.players@.len() == 0,
            room.creator@ == zero_key(),
            room.big_blind_position == 0,
            room.big_blind_address@ == zero_key(),
            room.small_blind_position == 0,
            room.small_blind_address@ == zero_key(),
            room.game_state == GameState::Ready,
            room.current_hand.is_blank(),
    {
        Room {
            small_blind: 0,
            big_blind: 0,
            max_players: 0,
            players: Vec::new(),
            creator: Pubkey::zero(),
            big_blind_position: 0,
            big_blind_address: Pubkey::zero(),
            small_blind_position: 0,
            small_blind_address: Pubkey::zero(),
            game_state: GameState::Ready,
            current_hand: Hand::default(),
        }
    }
}

/// Filtering with a predicate that every element meets keeps the sequence.
proof fn lemma_filter_keeps_all(s: Seq<PokerPlayer>, pred: spec_fn(PokerPlayer) -> bool)
    requires
        forall|i: int| 0 <= i < s.len() ==> pred(s[i]),
    ensures
        s.filter(pred) == s,
    decreases s.len(),
{
    reveal(Seq::filter);
    if s.len() > 0 {
        lemma_filter_keeps_all(s.drop_last(), pred);
        assert(s.drop_last().push(s.last()) =~= s);
    }
}

/// Where the last seat held by `key` is seat `j`, the seat after it is `j + 1`.
proof fn lemma_seat_after_last_holder(players: Seq<PokerPlayer>, key: Seq<u8>, j: int)
    requires
        0 <= j < players.len(),
        players[j].address@ == key,
        forall|i: int| j < i < players.len() ==> players[i].address@ != key,
    ensures
        seat_after(players, key) == j + 1,
    decreases players.len(),
{
    if j < players.len() - 1 {
        lemma_seat_after_last_holder(players.drop_last(), key, j);
    }
}

/// Where no seat is held by `key`, counting starts from the first seat.
proof fn lemma_seat_after_no_holder(players: Seq<PokerPlayer>, key: Seq<u8>)
    requires
        forall|i: int| 0 <= i < players.len() ==> players[i].address@ != key,
    ensures
        seat_after(players, key) == 0,
    decreases players.len(),
{
    if players.len() > 0 {
        lemma_seat_after_no_holder(players.drop_last(), key);
    }
}

/// A player who joins and then leaves, when nobody else at the table
/// shares their address, leaves the seats exactly as they were.
pub proof fn leave_undoes_join(players: Seq<PokerPlayer>, player: Pubkey)
    requires
        forall|i: int| 0 <= i < players.len() ==> players[i].address@ != player@,
    ensures
        without_player(players.push(PokerPlayer::seated(player)), player@) == players,
{
    players.lemma_filter_push(PokerPlayer::seated(player), other_than(player@));
    lemma_filter_keeps_all(players, other_than(player@));
}

/// After a player leaves, no seat is held by their address, and every
/// other player is still seated.
pub proof fn leave_unseats_only_that_player(players: Seq<PokerPlayer>, player: Pubkey)
    ensures
        forall|i: int|
            0 <= i < without_player(players, player@).len() ==> without_player(
                players,
                player@,
            )[i].address@ != player@,
        forall|i: int|
            0 <= i < players.len() && players[i].address@ != player@ ==> without_player(
                players,
                player@,
            ).contains(players[i]),
        without_player(players, player@).len() <= players.len(),
{
    broadcast use group_filter_ensures;

    assert forall|i: int|
        0 <= i < without_player(players, player@).len() implies without_player(
        players,
        player@,
    )[i].address@ != player@ by {
        players.lemma_filter_pred(other_than(player@), i);
    }
    assert forall|i: int| 0 <= i < players.len() && players[i].address@ != player@ implies #[trigger]
        without_player(players, player@).contains(players[i]) by {
        players.lemma_filter_contains(other_than(player@), i);
    }
}

/// When at least two players are dealt in and both blind positions name
/// one of them, the small blind sits right after the big blind, so the two
/// are different players.
pub proof fn blinds_are_distinct_players(players: Seq<PokerPlayer>, key: Seq<u8>)
    requires
        playing_players(players).len() >= 2,
        blinds_in_range(players, key),
    ensures
        ({
            let count = playing_players(players).len() as int;
            let bb = next_big_blind(players, key);
            let sb = next_small_blind(bb, count);
            &&& 0 <= bb
            &&& sb == bb + 1
            &&& sb < count
            &&& sb != bb
        }),
{
}

/// When every seated player plays, the big blind passes to the seat after
/// the previous big blind's last seat, and the small blind to the seat after
/// that, as long as both are still at the table.
pub proof fn big_blind_moves_one_seat_on(players: Seq<PokerPlayer>, key: Seq<u8>, last: int)
    requires
        forall|i: int| 0 <= i < players.len() ==> players[i].status == PlayerStatus::Playing,
        0 <= last,
        last + 2 < players.len(),
        players[last].address@ == key,
        forall|i: int| last < i < players.len() ==> players[i].address@ != key,
    ensures
        next_big_blind(players, key) == last + 1,
        next_small_blind(next_big_blind(players, key), players.len() as int) == last + 2,
        blinds_in_range(players, key),
{
    lemma_filter_keeps_all(players, playing());
    lemma_seat_after_last_holder(players, key, last);
}

/// When every seated player plays and the previous big blind's last seat is
/// the last or the one before it, the new blinds do not both name a player
/// dealt in: one of them is one past the last player.
pub proof fn blinds_leave_the_table_at_its_end(players: Seq<PokerPlayer>, key: Seq<u8>, last: int)
    requires
        forall|i: int| 0 <= i < players.len() ==> players[i].status == PlayerStatus::Playing,
        0 <= last < players.len(),
        last + 2 >= players.len(),
        players[last].address@ == key,
        forall|i: int| last < i < players.len() ==> players[i].address@ != key,
    ensures
        !blinds_in_range(players, key),
{
    lemma_filter_keeps_all(players, playing());
    lemma_seat_after_last_holder(players, key, last);
}

/// When nobody dealt in held the previous big blind, the first player dealt
/// in posts the big blind and the second the small blind.
pub proof fn blinds_start_at_first_player(players: Seq<PokerPlayer>, key: Seq<u8>)
    requires
        playing_players(players).len() >= 2,
        forall|i: int| 0 <= i < players.len() ==> players[i].address@ != key,
    ensures
        next_big_blind(players, key) == 0,
        next_small_blind(next_big_blind(players, key), playing_players(players).len() as int) == 1,
        blinds_in_range(players, key),
{
    lemma_seat_after_no_holder(players, key);
}

/// Every freshly dealt hand starts with nothing bet: the turn is at
/// position 0, the pot is empty and the hand waits for the big blind,
/// wherever the blinds sit.
pub proof fn dealt_hand_starts_empty(room: Room, hand: Hand)
    requires
        room.deals(hand),
    ensures
        hand.turn_index == 0,
        hand.pot == 0,
        hand.hand_state == HandState::WaitingBigBlind,
{
}

/// The players dealt in are exactly the playing seats: every dealt player
/// plays, every playing seat is dealt in, and sitting-out seats are not.
pub proof fn dealt_players_are_the_playing_seats(room: Room, hand: Hand)
    requires
        room.deals(hand),
    ensures
        hand.players@.len() <= room.players@.len(),
        forall|i: int|
            0 <= i < hand.players@.len() ==> (#[trigger] hand.players@[i]).status
                == PlayerStatus::Playing,
        forall|i: int|
            0 <= i < room.players@.len() && (#[trigger] room.players@[i]).status
                == PlayerStatus::Playing ==> hand.players@.contains(room.players@[i]),
{
    broadcast use group_filter_ensures;

    let seats = room.players@;
    assert forall|i: int| 0 <= i < hand.players@.len() implies (#[trigger] hand.players@[
        i
    ]).status == PlayerStatus::Playing by {
        seats.lemma_filter_pred(playing(), i);
    }
    assert forall|i: int|
        0 <= i < seats.len() && (#[trigger] seats[i]).status
            == PlayerStatus::Playing implies hand.players@.contains(seats[i]) by {
        seats.lemma_filter_contains(playing(), i);
    }
}

/// Where the previous big blind's last seat is seat `last` (counted among all
/// seats, playing or sitting out) and `last + 1` is at most the number of
/// players dealt in, the new big blind's position among them is `last + 1`,
/// and the small blind's is the next one while the big blind's is below that
/// number, else 0.
pub proof fn big_blind_follows_last_seat(room: Room, hand: Hand, last: int)
    requires
        room.deals(hand),
        0 <= last < room.players@.len(),
        room.players@[last].address@ == room.big_blind_address@,
        forall|i: int|
            last < i < room.players@.len() ==> room.players@[i].address@
                != room.big_blind_address@,
        last + 1 <= hand.players@.len(),
    ensures
        hand.big_blind_position == last + 1,
        last + 1 < hand.players@.len() ==> hand.small_blind_position == last + 2,
        last + 1 < hand.players@.len() ==> hand.big_blind_address == hand.players@[last
            + 1].address,
        last + 1 == hand.players@.len() ==> hand.small_blind_position == 0,
{
    lemma_seat_after_last_holder(room.players@, room.big_blind_address@, last);
}

/// Where the previous big blind's last seat is seat `last` and `last + 1` is
/// greater than the number of players dealt in (at least two), the first
/// player dealt in posts the big blind and the second the small blind,
/// however many seats sit out.
pub proof fn big_blind_returns_to_first_player(room: Room, hand: Hand, last: int)
    requires
        room.deals(hand),
        hand.players@.len() >= 2,
        0 <= last < room.players@.len(),
        room.players@[last].address@ == room.big_blind_address@,
        forall|i: int|
            last < i < room.players@.len() ==> room.players@[i].address@
                != room.big_blind_address@,
        last + 1 > hand.players@.len(),
    ensures
        hand.big_blind_position == 0,
        hand.big_blind_address == hand.players@[0].address,
        hand.small_blind_position == 1,
        hand.small_blind_address == hand.players@[1].address,
{
    lemma_seat_after_last_holder(room.players@, room.big_blind_address@, last);
}

/// Where no seat is held by the previous big blind's address, the first two
/// players dealt in post the big and the small blind.
pub proof fn blinds_without_previous_holder(room: Room, hand: Hand)
    requires
        room.deals(hand),
        hand.players@.len() >= 2,
        forall|i: int|
            0 <= i < room.players@.len() ==> room.players@[i].address@
                != room.big_blind_address@,
    ensures
        hand.big_blind_position == 0,
        hand.big_blind_address == hand.players@[0].address,
        hand.small_blind_position == 1,
        hand.small_blind_address == hand.players@[1].address,
{
    lemma_seat_after_no_holder(room.players@, room.big_blind_address@);
}

} // verus!
