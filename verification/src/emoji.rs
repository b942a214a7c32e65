//! The lottery's rules: how a season starts and ends, how the jackpot is
//! drawn and how a guess is judged.

use crate::kv::Guess;
use crate::kv::GuessView;
use rand::Rng;
use rand::SeedableRng;
use rand::rngs::SmallRng;
use vstd::prelude::*;
use vstd::relations::injective_on;
use vstd::set_lib::lemma_int_range;
use vstd::set_lib::lemma_map_size;
use vstd::set_lib::set_int_range;
use vstd::string::*;

verus! {

/// `char::from_u32` gives the character with code point `i`, where `i` is a
/// Unicode scalar value, and `None` for a surrogate or a number past U+10FFFF.
pub assume_specification[ char::from_u32 ](i: u32) -> (c: Option<char>)
    ensures
        c == (if i <= 0xD7FF || 0xE000 <= i <= 0x10FFFF {
            Some(i as char)
        } else {
            None::<char>
        }),
;

/// First code point a jackpot can be.
pub const EMOJI_FIRST: u32 = 0x1F3F4;

/// One past the last code point a jackpot can be.
pub const EMOJI_END: u32 = 0x1F600;

/// Whether `c` is one of the code points the jackpot is drawn from.
pub open spec fn is_lottery_emoji(c: char) -> bool {
    EMOJI_FIRST <= c as u32 && (c as u32) < EMOJI_END
}

/// The code point that the draw `x` selects.
pub open spec fn emoji_code(x: u32) -> int {
    EMOJI_FIRST + x as int % (EMOJI_END - EMOJI_FIRST)
}

/// Folds a 32-bit draw into the jackpot's code point range.
pub fn emoji_range(x: u32) -> (code: u32)
    ensures
        code == emoji_code(x),
        EMOJI_FIRST <= code < EMOJI_END,
{
    EMOJI_FIRST + x % (EMOJI_END - EMOJI_FIRST)
}

/// The byte of `x` with significance `k`: byte 0 is the lowest.
pub open spec fn byte_at(x: u128, k: nat) -> u8 {
    ((x >> (8 * k) as u128) & 0xff) as u8
}

/// Where the seed takes its byte `i` from: even positions keep their own
/// byte, odd positions are mirrored, so that the fast-changing low bytes of
/// a clock reading end up spread over the whole seed.
pub open spec fn seed_source(i: int) -> nat {
    if i % 2 == 0 {
        i as nat
    } else {
        (16 - i) as nat
    }
}

/// The seed made from `x`.
pub open spec fn seed_of(x: u128) -> Seq<u8> {
    Seq::new(16, |i: int| byte_at(x, seed_source(i)))
}

/// Spreads the bytes of `x` over a 16-byte seed.
pub fn transmute(x: u128) -> (seed: [u8; 16])
    ensures
        seed@ == seed_of(x),
{
    let b1: u8 = ((x >> 120) & 0xff) as u8;
    let b2: u8 = ((x >> 112) & 0xff) as u8;
    let b3: u8 = ((x >> 104) & 0xff) as u8;
    let b4: u8 = ((x >> 96) & 0xff) as u8;
    let b5: u8 = ((x >> 88) & 0xff) as u8;
    let b6: u8 = ((x >> 80) & 0xff) as u8;
    let b7: u8 = ((x >> 72) & 0xff) as u8;
    let b8: u8 = ((x >> 64) & 0xff) as u8;
    let b9: u8 = ((x >> 56) & 0xff) as u8;
    let b10: u8 = ((x >> 48) & 0xff) as u8;
    let b11: u8 = ((x >> 40) & 0xff) as u8;
    let b12: u8 = ((x >> 32) & 0xff) as u8;
    let b13: u8 = ((x >> 24) & 0xff) as u8;
    let b14: u8 = ((x >> 16) & 0xff) as u8;
    let b15: u8 = ((x >> 8) & 0xff) as u8;
    let b16: u8 = (x & 0xff) as u8;
    let seed = [b16, b1, b14, b3, b12, b5, b10, b7, b8, b9, b6, b11, b4, b13, b2, b15];
    assert(x >> 0 == x) by (bit_vector);
    assert(seed@ =~= seed_of(x));
    seed
}

/// The jackpot that the draw `x` selects.
pub fn emoji_from_draw(x: u32) -> (emoji: char)
    ensures
        emoji as u32 == emoji_code(x),
        is_lottery_emoji(emoji),
{
    match char::from_u32(emoji_range(x)) {
        Some(emoji) => emoji,
        None => '\u{1F4A1}',
    }
}

/// One 32-bit draw from a `rand::rngs::SmallRng` seeded with `seed`
/// (`SeedableRng::from_seed`, then `Rng::gen`). Which generator `SmallRng` is
/// depends on the platform, so nothing is promised of the number.
#[verifier::external_body]
fn seeded_draw(seed: [u8; 16]) -> u32 {
    let mut rng = SmallRng::from_seed(seed);
    rng.gen()
}

/// Draws a jackpot from a generator seeded with the clock reading `ticks`.
pub fn generate_random_emoji(ticks: u128) -> (emoji: char)
    ensures
        is_lottery_emoji(emoji),
{
    let seed = transmute(ticks);
    let x: u32 = seeded_draw(seed);
    emoji_from_draw(x)
}

/// The state of the lottery: the model of [`LotteryConfig`].
pub struct LotteryConfigView {
    pub has_winner: bool,
    pub active: bool,
    pub jackpot: Seq<char>,
    pub season: u64,
    pub retry_in_hrs: i64,
    pub config_kv_namespace: Seq<char>,
    pub data_kv_namespace: Seq<char>,
}

/// The state of the lottery, kept in the store under one key.
#[derive(Debug, PartialEq, Eq)]
pub struct LotteryConfig {
    pub has_winner: bool,
    pub active: bool,
    pub jackpot: String,
    pub season: u64,
    pub retry_in_hrs: i64,
    pub config_kv_namespace: String,
    pub data_kv_namespace: String,
}

impl View for LotteryConfig {
    type V = LotteryConfigView;

    open spec fn view(&self) -> LotteryConfigView {
        LotteryConfigView {
            has_winner: self.has_winner,
            active: self.active,
            jackpot: self.jackpot@,
            season: self.season,
            retry_in_hrs: self.retry_in_hrs,
            config_kv_namespace: self.config_kv_namespace@,
            data_kv_namespace: self.data_kv_namespace@,
        }
    }
}

impl Clone for LotteryConfig {
    fn clone(&self) -> (copy: Self)
        ensures
            copy == *self,
    {
        LotteryConfig {
            has_winner: self.has_winner,
            active: self.active,
            jackpot: self.jackpot.clone(),
            season: self.season,
            retry_in_hrs: self.retry_in_hrs,
            config_kv_namespace: self.config_kv_namespace.clone(),
            data_kv_namespace: self.data_kv_namespace.clone(),
        }
    }
}

impl LotteryConfigView {
    /// While a season runs the jackpot is exactly one character.
    pub open spec fn well_formed(self) -> bool {
        self.active ==> self.jackpot.len() == 1
    }

    /// The state after a season has started with the jackpot `jackpot`.
    pub open spec fn commence(self, jackpot: char) -> LotteryConfigView {
        LotteryConfigView {
            has_winner: false,
            active: true,
            jackpot: seq![jackpot],
            season: (self.season + 1) as u64,
            ..self
        }
    }

    /// The state after the season has ended.
    pub open spec fn end(self) -> LotteryConfigView {
        LotteryConfigView { active: false, ..self }
    }
}

impl LotteryConfig {
    /// The key under which the store keeps the lottery's state.
    pub fn kv_key(&self) -> (key: String)
        ensures
            key@ == "lotteryConfig"@,
    {
        String::from_str("lotteryConfig")
    }

    /// Starts the next season with the given jackpot.
    pub fn commence_with(&self, jackpot: char) -> (next: Self)
        requires
            self.season < u64::MAX,
        ensures
            next@ == self@.commence(jackpot),
            next@.well_formed(),
    {
        let mut text = String::new();
        text.push(jackpot);
        LotteryConfig {
            has_winner: false,
            active: true,
            jackpot: text,
            season: self.season + 1,
            retry_in_hrs: self.retry_in_hrs,
            config_kv_namespace: self.config_kv_namespace.clone(),
            data_kv_namespace: self.data_kv_namespace.clone(),
        }
    }

    /// Starts the next season, with a jackpot drawn from a generator that is
    /// seeded with the clock reading `ticks`.
    pub fn commence(&self, ticks: u128) -> (next: Self)
        requires
            self.season < u64::MAX,
        ensures
            exists|jackpot: char| is_lottery_emoji(jackpot) && next@ == self@.commence(jackpot),
            next@.well_formed(),
    {
        let jackpot = generate_random_emoji(ticks);
        self.commence_with(jackpot)
    }

    /// Ends the season. The season's number stays: it advances when the next
    /// season starts.
    pub fn end(&self) -> (next: Self)
        ensures
            next@ == self@.end(),
            self@.well_formed() ==> next@.well_formed(),
    {
        LotteryConfig {
            has_winner: self.has_winner,
            active: false,
            jackpot: self.jackpot.clone(),
            season: self.season,
            retry_in_hrs: self.retry_in_hrs,
            config_kv_namespace: self.config_kv_namespace.clone(),
            data_kv_namespace: self.data_kv_namespace.clone(),
        }
    }
}

/// Why a guess was turned away.
#[derive(Clone, Copy, Debug, PartialEq, Eq, Structural)]
pub enum RejectReason {
    /// No season is running.
    Inactive,
}

/// What becomes of a guess.
#[derive(Clone, Copy, Debug, PartialEq, Eq, Structural)]
pub enum SubmissionOutcome {
    /// The guess was not looked at.
    Rejected(RejectReason),
    /// The guess is the jackpot.
    Jackpot,
    /// The submitter has to wait until the epoch second `retry_after`.
    Throttled { retry_after: i128 },
    /// The guess is wrong and becomes the submitter's latest guess.
    Accepted,
}

/// The first epoch second at which a submitter whose latest guess was made
/// at `last_created_at` may guess again.
pub open spec fn retry_time(last_created_at: i64, retry_in_hrs: i64) -> int {
    last_created_at + retry_in_hrs * 3600
}

/// The rule by which a guess is judged: a lottery that is not running
/// rejects it; the jackpot wins at any time; otherwise a submitter who has
/// guessed before waits until the retry time, which itself is free again.
pub open spec fn evaluate(
    config: LotteryConfigView,
    last_guess: Option<GuessView>,
    incoming: GuessView,
) -> SubmissionOutcome {
    if !config.active {
        SubmissionOutcome::Rejected(RejectReason::Inactive)
    } else if incoming.value == config.jackpot {
        SubmissionOutcome::Jackpot
    } else if last_guess is Some && incoming.created_at < retry_time(
        last_guess.unwrap().created_at,
        config.retry_in_hrs,
    ) {
        SubmissionOutcome::Throttled {
            retry_after: retry_time(last_guess.unwrap().created_at, config.retry_in_hrs) as i128,
        }
    } else {
        SubmissionOutcome::Accepted
    }
}

/// The model of a guess that may be absent.
pub open spec fn guess_view(guess: Option<&Guess>) -> Option<GuessView> {
    match guess {
        Some(g) => Some(g@),
        None => None,
    }
}

/// Judges the guess `incoming` of a submitter whose latest guess so far is
/// `last_guess`.
pub fn evaluate_submission(
    config: &LotteryConfig,
    last_guess: Option<&Guess>,
    incoming: &Guess,
) -> (outcome: SubmissionOutcome)
    ensures
        outcome == evaluate(config@, guess_view(last_guess), incoming@),
{
    if !config.active {
        return SubmissionOutcome::Rejected(RejectReason::Inactive);
    }
    if incoming.value == config.jackpot {
        return SubmissionOutcome::Jackpot;
    }
    match last_guess {
        Some(last) => {
            let retry_after: i128 = last.created_at as i128 + config.retry_in_hrs as i128 * 3600;
            if (incoming.created_at as i128) < retry_after {
                SubmissionOutcome::Throttled { retry_after }
            } else {
                SubmissionOutcome::Accepted
            }
        },
        None => SubmissionOutcome::Accepted,
    }
}

/// Cooldown boundary: in a running season a wrong guess made one second
/// before the retry time is throttled until the retry time, and a wrong
/// guess made exactly at the retry time is accepted.
pub proof fn lemma_cooldown_boundary(
    config: LotteryConfigView,
    last_guess: GuessView,
    incoming: GuessView,
)
    requires
        config.active,
        incoming.value != config.jackpot,
    ensures
        incoming.created_at == retry_time(last_guess.created_at, config.retry_in_hrs) - 1
            ==> evaluate(config, Some(last_guess), incoming) == (SubmissionOutcome::Throttled {
            retry_after: retry_time(last_guess.created_at, config.retry_in_hrs) as i128,
        }),
        incoming.created_at == retry_time(last_guess.created_at, config.retry_in_hrs)
            ==> evaluate(config, Some(last_guess), incoming) == SubmissionOutcome::Accepted,
        evaluate(config, Some(last_guess), incoming) is Throttled <==> incoming.created_at
            < retry_time(last_guess.created_at, config.retry_in_hrs),
{
}

/// What the store keeps stays in order: where waiting is not negative, a
/// guess that is accepted in place of an earlier one is not older than it.
pub proof fn lemma_accepted_guess_is_not_older(
    config: LotteryConfigView,
    last_guess: GuessView,
    incoming: GuessView,
)
    requires
        config.retry_in_hrs >= 0,
        evaluate(config, Some(last_guess), incoming) == SubmissionOutcome::Accepted,
    ensures
        incoming.created_at >= last_guess.created_at,
{
}

/// Jackpot bypass: in a running season a guess equal to the jackpot wins,
/// whatever the submitter's latest guess and however recent it is.
pub proof fn lemma_jackpot_bypass(
    config: LotteryConfigView,
    last_guess: Option<GuessView>,
    incoming: GuessView,
)
    requires
        config.active,
        incoming.value == config.jackpot,
    ensures
        evaluate(config, last_guess, incoming) == SubmissionOutcome::Jackpot,
{
}

/// Inactive gate: while no season runs every guess is rejected as inactive,
/// the jackpot included, whatever the cooldown would say.
pub proof fn lemma_inactive_gate(
    config: LotteryConfigView,
    last_guess: Option<GuessView>,
    incoming: GuessView,
)
    requires
        !config.active,
    ensures
        evaluate(config, last_guess, incoming) == SubmissionOutcome::Rejected(
            RejectReason::Inactive,
        ),
{
}

/// Season monotonicity: starting a season adds one to the season's number,
/// ending it leaves the number alone, so the number never goes down.
pub proof fn lemma_season_monotonic(config: LotteryConfigView, jackpot: char)
    requires
        config.season < u64::MAX,
    ensures
        config.commence(jackpot).season == config.season + 1,
        config.end().season == config.season,
        config.end().commence(jackpot).season == config.season + 1,
        config.commence(jackpot).end().season == config.season + 1,
{
}

/// The seed keeps all of the clock reading: two readings with the same
/// seed are the same reading.
pub proof fn lemma_seed_is_injective(x: u128, y: u128)
    requires
        seed_of(x) == seed_of(y),
    ensures
        x == y,
{
    assert forall|k: nat| k < 16 implies byte_at(x, k) == byte_at(y, k) by {
        let i: int = if k % 2 == 0 {
            k as int
        } else {
            16 - k
        };
        assert(seed_source(i) == k);
        assert(seed_of(x)[i] == byte_at(x, k));
        assert(seed_of(y)[i] == byte_at(y, k));
    }
    assert(byte_at(x, 0) == byte_at(y, 0));
    assert(byte_at(x, 1) == byte_at(y, 1));
    assert(byte_at(x, 2) == byte_at(y, 2));
    assert(byte_at(x, 3) == byte_at(y, 3));
    assert(byte_at(x, 4) == byte_at(y, 4));
    assert(byte_at(x, 5) == byte_at(y, 5));
    assert(byte_at(x, 6) == byte_at(y, 6));
    assert(byte_at(x, 7) == byte_at(y, 7));
    assert(byte_at(x, 8) == byte_at(y, 8));
    assert(byte_at(x, 9) == byte_at(y, 9));
    assert(byte_at(x, 10) == byte_at(y, 10));
    assert(byte_at(x, 11) == byte_at(y, 11));
    assert(byte_at(x, 12) == byte_at(y, 12));
    assert(byte_at(x, 13) == byte_at(y, 13));
    assert(byte_at(x, 14) == byte_at(y, 14));
    assert(byte_at(x, 15) == byte_at(y, 15));
    assert(x == y) by (bit_vector)
        requires
            ((x >> 0) & 0xff) as u8 == ((y >> 0) & 0xff) as u8,
            ((x >> 8) & 0xff) as u8 == ((y >> 8) & 0xff) as u8,
            ((x >> 16) & 0xff) as u8 == ((y >> 16) & 0xff) as u8,
            ((x >> 24) & 0xff) as u8 == ((y >> 24) & 0xff) as u8,
            ((x >> 32) & 0xff) as u8 == ((y >> 32) & 0xff) as u8,
            ((x >> 40) & 0xff) as u8 == ((y >> 40) & 0xff) as u8,
            ((x >> 48) & 0xff) as u8 == ((y >> 48) & 0xff) as u8,
            ((x >> 56) & 0xff) as u8 == ((y >> 56) & 0xff) as u8,
            ((x >> 64) & 0xff) as u8 == ((y >> 64) & 0xff) as u8,
            ((x >> 72) & 0xff) as u8 == ((y >> 72) & 0xff) as u8,
            ((x >> 80) & 0xff) as u8 == ((y >> 80) & 0xff) as u8,
            ((x >> 88) & 0xff) as u8 == ((y >> 88) & 0xff) as u8,
            ((x >> 96) & 0xff) as u8 == ((y >> 96) & 0xff) as u8,
            ((x >> 104) & 0xff) as u8 == ((y >> 104) & 0xff) as u8,
            ((x >> 112) & 0xff) as u8 == ((y >> 112) & 0xff) as u8,
            ((x >> 120) & 0xff) as u8 == ((y >> 120) & 0xff) as u8,
    ;
}

/// The fold is even: any run of consecutive draws as long as the range
/// selects every code point of the range once, so that no code point is
/// favoured by more than one draw in all.
pub proof fn lemma_emoji_fold_is_even(x: u32, y: u32)
    requires
        x < y,
        y - x < EMOJI_END - EMOJI_FIRST,
    ensures
        emoji_code(x) != emoji_code(y),
        y + (EMOJI_END - EMOJI_FIRST) <= u32::MAX ==> emoji_code(
            (y + (EMOJI_END - EMOJI_FIRST)) as u32,
        ) == emoji_code(y),
{
    assert(EMOJI_END - EMOJI_FIRST == 524);
    assert(emoji_code(x) == EMOJI_FIRST + (x as int) % 524);
    assert(emoji_code(y) == EMOJI_FIRST + (y as int) % 524);
    if y + 524 <= u32::MAX {
        let z: u32 = (y + 524) as u32;
        assert(emoji_code(z) == EMOJI_FIRST + (z as int) % 524);
    }
}

/// The draws that select the code point `code`.
pub open spec fn draws_of(code: int) -> Set<u32> {
    Set::new(|x: u32| emoji_code(x) == code)
}

/// No code point is favoured: of all 32-bit draws, each code point of the
/// range is selected by 8196502 or by 8196503, the first 248 code points by
/// one draw more than the rest. So a generator that spreads its draws evenly
/// spreads the jackpots evenly, up to one draw in eight million.
pub proof fn lemma_emoji_preimages(code: int)
    requires
        EMOJI_FIRST <= code < EMOJI_END,
    ensures
        draws_of(code).finite(),
        draws_of(code).len() == if code - EMOJI_FIRST < 248 {
            8196503int
        } else {
            8196502int
        },
{
    let r = code - EMOJI_FIRST;
    let count: int = if r < 248 {
        8196503
    } else {
        8196502
    };
    let f = |q: int| (524 * q + r) as u32;
    let quotients = set_int_range(0, count);
    lemma_int_range(0, count);
    assert(EMOJI_END - EMOJI_FIRST == 524);
    assert forall|x: u32| draws_of(code).contains(x) implies quotients.map(f).contains(x) by {
        let q = x as int / 524;
        assert(emoji_code(x) == EMOJI_FIRST + (x as int) % 524);
        assert(x as int == 524 * q + r);
        assert(quotients.contains(q));
        assert(f(q) == x);
    }
    assert forall|x: u32| quotients.map(f).contains(x) implies draws_of(code).contains(x) by {
        let q = choose|q: int| quotients.contains(q) && x == f(q);
        assert(0 <= 524 * q + r <= u32::MAX);
        assert(x as int == 524 * q + r);
        assert(emoji_code(x) == EMOJI_FIRST + (x as int) % 524);
    }
    assert(quotients.map(f) =~= draws_of(code));
    assert(injective_on(f, quotients)) by {
        assert forall|p: int, q: int|
            quotients.contains(p) && quotients.contains(q) && f(p) == f(q) implies p == q by {
            assert(0 <= 524 * p + r <= u32::MAX);
            assert(0 <= 524 * q + r <= u32::MAX);
        }
    }
    lemma_map_size(quotients, draws_of(code), f);
}

/// Range coverage: every code point of the jackpot range is selected by
/// some draw, and no draw selects a code point outside the range.
pub proof fn lemma_emoji_coverage(code: int)
    ensures
        EMOJI_FIRST <= code < EMOJI_END <==> exists|x: u32| #[trigger] emoji_code(x) == code,
{
    if EMOJI_FIRST <= code < EMOJI_END {
        let x: u32 = (code - EMOJI_FIRST) as u32;
        assert(emoji_code(x) == code);
    }
}

} // verus!
