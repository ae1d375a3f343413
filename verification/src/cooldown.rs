//! The cooldown between an observed event and the next paired operation.

use crate::address::{full_text, lemma_full_text_injective, lemma_hex_text_len, Address};
use vstd::prelude::*;
use vstd::string::*;
use vstd::utf8::encode_utf8;

verus! {

/// Which operation is about to be made.
#[derive(Clone, Copy, Debug, PartialEq, Eq, Structural)]
pub enum RoleTag {
    Deposit,
    Withdrawal,
}

impl RoleTag {
    /// The literal that stands for the role in a cooldown seed.
    pub open spec fn text(self) -> Seq<char> {
        match self {
            RoleTag::Deposit => "deposit"@,
            RoleTag::Withdrawal => "withdrawal"@,
        }
    }

    /// The role's literal as text.
    pub fn as_str(&self) -> (res: &'static str)
        ensures
            res@ == self.text(),
    {
        match self {
            RoleTag::Deposit => "deposit",
            RoleTag::Withdrawal => "withdrawal",
        }
    }
}

/// The half-open window `[min, max)` of seconds from which a cooldown is drawn.
#[derive(Clone, Copy, Debug, PartialEq, Eq, Structural)]
pub struct CooldownRange {
    pub min: u64,
    pub max: u64,
}

impl CooldownRange {
    /// A window holds at least one duration.
    pub open spec fn valid(self) -> bool {
        self.min < self.max
    }

    pub open spec fn contains(self, seconds: u64) -> bool {
        self.min <= seconds < self.max
    }

    /// Checks the two settings of the window once, when they are read.
    pub fn new(min: u64, max: u64) -> (res: Result<CooldownRange, ConfigurationError>)
        ensures
            min < max ==> res == Ok::<CooldownRange, ConfigurationError>(CooldownRange { min, max }),
            min >= max ==> res == Err::<CooldownRange, ConfigurationError>(
                ConfigurationError::EmptyCooldownRange { min, max },
            ),
    {
        if min < max {
            Ok(CooldownRange { min, max })
        } else {
            Err(ConfigurationError::EmptyCooldownRange { min, max })
        }
    }
}

/// A setting that cannot be worked with.
#[derive(Clone, Copy, Debug, PartialEq, Eq, Structural)]
pub enum ConfigurationError {
    /// The cooldown window is empty: `min >= max`.
    EmptyCooldownRange { min: u64, max: u64 },
    /// A retry policy that allows no attempt at all.
    NoAttemptAllowed,
}

/// The character of a decimal digit.
pub open spec fn decimal_digit(digit: nat) -> char {
    "0123456789"@[digit as int]
}

/// The decimal digits of a number, most significant first, `0` for zero.
pub open spec fn decimal_text(n: nat) -> Seq<char>
    decreases n,
{
    if n < 10 {
        seq![decimal_digit(n)]
    } else {
        decimal_text(n / 10) + seq![decimal_digit(n % 10)]
    }
}

/// The seed of a cooldown: the event time in decimal, the address with
/// every one of its bytes, and the role, one after the other.
pub open spec fn seed_text(last_time: u64, address: Seq<u8>, role: RoleTag) -> Seq<char> {
    decimal_text(last_time as nat) + full_text(address) + role.text()
}

/// The Keccak-256 digest of a byte string.
pub uninterp spec fn keccak256_digest(input: Seq<u8>) -> Seq<u8>;

/// The first value that a ChaCha20 generator seeded with `seed` draws from `[min, max)`.
pub uninterp spec fn chacha20_draw(seed: Seq<u8>, min: u64, max: u64) -> u64;

/// The cooldown that belongs to an event, an address, a role and a window.
pub open spec fn cooldown_of(last_time: u64, address: Seq<u8>, role: RoleTag, range: CooldownRange) -> u64 {
    chacha20_draw(
        keccak256_digest(encode_utf8(seed_text(last_time, address, role))),
        range.min,
        range.max,
    )
}

fn digit_str(digit: u64) -> (res: &'static str)
    requires
        digit < 10,
    ensures
        res@ == seq![decimal_digit(digit as nat)],
{
    proof {
        reveal_strlit("0123456789");
        reveal_strlit("0");
        reveal_strlit("1");
        reveal_strlit("2");
        reveal_strlit("3");
        reveal_strlit("4");
        reveal_strlit("5");
        reveal_strlit("6");
        reveal_strlit("7");
        reveal_strlit("8");
        reveal_strlit("9");
    }
    let res = match digit {
        0 => "0",
        1 => "1",
        2 => "2",
        3 => "3",
        4 => "4",
        5 => "5",
        6 => "6",
        7 => "7",
        8 => "8",
        _ => "9",
    };
    assert(res@ =~= seq![decimal_digit(digit as nat)]);
    res
}

/// Writes a number in decimal digits, without sign, padding or leading zeros.
pub fn decimal_string(n: u64) -> (res: String)
    ensures
        res@ == decimal_text(n as nat),
{
    let mut rest: u64 = n / 10;
    let mut text = String::from_str(digit_str(n % 10));
    assert(decimal_text(n as nat) =~= (if rest == 0 {
        Seq::<char>::empty()
    } else {
        decimal_text(rest as nat)
    }) + text@);
    while rest > 0
        invariant
            decimal_text(n as nat) == (if rest == 0 {
                Seq::<char>::empty()
            } else {
                decimal_text(rest as nat)
            }) + text@,
        decreases rest,
    {
        let ghost before = text@;
        let ghost shown = rest;
        let head = String::from_str(digit_str(rest % 10));
        text = head.concat(text.as_str());
        rest = rest / 10;
        assert(decimal_text(shown as nat) + before =~= (if rest == 0 {
            Seq::<char>::empty()
        } else {
            decimal_text(rest as nat)
        }) + text@);
    }
    assert(Seq::<char>::empty() + text@ =~= text@);
    text
}

/// Calls `ethers::utils::keccak256`. Trusted: the result is a function of
/// the input bytes alone, the Keccak-256 digest.
#[verifier::external_body]
fn keccak256(input: &[u8]) -> (res: [u8; 32])
    ensures
        res@ == keccak256_digest(input@),
{
    ethers::utils::keccak256(input)
}

/// Seeds a `rand_chacha::ChaCha20Rng` with `from_seed` and draws once with
/// `rand::Rng::gen_range` on `min..max`. Trusted: the value depends on the
/// seed and the bounds alone and lies inside the range; the call panics on
/// an empty range, which `requires` leaves out.
#[verifier::external_body]
fn draw_in_range(seed: [u8; 32], min: u64, max: u64) -> (res: u64)
    requires
        min < max,
    ensures
        res == chacha20_draw(seed@, min, max),
        min <= res < max,
{
    let mut rng: rand_chacha::ChaCha20Rng = rand::SeedableRng::from_seed(seed);
    rand::Rng::gen_range(&mut rng, min..max)
}

/// Builds the seed of a cooldown as text.
pub fn seed_string(last_time: u64, address: &Address, role: RoleTag) -> (res: String)
    ensures
        res@ == seed_text(last_time, address@, role),
{
    let mut seed = decimal_string(last_time);
    let shown = address.to_full_string();
    seed.append(shown.as_str());
    seed.append(role.as_str());
    seed
}

/// Derives the cooldown after the event at `last_time` of `address`.
///
/// The same inputs always give the same duration; it lies in the window;
/// an empty window is reported and never clamped.
pub fn determin_sleep_time(
    last_time: u64,
    address: &Address,
    role: RoleTag,
    range: CooldownRange,
) -> (res: Result<u64, ConfigurationError>)
    ensures
        !range.valid() ==> res == Err::<u64, ConfigurationError>(
            ConfigurationError::EmptyCooldownRange { min: range.min, max: range.max },
        ),
        range.valid() ==> res == Ok::<u64, ConfigurationError>(
            cooldown_of(last_time, address@, role, range),
        ),
        res matches Ok(seconds) ==> range.contains(seconds),
{
    if range.min >= range.max {
        return Err(ConfigurationError::EmptyCooldownRange { min: range.min, max: range.max });
    }
    let seed = seed_string(last_time, address, role);
    let digest = keccak256(seed.as_str().as_bytes());
    Ok(draw_in_range(digest, range.min, range.max))
}

/// For one event time and one role, addresses that differ in any byte have
/// different seeds.
pub proof fn lemma_seed_tells_addresses_apart(
    last_time: u64,
    address_a: Address,
    address_b: Address,
    role: RoleTag,
)
    requires
        address_a@ != address_b@,
    ensures
        seed_text(last_time, address_a@, role) != seed_text(last_time, address_b@, role),
{
    let time = decimal_text(last_time as nat);
    let text_a = full_text(address_a@);
    let text_b = full_text(address_b@);
    lemma_hex_text_len(address_a@);
    lemma_hex_text_len(address_b@);
    assert(text_a.len() == 42 && text_b.len() == 42);
    if seed_text(last_time, address_a@, role) == seed_text(last_time, address_b@, role) {
        let start = time.len() as int;
        assert(text_a =~= (time + text_a + role.text()).subrange(start, start + 42));
        assert(text_b =~= (time + text_b + role.text()).subrange(start, start + 42));
        lemma_full_text_injective(address_a@, address_b@);
    }
}

/// Two derivations from equal inputs agree.
pub proof fn lemma_cooldown_deterministic(
    time_a: u64,
    address_a: Address,
    role_a: RoleTag,
    range_a: CooldownRange,
    time_b: u64,
    address_b: Address,
    role_b: RoleTag,
    range_b: CooldownRange,
)
    requires
        time_a == time_b,
        address_a@ == address_b@,
        role_a == role_b,
        range_a == range_b,
    ensures
        cooldown_of(time_a, address_a@, role_a, range_a) == cooldown_of(
            time_b,
            address_b@,
            role_b,
            range_b,
        ),
{
}

} // verus!
