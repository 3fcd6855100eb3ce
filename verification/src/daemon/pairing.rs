//! Pairing by a number that is shown on one machine and typed on the other.

use rand::Rng;
use vstd::prelude::*;
use vstd::string::*;

verus! {

/// How many numbers there are to choose from.
pub const PIN_COUNT: u32 = 1_000_000;

/// How far the pairing has come.
pub enum PairingPhase {
    /// There is none.
    Idle,
    /// The user is to type the number that the other machine shows.
    AwaitingPin { peer_name: String, peer_addr: String },
    /// The number is shown.
    DisplayingPin { pin: String, peer_name: String, peer_addr: String },
    /// The number is being checked.
    Verifying,
    Trusted { peer_name: String },
    Failed { reason: String },
}

/// What a [`PairingPhase`] stands for.
pub enum Phase {
    Idle,
    AwaitingPin { peer_name: Seq<char>, peer_addr: Seq<char> },
    DisplayingPin { pin: Seq<char>, peer_name: Seq<char>, peer_addr: Seq<char> },
    Verifying,
    Trusted { peer_name: Seq<char> },
    Failed { reason: Seq<char> },
}

impl View for PairingPhase {
    type V = Phase;

    open spec fn view(&self) -> Phase {
        match self {
            PairingPhase::Idle => Phase::Idle,
            PairingPhase::AwaitingPin { peer_name, peer_addr } => Phase::AwaitingPin {
                peer_name: peer_name@,
                peer_addr: peer_addr@,
            },
            PairingPhase::DisplayingPin { pin, peer_name, peer_addr } => Phase::DisplayingPin {
                pin: pin@,
                peer_name: peer_name@,
                peer_addr: peer_addr@,
            },
            PairingPhase::Verifying => Phase::Verifying,
            PairingPhase::Trusted { peer_name } => Phase::Trusted { peer_name: peer_name@ },
            PairingPhase::Failed { reason } => Phase::Failed { reason: reason@ },
        }
    }
}

/// The pairing that is under way, and the number that the user has typed.
pub struct Pairing {
    pub phase: PairingPhase,
    pub submitted: Option<String>,
}

impl Pairing {
    pub fn new() -> (r: Self)
        ensures
            r.phase@ == Phase::Idle,
            r.submitted is None,
    {
        Pairing { phase: PairingPhase::Idle, submitted: None }
    }

    pub fn current_phase(&self) -> (r: PairingPhase)
        ensures
            r@ == self.phase@,
    {
        match &self.phase {
            PairingPhase::Idle => PairingPhase::Idle,
            PairingPhase::AwaitingPin { peer_name, peer_addr } => PairingPhase::AwaitingPin {
                peer_name: peer_name.clone(),
                peer_addr: peer_addr.clone(),
            },
            PairingPhase::DisplayingPin { pin, peer_name, peer_addr } => PairingPhase::DisplayingPin {
                pin: pin.clone(),
                peer_name: peer_name.clone(),
                peer_addr: peer_addr.clone(),
            },
            PairingPhase::Verifying => PairingPhase::Verifying,
            PairingPhase::Trusted { peer_name } => PairingPhase::Trusted {
                peer_name: peer_name.clone(),
            },
            PairingPhase::Failed { reason } => PairingPhase::Failed { reason: reason.clone() },
        }
    }

    pub fn set_phase(&mut self, p: PairingPhase)
        ensures
            *final(self) == (Pairing { phase: p, ..*old(self) }),
    {
        self.phase = p;
    }

    /// The user has typed a number; it takes the place of one that was not
    /// fetched.
    pub fn submit_pin(&mut self, pin: String)
        ensures
            *final(self) == (Pairing { submitted: Some(pin), ..*old(self) }),
    {
        self.submitted = Some(pin);
    }

    /// Fetches the number that was typed, once.
    pub fn take_submitted_pin(&mut self) -> (r: Option<String>)
        ensures
            r == old(self).submitted,
            *final(self) == (Pairing { submitted: None, ..*old(self) }),
    {
        self.submitted.take()
    }
}

/// `rand::Rng::random_range` gives a number of the range, here one below
/// `limit`; which one is left to chance. It panics on an empty range.
#[verifier::external_body]
fn random_below(limit: u32) -> (r: u32)
    requires
        limit > 0,
    ensures
        r < limit,
{
    rand::rng().random_range(0..limit)
}

/// The last `width` decimal digits of a number, zeros in front.
pub open spec fn digits(n: nat, width: nat) -> Seq<char>
    decreases width,
{
    if width == 0 {
        Seq::empty()
    } else {
        digits(n / 10, (width - 1) as nat).push(('0' as u32 + n % 10) as char)
    }
}

/// The number as it is shown.
pub open spec fn pin_text(n: u32) -> Seq<char> {
    digits(n as nat, 6)
}

fn push_digits(out: &mut String, n: u32, width: usize)
    ensures
        final(out)@ == old(out)@ + digits(n as nat, width as nat),
    decreases width,
{
    if width > 0 {
        push_digits(out, n / 10, width - 1);
        out.push(((n % 10) as u8 + 48) as char);
        assert(out@ =~= old(out)@ + digits(n as nat, width as nat));
    } else {
        assert(out@ =~= old(out)@ + digits(n as nat, 0));
    }
}

/// Writes a number as it is shown.
pub fn format_pin(n: u32) -> (r: String)
    ensures
        r@ == pin_text(n),
{
    let mut r = String::new();
    push_digits(&mut r, n, 6);
    assert(r@ =~= pin_text(n));
    r
}

/// Makes a number for a pairing.
pub fn generate_pin() -> (r: String)
    ensures
        exists|n: u32| n < PIN_COUNT && r@ == #[trigger] pin_text(n),
{
    let n: u32 = random_below(PIN_COUNT);
    format_pin(n)
}

proof fn lemma_digits(n: nat, width: nat)
    ensures
        digits(n, width).len() == width,
        forall|i: int| 0 <= i < width ==> '0' <= #[trigger] digits(n, width)[i] <= '9',
    decreases width,
{
    if width > 0 {
        lemma_digits(n / 10, (width - 1) as nat);
        let head = digits(n / 10, (width - 1) as nat);
        assert forall|i: int| 0 <= i < width implies '0' <= #[trigger] digits(n, width)[i]
            <= '9' by {
            if i < width - 1 {
                assert(digits(n, width)[i] == head[i]);
            }
        }
    }
}

/// A number is shown in six digits.
pub proof fn a_pin_has_six_digits(n: u32)
    ensures
        pin_text(n).len() == 6,
        forall|i: int| 0 <= i < 6 ==> '0' <= #[trigger] pin_text(n)[i] <= '9',
{
    lemma_digits(n as nat, 6);
}

proof fn lemma_apart(a: nat, b: nat, width: nat, bound: nat)
    requires
        digits(a, width) == digits(b, width),
        bound == vstd::arithmetic::power::pow(10, width),
        a < bound,
        b < bound,
    ensures
        a == b,
    decreases width,
{
    if width > 0 {
        let w = (width - 1) as nat;
        lemma_digits(a / 10, w);
        lemma_digits(b / 10, w);
        assert(digits(a, width).drop_last() =~= digits(a / 10, w));
        assert(digits(b, width).drop_last() =~= digits(b / 10, w));
        assert(digits(a, width).last() == digits(b, width).last());
        let da = a % 10;
        let db = b % 10;
        assert(digits(a, width).last() == ('0' as u32 + da) as char);
        assert(digits(b, width).last() == ('0' as u32 + db) as char);
        assert(da < 10 && db < 10);
        assert(('0' as u32 + da) as char as int == 48 + da);
        assert(('0' as u32 + db) as char as int == 48 + db);
        assert(a % 10 == b % 10);
        reveal_with_fuel(vstd::arithmetic::power::pow, 2);
        let smaller = vstd::arithmetic::power::pow(10, w);
        vstd::arithmetic::power::lemma_pow_positive(10, w);
        assert(bound == 10 * smaller);
        lemma_apart(a / 10, b / 10, w, smaller as nat);
    } else {
        reveal_with_fuel(vstd::arithmetic::power::pow, 2);
    }
}

/// No two numbers are shown alike.
pub proof fn pins_tell_numbers_apart(a: u32, b: u32)
    requires
        a < PIN_COUNT,
        b < PIN_COUNT,
        pin_text(a) == pin_text(b),
    ensures
        a == b,
{
    reveal_with_fuel(vstd::arithmetic::power::pow, 8);
    assert(vstd::arithmetic::power::pow(10, 6) == 1_000_000);
    lemma_apart(a as nat, b as nat, 6, 1_000_000);
}

/// A PIN that was submitted is taken once, and the last one counts.
pub proof fn a_submitted_pin_is_taken_once(
    p: (&mut Pairing, &mut Pairing, &mut Pairing, &mut Pairing),
    pins: (String, String),
    r: (Option<String>, Option<String>),
)
    requires
        call_ensures(Pairing::submit_pin, (p.0, pins.0), ()),
        *old(p.1) == *final(p.0),
        call_ensures(Pairing::submit_pin, (p.1, pins.1), ()),
        *old(p.2) == *final(p.1),
        call_ensures(Pairing::take_submitted_pin, (p.2,), r.0),
        *old(p.3) == *final(p.2),
        call_ensures(Pairing::take_submitted_pin, (p.3,), r.1),
    ensures
        r.0 == Some(pins.1),
        r.1 is None,
        final(p.3).phase == old(p.0).phase,
{
}

/// The phase that was set is the one that is shown.
pub proof fn the_phase_that_is_set_is_shown(p: &mut Pairing, phase: PairingPhase, r: PairingPhase)
    requires
        call_ensures(Pairing::set_phase, (p, phase), ()),
        call_ensures(Pairing::current_phase, (&*final(p),), r),
    ensures
        r@ == phase@,
        final(p).submitted == old(p).submitted,
{
}

} // verus!
