//! Currency amounts in cents, the player's wallet and debts.

use vstd::prelude::*;
use crate::random::{gen_range, thread_rng};
use crate::timer::{Countdown, CountdownModel, TimerMode};

verus! {

/// `amount * part / whole`, rounded to the nearest integer, halves away from
/// zero.
pub open spec fn rounded_share(amount: int, part: nat, whole: nat) -> int
    recommends
        whole > 0,
{
    if amount >= 0 {
        (2 * amount * part + whole) / (2 * whole as int)
    } else {
        -((2 * (-amount) * part + whole) / (2 * whole as int))
    }
}

/// An amount of money in cents. Negative amounts are debts or charges.
#[derive(Clone, Copy, Debug, PartialEq, Eq, Structural)]
pub struct Money {
    pub cents: i64,
}

impl View for Money {
    type V = int;

    open spec fn view(&self) -> int {
        self.cents as int
    }
}

impl Default for Money {
    /// No money at all.
    fn default() -> (r: Money)
        ensures
            r@ == 0,
    {
        Money { cents: 0 }
    }
}

impl Money {
    /// The amount of `cents` cents.
    pub fn from_cents(cents: i64) -> (r: Money)
        ensures
            r@ == cents,
    {
        Money { cents }
    }

    /// The amount in cents.
    pub fn cents(&self) -> (r: i64)
        ensures
            r == self@,
    {
        self.cents
    }

    /// This amount times `numer / denom`, rounded to the nearest cent, halves
    /// away from zero.
    pub fn scale(self, numer: u32, denom: u32) -> (r: Money)
        requires
            denom > 0,
            i64::MIN <= rounded_share(self@, numer as nat, denom as nat) <= i64::MAX,
        ensures
            r@ == rounded_share(self@, numer as nat, denom as nat),
    {
        let magnitude: i128 = if self.cents >= 0 {
            self.cents as i128
        } else {
            -(self.cents as i128)
        };
        let twice: i128 = 2 * magnitude;
        assert(0 <= twice * (numer as int) <= twice * 0xffff_ffff) by (nonlinear_arith)
            requires
                twice >= 0,
                0 <= numer <= 0xffff_ffff,
        ;
        let scaled: i128 = twice * (numer as i128) + (denom as i128);
        let rounded: i128 = scaled / (2 * (denom as i128));
        if self.cents >= 0 {
            Money { cents: rounded as i64 }
        } else {
            Money { cents: (-rounded) as i64 }
        }
    }
}

impl core::ops::Add for Money {
    type Output = Money;

    fn add(self, rhs: Money) -> (r: Money) {
        Money { cents: self.cents + rhs.cents }
    }
}

impl vstd::std_specs::ops::AddSpecImpl for Money {
    open spec fn obeys_add_spec() -> bool {
        true
    }

    open spec fn add_req(self, rhs: Money) -> bool {
        i64::MIN <= self@ + rhs@ <= i64::MAX
    }

    open spec fn add_spec(self, rhs: Money) -> Money {
        Money { cents: (self.cents + rhs.cents) as i64 }
    }
}

impl core::ops::Sub for Money {
    type Output = Money;

    fn sub(self, rhs: Money) -> (r: Money) {
        Money { cents: self.cents - rhs.cents }
    }
}

impl vstd::std_specs::ops::SubSpecImpl for Money {
    open spec fn obeys_sub_spec() -> bool {
        true
    }

    open spec fn sub_req(self, rhs: Money) -> bool {
        i64::MIN <= self@ - rhs@ <= i64::MAX
    }

    open spec fn sub_spec(self, rhs: Money) -> Money {
        Money { cents: (self.cents - rhs.cents) as i64 }
    }
}

/// A rounded share of a non-negative amount, for a share of at most the
/// whole, lies between zero and the amount.
pub proof fn lemma_rounded_share_bounded(amount: int, part: nat, whole: nat)
    requires
        amount >= 0,
        0 < whole,
        part <= whole,
    ensures
        0 <= rounded_share(amount, part, whole) <= amount,
{
    let n = 2 * amount * part + whole;
    let d = 2 * whole as int;
    assert(0 <= n) by (nonlinear_arith)
        requires
            n == 2 * amount * part + whole,
            amount >= 0,
    ;
    assert(n < (amount + 1) * d) by (nonlinear_arith)
        requires
            n == 2 * amount * part + whole,
            d == 2 * whole,
            amount >= 0,
            part <= whole,
            whole > 0,
    ;
    vstd::arithmetic::div_mod::lemma_div_pos_is_pos(n, d);
    vstd::arithmetic::div_mod::lemma_div_by_multiple_is_strongly_ordered(
        n,
        (amount + 1) * d,
        amount + 1,
        d,
    );
    vstd::arithmetic::div_mod::lemma_div_multiples_vanish(amount + 1, d);
}

/// The sign and size of a change to the wallet, for the display layer to
/// show: negative for money spent, positive for money gained.
#[derive(Clone, Copy, Debug, PartialEq, Eq, Structural)]
pub struct PopUpCommand(pub Money);

/// How far to either side of the middle a pop-up may appear, in thousandths
/// of a screen unit.
pub const POP_UP_REACH: i64 = 200_000;

/// A pop-up to put on screen.
#[derive(Clone, Copy, Debug)]
pub struct PopUpSpawn {
    /// The note itself, which starts where it appears.
    pub pop_up: PopUp,
    /// The change to show, with its sign.
    pub amount: Money,
    /// Whether to show it as a loss rather than a gain.
    pub loss: bool,
}

impl PopUpCommand {
    /// Whether the change took money away.
    pub fn is_loss(&self) -> (r: bool)
        ensures
            r == (self.0@ < 0),
    {
        self.0.cents < 0
    }

    /// Makes the pop-up that shows this change: it appears somewhere within
    /// reach of the middle of the screen, a loss marked as one.
    pub fn apply(self) -> (r: PopUpSpawn)
        ensures
            r.amount == self.0,
            r.loss == (self.0@ < 0),
            -POP_UP_REACH <= r.pop_up@.starting_x < POP_UP_REACH,
            r.pop_up@.timer == CountdownModel::fresh(POP_UP_LIFETIME as nat, TimerMode::Once),
    {
        let mut rng = thread_rng();
        let x_pos: i64 = gen_range(&mut rng, -POP_UP_REACH, POP_UP_REACH);
        PopUpSpawn { pop_up: PopUp::new(x_pos), amount: self.0, loss: self.is_loss() }
    }
}

/// The money the player holds. It may go below zero.
#[derive(Clone, Copy, Debug)]
pub struct Wallet {
    funds: Money,
}

impl View for Wallet {
    type V = int;

    closed spec fn view(&self) -> int {
        self.funds@
    }
}

impl Default for Wallet {
    /// The starting wallet of 25.30.
    fn default() -> (r: Wallet)
        ensures
            r@ == 2530,
    {
        Wallet { funds: Money { cents: 2530 } }
    }
}

impl Wallet {
    /// A wallet that holds `funds`.
    pub fn new(funds: Money) -> (r: Wallet)
        ensures
            r@ == funds@,
    {
        Wallet { funds }
    }

    /// The funds are a whole number of cents that fits the machine.
    pub proof fn lemma_funds_in_range(&self)
        ensures
            i64::MIN <= self@ <= i64::MAX,
    {
    }

    /// The money held.
    pub fn funds(&self) -> (r: Money)
        ensures
            r@ == self@,
    {
        self.funds
    }

    /// Takes `amount` out of the wallet and reports the change as a loss of
    /// that amount.
    pub fn debit(&mut self, amount: Money) -> (r: PopUpCommand)
        requires
            i64::MIN <= old(self)@ - amount@ <= i64::MAX,
            -amount@ <= i64::MAX,
        ensures
            final(self)@ == old(self)@ - amount@,
            r.0@ == -amount@,
    {
        self.funds = self.funds - amount;
        PopUpCommand(Money { cents: -amount.cents })
    }

    /// Puts `amount` into the wallet and reports the change as a gain of that
    /// amount.
    pub fn credit(&mut self, amount: Money) -> (r: PopUpCommand)
        requires
            i64::MIN <= old(self)@ + amount@ <= i64::MAX,
        ensures
            final(self)@ == old(self)@ + amount@,
            r.0@ == amount@,
    {
        self.funds = self.funds + amount;
        PopUpCommand(amount)
    }
}

/// What the player owes, by kind.
#[derive(Clone, Copy, Debug)]
pub struct Debts {
    medical: Money,
    rent: Money,
    utilities: Money,
}

/// The three debts as plain numbers of cents.
pub struct DebtsModel {
    pub medical: int,
    pub rent: int,
    pub utilities: int,
}

impl View for Debts {
    type V = DebtsModel;

    closed spec fn view(&self) -> DebtsModel {
        DebtsModel { medical: self.medical@, rent: self.rent@, utilities: self.utilities@ }
    }
}

impl Default for Debts {
    /// A medical debt of one million, nothing else owed.
    fn default() -> (r: Debts)
        ensures
            r@ == (DebtsModel { medical: 100_000_000, rent: 0, utilities: 0 }),
    {
        Debts {
            medical: Money { cents: 100_000_000 },
            rent: Money { cents: 0 },
            utilities: Money { cents: 0 },
        }
    }
}

impl Debts {
    /// Debts of the given amounts.
    pub fn new(medical: Money, rent: Money, utilities: Money) -> (r: Debts)
        ensures
            r@ == (DebtsModel { medical: medical@, rent: rent@, utilities: utilities@ }),
    {
        Debts { medical, rent, utilities }
    }

    /// The sum of all debts.
    pub fn total(&self) -> (r: Money)
        requires
            i64::MIN <= self@.medical + self@.rent <= i64::MAX,
            i64::MIN <= self@.medical + self@.rent + self@.utilities <= i64::MAX,
        ensures
            r@ == self@.medical + self@.rent + self@.utilities,
    {
        self.medical + self.rent + self.utilities
    }

    /// The medical debt.
    pub fn medical(&self) -> (r: Money)
        ensures
            r@ == self@.medical,
    {
        self.medical
    }

    /// The rent owed.
    pub fn rent(&self) -> (r: Money)
        ensures
            r@ == self@.rent,
    {
        self.rent
    }

    /// The utilities owed.
    pub fn utilities(&self) -> (r: Money)
        ensures
            r@ == self@.utilities,
    {
        self.utilities
    }
}

/// How long a wallet pop-up stays on screen, in nanoseconds.
pub const POP_UP_LIFETIME: u64 = 2_000_000_000;

/// A floating note of a wallet change that lives for two seconds.
#[derive(Clone, Copy, Debug)]
pub struct PopUp {
    timer: Countdown,
    starting_x: i64,
}

/// A pop-up as plain values: its countdown and where it started, in
/// thousandths of a screen unit.
pub struct PopUpModel {
    pub timer: CountdownModel,
    pub starting_x: int,
}

impl View for PopUp {
    type V = PopUpModel;

    closed spec fn view(&self) -> PopUpModel {
        PopUpModel { timer: self.timer@, starting_x: self.starting_x as int }
    }
}

impl PopUp {
    /// A pop-up that starts at `starting_x` with its two seconds ahead of it.
    pub fn new(starting_x: i64) -> (r: PopUp)
        ensures
            r@ == (PopUpModel {
                timer: CountdownModel::fresh(POP_UP_LIFETIME as nat, TimerMode::Once),
                starting_x: starting_x as int,
            }),
    {
        PopUp { timer: Countdown::new(POP_UP_LIFETIME, TimerMode::Once), starting_x }
    }

    /// Ages the pop-up by `delta` nanoseconds.
    pub fn tick(&mut self, delta: u64)
        ensures
            final(self)@ == (PopUpModel { timer: old(self)@.timer.ticked(delta as nat), ..old(self)@ }),
    {
        self.timer.tick(delta);
    }

    /// Whether the pop-up has had its two seconds.
    pub fn finished(&self) -> (r: bool)
        ensures
            r == self@.timer.finished,
    {
        self.timer.finished()
    }

    /// Where the pop-up started, in thousandths of a screen unit.
    pub fn starting_x(&self) -> (r: i64)
        ensures
            r == self@.starting_x,
    {
        self.starting_x
    }
}

} // verus!
