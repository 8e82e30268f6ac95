use gunplay::money::{Debts, Money, PopUp, PopUpCommand, Wallet};

#[test]
fn money_adds_and_subtracts_exactly() {
    let a = Money::from_cents(2530);
    let b = Money::from_cents(667);
    assert_eq!((a + b).cents(), 3197);
    assert_eq!((a - b).cents(), 1863);
    assert_eq!((b - a).cents(), -1863);
    assert_eq!(Money::default().cents(), 0);
    assert_eq!(a, Money { cents: 2530 });
}

#[test]
fn money_scales_to_the_nearest_cent() {
    assert_eq!(Money::from_cents(1000).scale(20, 30).cents(), 667);
    assert_eq!(Money::from_cents(1000).scale(10, 30).cents(), 333);
    assert_eq!(Money::from_cents(5).scale(1, 2).cents(), 3);
    assert_eq!(Money::from_cents(-5).scale(1, 2).cents(), -3);
    assert_eq!(Money::from_cents(-1000).scale(20, 30).cents(), -667);
    assert_eq!(Money::from_cents(7).scale(3, 1).cents(), 21);
    assert_eq!(Money::from_cents(7).scale(0, 9).cents(), 0);
    assert_eq!(Money::from_cents(i64::MAX).scale(1, 1).cents(), i64::MAX);
    assert_eq!(Money::from_cents(i64::MIN).scale(4_000_000_000, 4_000_000_000).cents(), i64::MIN);
}

#[test]
fn wallet_debits_and_credits() {
    let mut wallet = Wallet::default();
    assert_eq!(wallet.funds().cents(), 2530);
    let spent = wallet.debit(Money::from_cents(667));
    assert_eq!(spent, PopUpCommand(Money::from_cents(-667)));
    assert!(spent.is_loss());
    assert_eq!(wallet.funds().cents(), 1863);
    let gained = wallet.credit(Money::from_cents(137));
    assert_eq!(gained, PopUpCommand(Money::from_cents(137)));
    assert!(!gained.is_loss());
    assert_eq!(wallet.funds().cents(), 2000);
    wallet.debit(Money::from_cents(2500));
    assert_eq!(wallet.funds().cents(), -500);
    assert!(!PopUpCommand(Money::from_cents(0)).is_loss());
    assert_eq!(Wallet::new(Money::from_cents(9)).funds().cents(), 9);
}

#[test]
fn debts_add_up() {
    let debts = Debts::default();
    assert_eq!(debts.medical().cents(), 100_000_000);
    assert_eq!(debts.rent().cents(), 0);
    assert_eq!(debts.utilities().cents(), 0);
    assert_eq!(debts.total().cents(), 100_000_000);
    let debts = Debts::new(Money::from_cents(150), Money::from_cents(2500), Money::from_cents(-50));
    assert_eq!(debts.total().cents(), 2600);
}

#[test]
fn pop_up_lives_for_two_seconds() {
    let mut pop_up = PopUp::new(-120_000);
    assert_eq!(pop_up.starting_x(), -120_000);
    assert!(!pop_up.finished());
    pop_up.tick(1_999_999_999);
    assert!(!pop_up.finished());
    pop_up.tick(1);
    assert!(pop_up.finished());
    pop_up.tick(5_000_000_000);
    assert!(pop_up.finished());
}

#[test]
fn pop_up_command_makes_its_pop_up() {
    let mut places: Vec<i64> = Vec::new();
    for _ in 0..100 {
        let spawn = PopUpCommand(Money::from_cents(-667)).apply();
        assert!(spawn.loss);
        assert_eq!(spawn.amount.cents(), -667);
        assert!(spawn.pop_up.starting_x() >= -200_000 && spawn.pop_up.starting_x() < 200_000);
        assert!(!spawn.pop_up.finished());
        places.push(spawn.pop_up.starting_x());
    }
    assert!(places.iter().any(|place| *place != places[0]));
    let gain = PopUpCommand(Money::from_cents(5)).apply();
    assert!(!gain.loss);
    assert_eq!(gain.amount.cents(), 5);
}
