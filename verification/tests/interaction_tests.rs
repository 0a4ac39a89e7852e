use runtime::currency::{Balances, ReservableCurrency};
use runtime::interaction::{self, InteractionError, InteractionEvent};
use runtime::node;

fn nodes() -> node::Module {
    let mut n = node::Module::new();
    n.create(1, 100).unwrap();
    n
}

#[test]
fn like_once() {
    let n = nodes();
    let mut i = interaction::Module::new();
    assert_eq!(i.like(&n, 2, 100), Ok(InteractionEvent::Liked(100, 2, 1, 0)));
    assert_eq!(i.like(&n, 3, 100), Ok(InteractionEvent::Liked(100, 3, 2, 1)));
    assert_eq!(i.node_liked_count(100), 2);
    assert_eq!(i.liked_node(2, 100), 1);
    assert_eq!(i.all_likes_count(), 2);
    assert_eq!(i.get_like(2).unwrap().from, 3);
    assert_eq!(i.like(&n, 2, 100), Err(InteractionError::AlreadyLiked));
    assert_eq!(i.like(&n, 2, 999), Err(InteractionError::NodeDoesNotExist));
    assert_eq!(i.node_liked_count(100), 2);
    // the owner may like its own node
    assert_eq!(i.like(&n, 1, 100), Ok(InteractionEvent::Liked(100, 1, 3, 2)));
}

#[test]
fn admire_once_and_not_oneself() {
    let n = nodes();
    let mut i = interaction::Module::new();
    assert_eq!(i.admire(&n, 1, 100), Err(InteractionError::CannotAdmireYourself));
    assert_eq!(i.admire(&n, 2, 100), Ok(InteractionEvent::Admired(100, 2, 1, 1, 0)));
    assert_eq!(i.admire(&n, 2, 100), Err(InteractionError::AlreadyAdmired));
    assert_eq!(i.node_admired_count(100), 1);
    assert_eq!(i.admired_node(2, 100), 1);
    assert_eq!(i.get_admire(1).unwrap().to, 100);
    assert_eq!(i.all_admires_count(), 1);
    assert_eq!(InteractionError::CannotAdmireYourself.message(), "Can not admire yourself.");
}

#[test]
fn grant_moves_funds_to_owner() {
    let n = nodes();
    let mut i = interaction::Module::new();
    let mut b = Balances::new();
    b.make_free_balance_be(2, 1_000).unwrap();
    assert_eq!(i.grant(&n, &mut b, 2, 100, 0), Err(InteractionError::GrantNotPositive));
    assert_eq!(i.grant(&n, &mut b, 1, 100, 10), Err(InteractionError::CannotGrantYourself));
    assert_eq!(i.grant(&n, &mut b, 2, 100, 300), Ok(InteractionEvent::Granted(100, 2, 1, 300, 1, 300)));
    assert_eq!(b.free_balance(2), 700);
    assert_eq!(b.free_balance(1), 300);
    assert_eq!(i.node_granted_balance(100), 300);
    assert_eq!(i.granted_node(2, 100), 1);
    assert_eq!(i.get_grant(1).unwrap().amount, 300);
    assert_eq!(i.all_grants_count(), 1);
    assert_eq!(i.grant(&n, &mut b, 2, 100, 1), Err(InteractionError::AlreadyGranted));
}

#[test]
fn grant_without_funds_stays_recorded() {
    let n = nodes();
    let mut i = interaction::Module::new();
    let mut b = Balances::new();
    b.make_free_balance_be(2, 50).unwrap();
    assert_eq!(i.grant(&n, &mut b, 2, 100, 51), Err(InteractionError::CurrencyNotEnoughForGrant));
    assert_eq!(b.free_balance(2), 50);
    assert_eq!(i.node_granted_balance(100), 51);
    assert_eq!(i.granted_node(2, 100), 1);
    assert_eq!(i.grant(&n, &mut b, 2, 100, 10), Err(InteractionError::AlreadyGranted));
    assert_eq!(InteractionError::CurrencyNotEnoughForGrant.message(), "Currency not enough for Grant.");
}

#[test]
fn report_once_and_not_oneself() {
    let n = nodes();
    let mut i = interaction::Module::new();
    assert_eq!(i.report(&n, 1, 100, 7), Err(InteractionError::CannotReportYourself));
    assert_eq!(i.report(&n, 2, 100, 7), Ok(InteractionEvent::Reported(100, 2, 7, 1)));
    assert_eq!(i.report(&n, 2, 100, 8), Err(InteractionError::AlreadyReported));
    assert_eq!(i.node_reported_by(100), 2);
    assert_eq!(i.reported_node(2, 100), 1);
    assert_eq!(i.get_report(1).unwrap().reason, 7);
    assert_eq!(i.all_reports_count(), 1);
    assert_eq!(i.report(&n, 2, 101, 8), Err(InteractionError::NodeDoesNotExist));
}
