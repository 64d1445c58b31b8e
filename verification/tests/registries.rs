use escrow_ledger::account_id::AccountId;
use escrow_ledger::constants::{getAccountId, master, usdn, ONE_NEAR};
use escrow_ledger::errors::Fault;
use escrow_ledger::offer::Offer;
use escrow_ledger::registry::Registry;
use escrow_ledger::tokenoffers::TokenOffer;
use escrow_ledger::tokenswap::TokenSwap;
use escrow_ledger::trade::Trade;
use escrow_ledger::transfer::Transfer;
use escrow_ledger::{Context, Contract, PaymentMethod, TokenMetadata};

const NOW: u64 = 1_700_000_000_000_000_000;

fn id(name: &str) -> AccountId {
    getAccountId(name.to_string())
}

fn ann() -> AccountId {
    id("ann.near")
}

fn bob() -> AccountId {
    id("bob.near")
}

fn call(by: AccountId) -> Context {
    Context {
        current_account_id: master(),
        predecessor_account_id: by,
        block_timestamp: NOW,
        attached_deposit: 0,
    }
}

fn text(s: &str) -> String {
    s.to_string()
}

fn ledger() -> Contract {
    let mut c = Contract::new(&call(master()));
    c.register_new_account(&call(ann()), ann());
    c.register_new_account(&call(bob()), bob());
    c
}

fn offer(c: &mut Contract, offer_id: &str, kind: &str, by: AccountId, max: u128) -> Result<String, Fault> {
    c.add_offer(
        text(offer_id),
        text(kind),
        by,
        1,
        max,
        1_500_000,
        text("M-Pesa"),
        text("KES"),
        text("Send money over"),
    )
}

fn token_offer(c: &mut Contract, offer_id: &str, kind: &str, by: AccountId, token: AccountId, max: u128) -> Result<String, Fault> {
    c.add_token_offer(
        &call(by.clone()),
        text(offer_id),
        text(kind),
        by,
        1,
        max,
        1_500_000,
        token,
        text("M-Pesa"),
        text("KES"),
        text("Send money over"),
    )
}

#[test]
fn registry_keeps_one_value_per_key_in_order() {
    let mut r: Registry<u32> = Registry::new();
    assert_eq!(r.len(), 0);
    assert!(r.get(&text("a")).is_none());
    r.insert(text("a"), 1);
    r.insert(text("b"), 2);
    r.insert(text("c"), 3);
    r.insert(text("a"), 10);
    assert_eq!(r.len(), 3);
    assert_eq!(r.get(&text("a")), Some(&10));
    assert!(r.contains_key(&text("b")));
    assert!(!r.contains_key(&text("d")));
    assert_eq!((r.key_at(0).as_str(), *r.value_at(0)), ("a", 10));
    assert_eq!((r.key_at(2).as_str(), *r.value_at(2)), ("c", 3));
    assert_eq!(r.remove(&text("b")), Some(2));
    assert_eq!(r.remove(&text("b")), None);
    assert_eq!(r.len(), 2);
    assert_eq!((r.key_at(1).as_str(), *r.value_at(1)), ("c", 3));
    let copy = r.clone();
    r.clear();
    assert_eq!(r.len(), 0);
    assert_eq!(copy.len(), 2);
    assert_eq!(copy.get(&text("c")), Some(&3));
}

#[test]
fn offer_needs_a_registered_author_with_funds() {
    let mut c = ledger();
    assert_eq!(offer(&mut c, "o1", "buy", id("nobody.near"), 5), Err(Fault::AccountNotFound));
    assert_eq!(offer(&mut c, "o1", "buy", ann(), 5 * ONE_NEAR), Ok(text("Offer created successfully")));
    assert_eq!(
        offer(&mut c, "o2", "sell", ann(), 1),
        Ok(text("You do not have enough balance to add offer"))
    );
    assert!(c.get_offer(text("o2")).is_none());
    assert_eq!(offer(&mut c, "o2", "sell", ann(), 0), Ok(text("Offer created successfully")));
    assert_eq!(c.offers.len(), 2);
    assert_eq!(offer(&mut c, "o1", "sell", bob(), 0), Ok(text("Offer already exists")));
    assert_eq!(c.offers.len(), 2);
    let o = c.get_offer(text("o1")).unwrap();
    assert_eq!((o.id.as_str(), o.offer_type.as_str()), ("o1", "buy"));
    assert_eq!(o.offerer, ann());
    assert_eq!((o.min_amount, o.max_amount, o.offer_rate), (1, 5 * ONE_NEAR, 1_500_000));
    assert!(o.active);
    assert_eq!((o.payment.as_str(), o.currency.as_str()), ("M-Pesa", "KES"));
    assert_eq!(o.instructions, "Send money over");
}

#[test]
fn offers_are_listed_by_author_and_type() {
    let mut c = ledger();
    c.add_payment_method(PaymentMethod { name: text("M-Pesa"), icon: text("m.png") });
    offer(&mut c, "o1", "buy", ann(), 5).unwrap();
    offer(&mut c, "o2", "sell", bob(), 0).unwrap();
    offer(&mut c, "o3", "buy", bob(), 7).unwrap();
    offer(&mut c, "o4", "swap", ann(), 0).unwrap();
    let ids = |list: Vec<Offer>| list.into_iter().map(|o| o.id).collect::<Vec<String>>();
    assert_eq!(ids(c.get_account_offers(ann())), vec!["o1", "o4"]);
    assert_eq!(ids(c.get_account_offers(bob())), vec!["o2", "o3"]);
    assert_eq!(c.get_offers_len_by_account(bob()), 2);
    assert_eq!(c.get_offers_len_by_account(master()), 0);

    let buys = c.get_buy_offers();
    assert_eq!(buys.iter().map(|o| o.id.as_str()).collect::<Vec<_>>(), vec!["o1", "o3"]);
    assert_eq!(buys[1].offerer.as_ref().unwrap().id, bob());
    assert_eq!(buys[1].offerer.as_ref().unwrap().offers, 2);
    assert_eq!(buys[1].payment.as_ref().unwrap().icon, "m.png");
    assert_eq!(buys[1].max_amount, 7);
    let sells = c.get_sell_offers();
    assert_eq!(sells.iter().map(|o| o.id.as_str()).collect::<Vec<_>>(), vec!["o2"]);

    let one = c.pub_get_offer(text("o1")).unwrap();
    assert_eq!(one.offerer.unwrap().id, ann());
    assert_eq!(one.payment.unwrap().name, "M-Pesa");
    assert!(c.pub_get_offer(text("none")).is_none());

    assert_eq!(c.update_offer_status(text("o1"), false), Ok(()));
    assert!(!c.get_offer(text("o1")).unwrap().active);
    assert_eq!(ids(c.get_account_offers(ann())), vec!["o1", "o4"]);
    assert_eq!(c.update_offer_status(text("none"), false), Err(Fault::OfferNotFound));
    c.clear_offers();
    assert_eq!(c.offers.len(), 0);
}

#[test]
fn offer_by_hand() {
    let mut o = Offer::new(
        text("o"),
        text("sell"),
        ann(),
        1,
        2,
        3,
        text("p"),
        text("c"),
        text("i"),
    );
    assert!(o.active);
    o.update_offer_rate(9);
    o.update_offer_status(false);
    assert_eq!((o.offer_rate, o.active), (9, false));
    let complete = o.make_complete_offer(Some(PaymentMethod { name: text("p"), icon: text("x") }));
    assert_eq!((complete.id.as_str(), complete.offer_type.as_str()), ("o", "sell"));
    assert!(complete.offerer.is_none());
    assert_eq!((complete.min_amount, complete.max_amount, complete.offer_rate), (1, 2, 9));
    assert!(!complete.active);
    assert_eq!(complete.payment.unwrap().icon, "x");
    assert_eq!((complete.currency.as_str(), complete.instructions.as_str()), ("c", "i"));
}

#[test]
fn token_offer_needs_the_tokens() {
    let mut c = ledger();
    assert_eq!(token_offer(&mut c, "t1", "buy", ann(), usdn(), 50), Ok(text("Offer created successfully")));
    assert_eq!(token_offer(&mut c, "t2", "sell", ann(), usdn(), 50), Err(Fault::TokenNotFound));
    assert_eq!(token_offer(&mut c, "t2", "sell", id("nobody.near"), usdn(), 50), Err(Fault::AccountNotFound));
    c.deposit_tokens(&call(usdn()), ann(), usdn(), 49).unwrap();
    assert_eq!(
        token_offer(&mut c, "t2", "sell", ann(), usdn(), 50),
        Ok(text("You do not have enough balance to add offer"))
    );
    assert_eq!(token_offer(&mut c, "t2", "sell", ann(), usdn(), 49), Ok(text("Offer created successfully")));
    assert_eq!(
        token_offer(&mut c, "t2", "buy", bob(), usdn(), 1),
        Ok(text("Offer already exists"))
    );
    let o = c.get_token_offer(text("t2")).unwrap();
    assert_eq!(o.offerer, ann());
    assert_eq!(o.token, usdn());
    assert_eq!((o.created_on, o.updated_on), (NOW, None));
    assert!(c.get_token_offer(text("t3")).is_none());
}

#[test]
fn token_offers_are_listed_by_author_type_and_token() {
    let mut c = ledger();
    let other = id("other.testnet");
    c.add_token(usdn(), TokenMetadata {
        address: usdn(),
        name: text("USDN"),
        symbol: text("USN"),
        icon: text("u.png"),
        decimals: 18,
    });
    token_offer(&mut c, "t1", "buy", ann(), usdn(), 5).unwrap();
    token_offer(&mut c, "t2", "buy", bob(), other.clone(), 5).unwrap();
    token_offer(&mut c, "t3", "sell", bob(), usdn(), 0).unwrap_err();
    c.deposit_tokens(&call(usdn()), bob(), usdn(), 1).unwrap();
    token_offer(&mut c, "t3", "sell", bob(), usdn(), 1).unwrap();
    offer(&mut c, "o1", "buy", bob(), 1).unwrap();
    let ids = |list: Vec<TokenOffer>| list.into_iter().map(|o| o.id).collect::<Vec<String>>();
    assert_eq!(ids(c.get_all_token_offers()), vec!["t1", "t2", "t3"]);
    assert_eq!(ids(c.get_account_token_offers(bob())), vec!["t2", "t3"]);
    assert_eq!(c.get_t_offers_len_by_account(bob()), 2);
    assert_eq!(c.acc_pub_info(bob()).unwrap().offers, 3);

    let names = |list: Vec<escrow_ledger::tokenoffers::CompleteTokenOffer>| {
        list.into_iter().map(|o| o.id).collect::<Vec<String>>()
    };
    assert_eq!(names(c.get_buy_token_offers()), vec!["t1", "t2"]);
    assert_eq!(names(c.get_buy_token_offers_by_token(usdn())), vec!["t1"]);
    assert_eq!(names(c.get_buy_token_offers_by_token(other.clone())), vec!["t2"]);
    assert_eq!(names(c.get_sell_token_offers()), vec!["t3"]);
    assert_eq!(names(c.get_sell_token_offers_by_token(usdn())), vec!["t3"]);
    assert!(c.get_sell_token_offers_by_token(other).is_empty());

    let one = c.pub_get_token_offer(text("t1")).unwrap();
    assert_eq!(one.token.unwrap().symbol, "USN");
    assert_eq!(one.offerer.unwrap().id, ann());
    assert!(one.payment.is_none());
    assert!(c.pub_get_token_offer(text("t2")).unwrap().token.is_none());
    assert!(c.pub_get_token_offer(text("none")).is_none());

    assert_eq!(c.update_token_offer_status(text("t1"), false), Ok(()));
    assert!(!c.get_token_offer(text("t1")).unwrap().active);
    assert_eq!(c.update_token_offer_status(text("none"), true), Err(Fault::OfferNotFound));
    c.clear_token_offers();
    assert!(c.get_all_token_offers().is_empty());
}

#[test]
fn token_offer_by_hand() {
    let mut o = TokenOffer::new(
        text("o"),
        text("buy"),
        ann(),
        1,
        2,
        3,
        usdn(),
        text("p"),
        text("c"),
        text("i"),
        4,
    );
    o.update_offer_rate(8);
    o.update_offer_status(false);
    let complete = o.make_complete_offer(None);
    assert_eq!((complete.offer_rate, complete.active), (8, false));
    assert!(complete.token.is_none() && complete.offerer.is_none() && complete.payment.is_none());
    assert_eq!((complete.created_on, complete.updated_on), (4, None));
}

#[test]
fn payment_methods_and_tokens() {
    let mut c = ledger();
    c.add_payment_method(PaymentMethod { name: text("M-Pesa"), icon: text("m.png") });
    c.add_payment_method(PaymentMethod { name: text("Bank"), icon: text("b.png") });
    c.add_payment_method(PaymentMethod { name: text("M-Pesa"), icon: text("new.png") });
    let names = c.get_payments().into_iter().map(|p| (p.name, p.icon)).collect::<Vec<_>>();
    assert_eq!(names, vec![(text("M-Pesa"), text("new.png")), (text("Bank"), text("b.png"))]);
    assert_eq!(c.get_payment(text("Bank")).unwrap().icon, "b.png");
    c.remove_payment_method(text("Bank"));
    assert!(c.get_payment(text("Bank")).is_none());
    c.remove_payment_method(text("Bank"));
    assert_eq!(c.get_payments().len(), 1);

    let meta = |symbol: &str| TokenMetadata {
        address: usdn(),
        name: text("USDN"),
        symbol: text(symbol),
        icon: text(""),
        decimals: 6,
    };
    c.add_token(usdn(), meta("A"));
    c.add_token(ann(), meta("B"));
    c.update_token(usdn(), meta("C"));
    assert_eq!(c.get_token(usdn()).unwrap().symbol, "C");
    assert_eq!(c.get_token(usdn()).unwrap().decimals, 6);
    assert_eq!(c.get_tokens().into_iter().map(|t| t.symbol).collect::<Vec<_>>(), vec!["C", "B"]);
    c.remove_token(usdn());
    assert!(c.get_token(usdn()).is_none());
    assert_eq!(c.get_tokens().len(), 1);
    c.add_whitelisted_token(usdn(), meta("W"));
    assert_eq!(c.whitelistedtokens.len(), 1);
    c.remove_whitelisted_token(usdn());
    assert_eq!(c.whitelistedtokens.len(), 0);
    c.update_send_cost(10_000);
    assert_eq!(c.get_send_cost(), 10_000);
}

#[test]
fn transfers_are_logged_and_found() {
    let mut c = ledger();
    c.add_transfer(text("x1"), ann(), bob(), 5, 1);
    c.add_transfer(text("x2"), bob(), master(), 6, 2);
    c.add_transfer(text("x1"), master(), ann(), 7, 3);
    assert_eq!(c.get_transfers_len(), 3);
    let first = c.get_transfer(text("x1")).unwrap();
    assert_eq!((first.sender, first.receiver, first.amount, first.timestamp), (ann(), bob(), 5, 1));
    assert!(c.get_transfer(text("x3")).is_none());
    let amounts = |list: Vec<Transfer>| list.into_iter().map(|t| t.amount).collect::<Vec<u128>>();
    assert_eq!(amounts(c.get_account_transfers(ann())), vec![5, 7]);
    assert_eq!(amounts(c.get_account_transfers(master())), vec![6, 7]);
    assert_eq!(amounts(c.get_all_transfers()), vec![5, 6, 7]);
    assert_eq!(c.get_transfers_len_by_account(bob()), 2);
    assert_eq!(c.acc_transfers_count(bob()), Ok(2));
    assert_eq!(c.acc_trades_count(ann()), Ok(2));
    assert_eq!(c.acc_offers_count(id("nobody.near")), Ok(0));
    let t = Transfer::new(text("t"), ann(), bob(), 1, 2);
    assert_eq!((t.id.as_str(), t.amount, t.timestamp), ("t", 1, 2));
}

#[test]
fn trades_are_logged_and_found() {
    let mut c = ledger();
    c.add_trade(text("d1"), text("buy"), ann(), bob(), 5, text("c1"), text("near"), Some(1), None);
    c.add_trade(text("d2"), text("sell"), bob(), master(), 6, text("c2"), text("near"), None, Some(2));
    let amounts = |list: Vec<Trade>| list.into_iter().map(|t| t.amount).collect::<Vec<u128>>();
    assert_eq!(amounts(c.get_all_trades()), vec![5, 6]);
    assert_eq!(amounts(c.get_trades_by_account(bob())), vec![5, 6]);
    assert_eq!(amounts(c.get_trades_by_account(ann())), vec![5]);
    assert_eq!(c.get_trades_length_by_account(master()), 1);
    let d2 = c.get_trade(text("d2")).unwrap();
    assert_eq!((d2.seller, d2.buyer), (bob(), master()));
    assert_eq!((d2.start_timestamp, d2.end_timestamp), (None, Some(2)));
    assert!(c.get_trade(text("d3")).is_none());

    let mut t = Trade::new(text("d"), text("buy"), ann(), bob(), 1, text("c"), text("k"), None, None);
    t.update_end_timestamp(9);
    t.update_chat_id(text("cc"));
    t.update_amount(3);
    assert_eq!((t.end_timestamp, t.chat_id.as_str(), t.amount), (Some(9), "cc", 3));
    assert_eq!((t.trade_type.as_str(), t.token_id.as_str()), ("buy", "k"));

    let s = TokenSwap::new(text("s"), text("a"), text("b"), 4);
    assert_eq!((s.id.as_str(), s.from_token.as_str(), s.to_token.as_str()), ("s", "a", "b"));
    assert_eq!((s.from_token_amount, s.timestamp), (4, 0));
}

#[test]
fn public_information_of_an_account() {
    let mut c = ledger();
    assert!(c.acc_pub_info(id("nobody.near")).is_none());
    c.add_transfer(text("x1"), ann(), bob(), 5, 1);
    c.add_trade(text("d1"), text("buy"), ann(), bob(), 5, text("c1"), text("near"), None, None);
    c.add_trade(text("d2"), text("buy"), bob(), ann(), 5, text("c1"), text("near"), None, None);
    offer(&mut c, "o1", "buy", ann(), 5).unwrap();
    let info = c.acc_pub_info(ann()).unwrap();
    assert_eq!(info.id, ann());
    assert_eq!((info.trades, info.transfers, info.offers), (2, 1, 1));
    assert_eq!((info.likes, info.dislikes, info.blocked_by), (0, 0, 0));
    assert_eq!(info.created_on, NOW);
}

#[test]
fn accounts_are_listed_for_the_ledger_only() {
    let c = ledger();
    assert_eq!(c.get_all_accounts(&call(ann())).err(), Some(Fault::NotContractOwner));
    let all = c.get_all_accounts(&call(master())).unwrap();
    assert_eq!(all.iter().map(|a| a.id.clone()).collect::<Vec<_>>(), vec![ann(), bob()]);
    assert_eq!(
        c.get_account_balance_as_string(&ann()),
        Ok(text("0 yoctoNears, approximately 0 Near"))
    );
    assert_eq!(c.get_account_balance_as_string(&id("nobody.near")), Err(Fault::AccountNotFound));
    assert_eq!(c.assert_account_owner(&call(ann()), ann()), Ok(()));
    assert_eq!(c.assert_account_owner(&call(ann()), bob()), Err(Fault::NotAllowed));
}

#[test]
fn unlock_of_an_account() {
    let mut c = ledger();
    assert_eq!(c.unlock_account(id("nobody.near"), 1), Err(Fault::AccountNotFound));
    assert_eq!(c.unlock_account(ann(), 1), Err(Fault::UnlockExceedsLocked));
    let mut ctx = call(ann());
    ctx.attached_deposit = 3 * ONE_NEAR;
    c.contract_deposit(&ctx, &ann()).unwrap();
    let mut entry = c.get_account(ann()).unwrap().clone();
    entry.lock(2 * ONE_NEAR).unwrap();
    c.accounts.insert(text("ann.near"), entry);
    assert_eq!(c.unlock_account(ann(), ONE_NEAR), Ok(()));
    let a = c.get_account(ann()).unwrap();
    assert_eq!((a.balance, a.locked), (2 * ONE_NEAR, ONE_NEAR));
}

#[test]
fn revenue_is_taken_from_locked_funds() {
    let mut c = ledger();
    let mut ctx = call(ann());
    ctx.attached_deposit = 3 * ONE_NEAR;
    c.contract_deposit(&ctx, &ann()).unwrap();
    let mut entry = c.get_account(ann()).unwrap().clone();
    entry.lock(2 * ONE_NEAR).unwrap();
    c.accounts.insert(text("ann.near"), entry);

    let take = |c: &mut Contract, by: AccountId, from: AccountId, amount: u128| {
        c.create_revenue(&call(by), text("near"), text("transfer"), from, amount, Some(7))
    };
    assert_eq!(take(&mut c, ann(), id("nobody.near"), 1), Err(Fault::AccountNotFound));
    assert_eq!(take(&mut c, ann(), ann(), 2 * ONE_NEAR + 1), Err(Fault::UnlockExceedsLocked));
    assert_eq!(take(&mut c, bob(), ann(), ONE_NEAR), Err(Fault::NotAccountOwner));
    c.revenue = u128::MAX;
    assert_eq!(take(&mut c, ann(), ann(), ONE_NEAR), Err(Fault::Overflow));
    c.revenue = 5;
    assert!(c.revenues.is_empty());
    let a = c.get_account(ann()).unwrap();
    assert_eq!((a.balance, a.locked), (ONE_NEAR, 2 * ONE_NEAR));

    assert_eq!(take(&mut c, ann(), ann(), ONE_NEAR), Ok(()));
    let a = c.get_account(ann()).unwrap();
    assert_eq!((a.balance, a.locked), (ONE_NEAR, ONE_NEAR));
    assert_eq!((c.revenue, c.revenue_usd), (ONE_NEAR + 5, 7));
    assert_eq!(c.revenues.len(), 1);
    assert_eq!((c.revenues[0].from.as_str(), c.revenues[0].asset.as_str()), ("transfer", "near"));
    assert_eq!((c.revenues[0].amount, c.revenues[0].amount_usd), (ONE_NEAR, Some(7)));
    assert_eq!(c.revenues[0].date, NOW);
}

#[test]
fn ownership_is_proposed_and_accepted() {
    let mut c = ledger();
    assert_eq!(c.assert_owner(&call(master())), Ok(()));
    assert_eq!(c.assert_owner(&call(ann())), Err(Fault::NotOwner));
    assert_eq!(c.accept_ownership(&call(master())), Err(Fault::OwnershipNotProposed));
    assert_eq!(c.propose_new_owner(&call(ann()), ann()), Err(Fault::NotOwner));
    assert_eq!(c.propose_new_owner(&call(master()), ann()), Ok(()));
    assert_eq!(c.owner(), master());
    assert_eq!(c.accept_ownership(&call(bob())), Err(Fault::OwnershipNotProposed));
    assert_eq!(c.accept_ownership(&call(ann())), Ok(()));
    assert_eq!(c.owner(), ann());
    assert_eq!(c.assert_owner(&call(master())), Err(Fault::NotOwner));
}

#[test]
fn guardians_are_added_and_removed_all_or_none() {
    let mut c = ledger();
    assert_eq!(c.extend_guardians(&call(ann()), vec![ann()]), Err(Fault::NotOwner));
    assert_eq!(c.extend_guardians(&call(master()), vec![ann(), bob()]), Ok(()));
    assert_eq!(c.guardians(), vec![ann(), bob()]);
    assert_eq!(c.extend_guardians(&call(master()), vec![master(), bob()]), Err(Fault::GuardianExists));
    assert_eq!(c.extend_guardians(&call(master()), vec![master(), master()]), Err(Fault::GuardianExists));
    assert_eq!(c.guardians(), vec![ann(), bob()]);
    assert_eq!(c.extend_guardians(&call(master()), vec![]), Ok(()));

    assert_eq!(c.remove_guardians(&call(bob()), vec![bob()]), Err(Fault::NotOwner));
    assert_eq!(c.remove_guardians(&call(master()), vec![bob(), master()]), Err(Fault::GuardianNotFound));
    assert_eq!(c.remove_guardians(&call(master()), vec![bob(), bob()]), Err(Fault::GuardianNotFound));
    assert_eq!(c.guardians(), vec![ann(), bob()]);
    assert_eq!(c.extend_guardians(&call(master()), vec![master()]), Ok(()));
    assert_eq!(c.guardians(), vec![ann(), bob(), master()]);
    assert_eq!(c.guardians.len(), 3);
    assert!(c.guardians.contains(&bob()) && !c.guardians.contains(&id("nobody.near")));
    assert_eq!(c.remove_guardians(&call(master()), vec![bob()]), Ok(()));
    assert_eq!(c.guardians(), vec![ann(), master()]);
    assert_eq!(c.remove_guardians(&call(master()), vec![master(), ann()]), Ok(()));
    assert!(c.guardians().is_empty());
}
