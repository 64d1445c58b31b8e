use escrow_ledger::account_id::AccountId;
use escrow_ledger::chat::Chat;
use escrow_ledger::constants::{getAccountId, master, ONE_NEAR};
use escrow_ledger::errors::Fault;
use escrow_ledger::{Context, Contract};

const NOW: u64 = 1_700_000_000_000_000_000;

fn id(name: &str) -> AccountId {
    getAccountId(name.to_string())
}

fn seller() -> AccountId {
    id("seller.near")
}

fn buyer() -> AccountId {
    id("buyer.near")
}

fn stranger() -> AccountId {
    id("stranger.near")
}

fn call(by: AccountId, attached_deposit: u128) -> Context {
    Context {
        current_account_id: master(),
        predecessor_account_id: by,
        block_timestamp: NOW,
        attached_deposit,
    }
}

fn text(s: &str) -> String {
    s.to_string()
}

/// A ledger with `seller` holding 5 units, `buyer` registered with nothing,
/// an offer to buy written by `buyer` and an offer to sell written by
/// `seller`.
fn ledger() -> Contract {
    let mut c = Contract::new(&call(master(), 0));
    c.register_new_account(&call(seller(), 0), seller());
    c.register_new_account(&call(buyer(), 0), buyer());
    c.contract_deposit(&call(seller(), 5 * ONE_NEAR), &seller()).unwrap();
    let status = c
        .add_offer(
            text("wants"),
            text("buy"),
            buyer(),
            ONE_NEAR,
            4 * ONE_NEAR,
            1_000_000,
            text("M-Pesa"),
            text("KES"),
            text("Send money over"),
        )
        .unwrap();
    assert_eq!(status, "Offer created successfully");
    let status = c
        .add_offer(
            text("sells"),
            text("sell"),
            seller(),
            ONE_NEAR,
            4 * ONE_NEAR,
            1_000_000,
            text("M-Pesa"),
            text("KES"),
            text("Send money over"),
        )
        .unwrap();
    assert_eq!(status, "Offer created successfully");
    c
}

/// `seller` opens a chat of 2 units over the offer to buy: it will hand
/// over the funds and receive the payment.
fn open_buy_chat(c: &mut Contract, chat_id: &str) -> String {
    c.add_buy_chat(
        &call(seller(), 0),
        text(chat_id),
        text("wants"),
        seller(),
        2 * ONE_NEAR,
        buyer(),
        seller(),
        text("pay to 0700"),
    )
    .unwrap()
}

fn funds(c: &Contract, who: AccountId) -> (u128, u128) {
    let a = c.get_account(who).unwrap();
    (a.balance, a.locked)
}

fn chat(c: &Contract, chat_id: &str) -> Chat {
    c.get_chat(text(chat_id)).unwrap()
}

#[test]
fn new_ledger_is_empty() {
    let c = Contract::new(&call(master(), 0));
    assert_eq!(c.owner(), master());
    assert_eq!(c.proposed_owner_id, master());
    assert_eq!(c.get_send_cost(), 50_000);
    assert_eq!(c.transfer_cost, 0);
    assert_eq!((c.revenue, c.revenue_usd), (0, 0));
    assert_eq!(c.accounts.len() + c.offers.len() + c.chats.len() + c.tokenchats.len(), 0);
    assert_eq!(c.get_transfers_len(), 0);
    assert!(c.revenues.is_empty());
}

#[test]
fn registering_twice_changes_nothing() {
    let mut c = ledger();
    let before = funds(&c, seller());
    let again = c.register_new_account(&call(seller(), 0), seller());
    assert_eq!(again, "Account already registered");
    assert_eq!(funds(&c, seller()), before);
    assert_eq!(c.accounts.len(), 2);
    assert_eq!(c.get_account(seller()).unwrap().created_on, NOW);
    assert!(c.get_account(stranger()).is_none());
    assert!(c.pub_get_account(stranger()).is_none());
    assert_eq!(c.pub_get_account(buyer()).unwrap().id, buyer());
}

#[test]
fn deposit_must_exceed_one_unit() {
    let mut c = ledger();
    assert_eq!(c.contract_deposit(&call(buyer(), ONE_NEAR), &buyer()), Err(Fault::DepositTooSmall));
    assert_eq!(funds(&c, buyer()), (0, 0));
    assert_eq!(c.contract_deposit(&call(stranger(), 2 * ONE_NEAR), &stranger()), Ok(()));
    assert!(c.get_account(stranger()).is_none());
    assert_eq!(c.get_transfers_len(), 1);
    assert_eq!(c.contract_deposit(&call(buyer(), ONE_NEAR + 1), &buyer()), Ok(()));
    assert_eq!(funds(&c, buyer()), (ONE_NEAR + 1, 0));
    let log = c.get_all_transfers();
    assert_eq!(log.len(), 2);
    assert_eq!(log[1].id, NOW.to_string());
    assert_eq!(log[1].sender, buyer());
    assert_eq!(log[1].receiver, master());
    assert_eq!(log[1].amount, ONE_NEAR + 1);
    assert_eq!(log[1].timestamp, NOW);
}

#[test]
fn withdrawal_faults() {
    let mut c = ledger();
    assert_eq!(c.withdraw_near(&call(stranger(), 0), 1).err(), Some(Fault::AccountNotFound));
    assert_eq!(
        c.withdraw_near(&call(seller(), 0), 5 * ONE_NEAR + 1).err(),
        Some(Fault::WithdrawExceedsBalance)
    );
    assert_eq!(funds(&c, seller()), (5 * ONE_NEAR, 0));
    assert_eq!(c.get_transfers_len(), 1);
}

#[test]
fn buy_chat_locks_amount_and_fee() {
    let mut c = ledger();
    assert_eq!(open_buy_chat(&mut c, "c1"), "created");
    assert_eq!(funds(&c, seller()), (29 * ONE_NEAR / 10, 21 * ONE_NEAR / 10));
    let chat = chat(&c, "c1");
    assert_eq!(chat.id, "c1");
    assert_eq!(chat.offer_id, "wants");
    assert_eq!(chat.owner, seller());
    assert_eq!(chat.offerer, buyer());
    assert_eq!(chat.amount, 2 * ONE_NEAR);
    assert_eq!(chat.trade_cost, ONE_NEAR / 10);
    assert_eq!((chat.payer, chat.receiver), (buyer(), seller()));
    assert_eq!((chat.started_at, chat.created_on, chat.updated_on), (NOW, NOW, Some(NOW)));
    assert_eq!(chat.ended_at, None);
    assert!(chat.active);
    assert!(!chat.paid && !chat.received && !chat.canceled && !chat.released);
    assert!(!chat.payer_has_rated && !chat.receiver_has_rated);
    assert_eq!(chat.payment_msg, "pay to 0700");
}

#[test]
fn buy_chat_refusals_leave_no_chat() {
    let mut c = ledger();
    let open = |c: &mut Contract, offer: &str, owner: AccountId, amount: u128| {
        c.add_buy_chat(
            &call(owner.clone(), 0),
            text("c1"),
            text(offer),
            owner,
            amount,
            buyer(),
            seller(),
            text(""),
        )
    };
    assert_eq!(open(&mut c, "none", seller(), ONE_NEAR), Ok(text("Offer not found")));
    assert_eq!(
        open(&mut c, "wants", buyer(), ONE_NEAR),
        Ok(text("You can't chat with yourself"))
    );
    assert_eq!(open(&mut c, "sells", buyer(), ONE_NEAR), Ok(text("Offer is not for buy")));
    assert_eq!(
        open(&mut c, "wants", stranger(), ONE_NEAR),
        Ok(text("You must be a registered user to chat with someone"))
    );
    assert_eq!(
        open(&mut c, "wants", seller(), 5 * ONE_NEAR),
        Ok(text("You don't have enough balance to chat with someone"))
    );
    assert_eq!(
        open(&mut c, "wants", seller(), u128::MAX),
        Ok(text("You don't have enough balance to chat with someone"))
    );
    assert!(c.get_chat(text("c1")).is_none());
    assert_eq!(c.chats.len(), 0);
    assert_eq!(funds(&c, seller()), (5 * ONE_NEAR, 0));
}

#[test]
fn buy_chat_that_cannot_lock_is_a_fault() {
    let mut c = ledger();
    c.unlock_account(seller(), 0).unwrap();
    let mut entry = c.get_account(seller()).unwrap().clone();
    entry.locked = u128::MAX;
    c.accounts.insert(text("seller.near"), entry);
    let r = c.add_buy_chat(
        &call(seller(), 0),
        text("c1"),
        text("wants"),
        seller(),
        ONE_NEAR,
        buyer(),
        seller(),
        text(""),
    );
    assert_eq!(r, Err(Fault::Overflow));
    assert!(c.get_chat(text("c1")).is_none());
    assert_eq!(funds(&c, seller()), (5 * ONE_NEAR, u128::MAX));
}

#[test]
fn a_chat_id_in_use_is_refused() {
    let mut c = ledger();
    assert_eq!(open_buy_chat(&mut c, "c1"), "created");
    c.mark_as_received(&call(seller(), 0), text("c1")).unwrap();
    let before = (funds(&c, seller()), c.revenue);
    assert_eq!(open_buy_chat(&mut c, "c1"), "Chat already exists");
    let sell = c.add_sell_chat(
        &call(buyer(), 0),
        text("c1"),
        text("sells"),
        buyer(),
        ONE_NEAR,
        buyer(),
        seller(),
        text(""),
    );
    assert_eq!(sell, Ok(text("Chat already exists")));
    assert!(chat(&c, "c1").released && chat(&c, "c1").received);
    assert_eq!(chat(&c, "c1").offer_id, "wants");
    assert_eq!(c.chats.len(), 1);
    assert_eq!((funds(&c, seller()), c.revenue), before);
    assert_eq!(
        c.release_near(&call(seller(), 0), text("c1")).err(),
        Some(Fault::AlreadyReleased)
    );
}

#[test]
fn sell_chat_locks_in_the_entry_of_the_offerer() {
    let mut c = ledger();
    let open = |c: &mut Contract, offer: &str, owner: AccountId, amount: u128| {
        c.add_sell_chat(
            &call(owner.clone(), 0),
            text("s1"),
            text(offer),
            owner,
            amount,
            seller(),
            seller(),
            text("msg"),
        )
    };
    assert_eq!(open(&mut c, "none", buyer(), ONE_NEAR), Ok(text("Offer not found")));
    assert_eq!(
        open(&mut c, "sells", seller(), ONE_NEAR),
        Ok(text("You can't chat with yourself"))
    );
    assert_eq!(open(&mut c, "wants", seller(), ONE_NEAR), Ok(text("Offer is not for sell")));
    assert_eq!(
        open(&mut c, "sells", stranger(), ONE_NEAR),
        Ok(text("You must be a registered user to chat with someone"))
    );
    assert_eq!(
        open(&mut c, "sells", buyer(), 5 * ONE_NEAR),
        Ok(text("Offerer does not have sufficient balance to hold the trade. "))
    );
    assert_eq!(c.chats.len(), 0);
    assert_eq!(open(&mut c, "sells", buyer(), 4 * ONE_NEAR), Ok(text("created")));
    assert_eq!(funds(&c, seller()), (8 * ONE_NEAR / 10, 42 * ONE_NEAR / 10));
    assert_eq!(funds(&c, buyer()), (0, 0));
    let chat = chat(&c, "s1");
    assert_eq!((chat.owner, chat.offerer), (buyer(), seller()));
    assert_eq!(chat.trade_cost, 2 * ONE_NEAR / 10);
}

#[test]
fn sell_chat_over_the_offer_of_an_unregistered_account_is_a_fault() {
    let mut c = Contract::new(&call(master(), 0));
    c.register_new_account(&call(seller(), 0), seller());
    c.add_offer(
        text("sells"),
        text("sell"),
        seller(),
        0,
        0,
        1_000_000,
        text(""),
        text(""),
        text(""),
    )
    .unwrap();
    c.register_new_account(&call(buyer(), 0), buyer());
    c.accounts.remove(&text("seller.near"));
    let r = c.add_sell_chat(
        &call(buyer(), 0),
        text("s1"),
        text("sells"),
        buyer(),
        1,
        buyer(),
        seller(),
        text(""),
    );
    assert_eq!(r, Err(Fault::AccountNotFound));
    assert_eq!(c.chats.len(), 0);
}

#[test]
fn only_the_payer_marks_as_paid() {
    let mut c = ledger();
    open_buy_chat(&mut c, "c1");
    assert_eq!(c.mark_as_paid(&call(buyer(), 0), text("none")), Err(Fault::ChatNotFound));
    assert_eq!(c.mark_as_paid(&call(stranger(), 0), text("c1")), Ok(text("success")));
    assert!(!chat(&c, "c1").paid);
    assert_eq!(c.mark_as_paid(&call(buyer(), 0), text("c1")), Ok(text("success")));
    assert!(chat(&c, "c1").paid);
    assert!(!chat(&c, "c1").received);
}

#[test]
fn marks_on_a_closed_chat_do_nothing() {
    let mut c = ledger();
    open_buy_chat(&mut c, "c1");
    assert_eq!(c.cancel_chat(text("c1")), Ok(text("chat canceled")));
    assert_eq!(c.mark_as_paid(&call(buyer(), 0), text("c1")), Ok(text("chat is not active")));
    let receipt = c.mark_as_received(&call(seller(), 0), text("c1")).unwrap();
    assert_eq!(receipt.status, "chat is not active");
    assert!(receipt.payout.is_none());
    let chat = chat(&c, "c1");
    assert!(!chat.paid && !chat.received && !chat.released && chat.canceled);
    assert_eq!(
        c.release_near(&call(seller(), 0), text("c1")).err(),
        Some(Fault::ChatNotActive)
    );
    assert_eq!(funds(&c, seller()), (49 * ONE_NEAR / 10, ONE_NEAR / 10));
}

#[test]
fn marking_received_releases_the_escrow() {
    let mut c = ledger();
    open_buy_chat(&mut c, "c1");
    assert_eq!(funds(&c, seller()), (29 * ONE_NEAR / 10, 21 * ONE_NEAR / 10));

    let receipt = c.mark_as_received(&call(seller(), 0), text("c1")).unwrap();

    assert_eq!(receipt.status, "success");
    let payout = receipt.payout.unwrap();
    assert_eq!(payout.to, buyer());
    assert_eq!(payout.amount, 2 * ONE_NEAR);
    assert_eq!(funds(&c, seller()), (29 * ONE_NEAR / 10, 0));
    assert_eq!(funds(&c, buyer()), (0, 0));
    assert_eq!(c.revenue, ONE_NEAR / 10);
    assert_eq!(c.revenue_usd, 0);
    assert_eq!(c.revenues.len(), 1);
    assert_eq!(c.revenues[0].asset, "near");
    assert_eq!(c.revenues[0].from, "trade");
    assert_eq!(c.revenues[0].amount, ONE_NEAR / 10);
    assert_eq!(c.revenues[0].amount_usd, None);
    assert_eq!(c.revenues[0].date, NOW);
    let chat = chat(&c, "c1");
    assert!(chat.received && chat.released && chat.active);
    assert!(!chat.paid && !chat.canceled);
    assert_eq!(chat.ended_at, None);
}

#[test]
fn a_stranger_cannot_mark_as_received() {
    let mut c = ledger();
    open_buy_chat(&mut c, "c1");
    let receipt = c.mark_as_received(&call(stranger(), 0), text("c1")).unwrap();
    assert_eq!(receipt.status, "success");
    assert!(receipt.payout.is_none());
    assert!(!chat(&c, "c1").received && !chat(&c, "c1").released);
    assert_eq!(funds(&c, seller()), (29 * ONE_NEAR / 10, 21 * ONE_NEAR / 10));
    assert_eq!(c.revenue, 0);
    assert_eq!(
        c.mark_as_received(&call(seller(), 0), text("none")).err(),
        Some(Fault::ChatNotFound)
    );
}

#[test]
fn second_release_is_a_fault_and_debits_nothing() {
    let mut c = ledger();
    open_buy_chat(&mut c, "c1");
    open_buy_chat(&mut c, "c2");
    c.mark_as_received(&call(seller(), 0), text("c1")).unwrap();
    let after_first = (funds(&c, seller()), funds(&c, buyer()), c.revenue, c.revenues.len());
    assert_eq!(after_first.0, (8 * ONE_NEAR / 10, 21 * ONE_NEAR / 10));

    assert_eq!(
        c.mark_as_received(&call(seller(), 0), text("c1")).err(),
        Some(Fault::AlreadyReleased)
    );
    assert_eq!(
        c.release_near(&call(seller(), 0), text("c1")).err(),
        Some(Fault::AlreadyReleased)
    );
    assert_eq!(
        c.release_near(&call(stranger(), 0), text("c1")).err(),
        Some(Fault::AlreadyReleased)
    );

    assert_eq!(
        (funds(&c, seller()), funds(&c, buyer()), c.revenue, c.revenues.len()),
        after_first
    );
    assert!(chat(&c, "c1").released);
    assert!(!chat(&c, "c2").released);
}

#[test]
fn release_faults_change_nothing() {
    let mut c = ledger();
    open_buy_chat(&mut c, "c1");
    assert_eq!(c.release_near(&call(seller(), 0), text("none")).err(), Some(Fault::ChatNotFound));
    assert_eq!(
        c.release_near(&call(stranger(), 0), text("c1")).err(),
        Some(Fault::NotAccountOwner)
    );
    assert!(!chat(&c, "c1").released);
    assert_eq!(c.revenue, 0);
    assert_eq!(funds(&c, seller()), (29 * ONE_NEAR / 10, 21 * ONE_NEAR / 10));

    c.unlock_account(seller(), 21 * ONE_NEAR / 10).unwrap();
    assert_eq!(
        c.release_near(&call(seller(), 0), text("c1")).err(),
        Some(Fault::UnlockExceedsLocked)
    );
    c.get_account(seller()).unwrap();
    let mut entry = c.get_account(seller()).unwrap().clone();
    entry.lock(ONE_NEAR).unwrap();
    c.accounts.insert(text("seller.near"), entry);
    assert_eq!(
        c.release_near(&call(seller(), 0), text("c1")).err(),
        Some(Fault::ReleaseExceedsLocked)
    );
    assert!(!chat(&c, "c1").released);
    assert_eq!(c.revenue, 0);
    assert!(c.revenues.is_empty());
    assert_eq!(funds(&c, seller()), (4 * ONE_NEAR, ONE_NEAR));

    c.offers.clear();
    assert_eq!(c.release_near(&call(seller(), 0), text("c1")).err(), Some(Fault::OfferNotFound));
    assert_eq!(c.cancel_chat(text("c1")), Err(Fault::OfferNotFound));
}

#[test]
fn release_over_an_offer_to_sell() {
    let mut c = ledger();
    let status = c
        .add_sell_chat(
            &call(buyer(), 0),
            text("s1"),
            text("sells"),
            buyer(),
            2 * ONE_NEAR,
            seller(),
            seller(),
            text("msg"),
        )
        .unwrap();
    assert_eq!(status, "created");
    let mut later = call(seller(), 0);
    later.block_timestamp = NOW + 5;
    let receipt = c.mark_as_received(&later, text("s1")).unwrap();
    let payout = receipt.payout.unwrap();
    assert_eq!(payout.to, buyer());
    assert_eq!(payout.amount, 2 * ONE_NEAR);
    assert_eq!(funds(&c, seller()), (29 * ONE_NEAR / 10, 0));
    assert_eq!(c.revenue, ONE_NEAR / 10);
    assert_eq!(c.revenues[0].date, NOW + 5);
    let chat = chat(&c, "s1");
    assert!(chat.released && chat.received);
    assert_eq!(chat.ended_at, Some(NOW + 5));
}

#[test]
fn cancel_returns_the_principal_once() {
    let mut c = ledger();
    open_buy_chat(&mut c, "c1");
    assert_eq!(funds(&c, seller()), (29 * ONE_NEAR / 10, 21 * ONE_NEAR / 10));

    assert_eq!(c.cancel_chat(text("c1")), Ok(text("chat canceled")));

    assert_eq!(funds(&c, seller()), (49 * ONE_NEAR / 10, ONE_NEAR / 10));
    let chat_after = chat(&c, "c1");
    assert!(chat_after.canceled && !chat_after.active && !chat_after.released);

    assert_eq!(c.cancel_chat(text("c1")), Err(Fault::ChatNotActive));
    assert_eq!(funds(&c, seller()), (49 * ONE_NEAR / 10, ONE_NEAR / 10));
    assert_eq!(c.cancel_chat(text("none")), Err(Fault::ChatNotFound));
}

#[test]
fn cancel_of_a_sell_chat_unlocks_in_the_entry_of_the_offerer() {
    let mut c = ledger();
    c.add_sell_chat(
        &call(buyer(), 0),
        text("s1"),
        text("sells"),
        buyer(),
        2 * ONE_NEAR,
        buyer(),
        seller(),
        text("msg"),
    )
    .unwrap();
    assert_eq!(c.cancel_chat(text("s1")), Ok(text("chat canceled")));
    assert_eq!(funds(&c, seller()), (49 * ONE_NEAR / 10, ONE_NEAR / 10));
    assert_eq!(funds(&c, buyer()), (0, 0));
}

#[test]
fn a_paid_or_released_chat_cannot_be_canceled() {
    let mut c = ledger();
    open_buy_chat(&mut c, "c1");
    c.mark_as_paid(&call(buyer(), 0), text("c1")).unwrap();
    assert_eq!(
        c.cancel_chat(text("c1")),
        Ok(text("Chat cannot be cancelled since its either marked as paid or received"))
    );
    assert!(chat(&c, "c1").active && !chat(&c, "c1").canceled);
    assert_eq!(funds(&c, seller()), (29 * ONE_NEAR / 10, 21 * ONE_NEAR / 10));

    c.mark_as_received(&call(seller(), 0), text("c1")).unwrap();
    assert_eq!(c.cancel_chat(text("c1")), Err(Fault::AlreadyReleased));
    assert_eq!(funds(&c, seller()), (29 * ONE_NEAR / 10, 0));
    assert!(!chat(&c, "c1").canceled);
}

#[test]
fn receiver_rates_once() {
    let mut c = ledger();
    open_buy_chat(&mut c, "c1");
    let likes = |c: &Contract, who: AccountId| {
        let a = c.get_account(who).unwrap();
        (a.get_likes(), a.get_dislikes())
    };

    assert_eq!(c.receiver_rate_chat(&call(stranger(), 0), text("c1"), true), Ok(()));
    assert_eq!(likes(&c, buyer()), (0, 0));
    assert!(!chat(&c, "c1").receiver_has_rated);

    assert_eq!(c.receiver_rate_chat(&call(seller(), 0), text("c1"), true), Ok(()));
    assert_eq!(likes(&c, buyer()), (1, 0));
    assert!(chat(&c, "c1").receiver_has_rated);

    assert_eq!(c.receiver_rate_chat(&call(seller(), 0), text("c1"), true), Ok(()));
    assert_eq!(c.receiver_rate_chat(&call(seller(), 0), text("c1"), false), Ok(()));
    assert_eq!(likes(&c, buyer()), (1, 0));
    assert_eq!(likes(&c, seller()), (0, 0));
    assert!(chat(&c, "c1").receiver_has_rated);
    assert!(!chat(&c, "c1").payer_has_rated);
    assert_eq!(
        c.receiver_rate_chat(&call(seller(), 0), text("none"), true),
        Err(Fault::ChatNotFound)
    );
}

#[test]
fn payer_rates_once() {
    let mut c = ledger();
    open_buy_chat(&mut c, "c1");
    assert_eq!(c.payer_rate_chat(&call(seller(), 0), text("c1"), false), Ok(()));
    assert_eq!(c.get_account(seller()).unwrap().get_dislikes(), 0);
    assert_eq!(c.payer_rate_chat(&call(buyer(), 0), text("c1"), false), Ok(()));
    assert_eq!(c.get_account(seller()).unwrap().get_dislikes(), 1);
    assert_eq!(c.payer_rate_chat(&call(buyer(), 0), text("c1"), false), Ok(()));
    assert_eq!(c.payer_rate_chat(&call(buyer(), 0), text("c1"), true), Ok(()));
    let entry = c.get_account(seller()).unwrap();
    assert_eq!((entry.get_likes(), entry.get_dislikes()), (0, 1));
    assert!(chat(&c, "c1").payer_has_rated);
}

#[test]
fn rating_an_unregistered_party_is_a_fault() {
    let mut c = ledger();
    c.add_buy_chat(
        &call(seller(), 0),
        text("c1"),
        text("wants"),
        seller(),
        ONE_NEAR,
        stranger(),
        seller(),
        text(""),
    )
    .unwrap();
    assert_eq!(
        c.receiver_rate_chat(&call(seller(), 0), text("c1"), true),
        Err(Fault::AccountNotFound)
    );
    assert!(!chat(&c, "c1").receiver_has_rated);
}

#[test]
fn chats_of_an_account() {
    let mut c = ledger();
    open_buy_chat(&mut c, "c1");
    open_buy_chat(&mut c, "c2");
    let ids = |list: Vec<Chat>| list.into_iter().map(|c| c.id).collect::<Vec<String>>();
    assert_eq!(ids(c.get_account_chats(seller())), vec!["c1", "c2"]);
    assert_eq!(ids(c.get_account_chats(buyer())), vec!["c1", "c2"]);
    assert!(c.get_account_chats(stranger()).is_empty());
    let complete = c.pub_get_chat(text("c1")).unwrap();
    assert_eq!(complete.chat.unwrap().id, "c1");
    let offer = complete.offer.unwrap();
    assert_eq!(offer.id, "wants");
    assert_eq!(offer.offerer.unwrap().id, buyer());
    assert_eq!(c.pub_get_chat(text("none")).err(), Some(Fault::ChatNotFound));
    assert_eq!(c.remove_chat(&call(master(), 0)), Ok(()));
    assert_eq!(c.remove_chat(&call(seller(), 0)), Err(Fault::NotOwner));
    c.clear_chats();
    assert_eq!(c.chats.len(), 0);
    assert!(c.get_chat(text("c1")).is_none());
}

#[test]
fn chat_steps_by_hand() {
    let mut chat = Chat::new(
        text("c"),
        text("o"),
        seller(),
        buyer(),
        7,
        1,
        buyer(),
        seller(),
        text("m"),
        3,
    );
    assert_eq!(chat.mark_as_paid(&seller()), "failed");
    assert!(!chat.paid);
    assert_eq!(chat.mark_as_paid(&buyer()), "success");
    assert!(chat.paid);
    assert_eq!(
        chat.mark_as_canceled(),
        "Chat cannot be cancelled since its either marked as paid or received"
    );
    assert!(chat.active && !chat.canceled);
    assert_eq!(chat.mark_as_received(&buyer()), "failed");
    assert_eq!(chat.mark_as_received(&seller()), "success");
    assert!(chat.received);
    chat.mark_as_released();
    assert!(chat.released);
    chat.update_ended_at(9);
    assert_eq!(chat.ended_at, Some(9));
    chat.update_active_status(false);
    assert!(!chat.active);

    let mut other = chat.clone();
    other.paid = false;
    other.received = false;
    other.active = true;
    assert_eq!(other.mark_as_canceled(), "chat canceled");
    assert!(other.canceled && !other.active);
}
