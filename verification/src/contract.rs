//! The commands and queries of the ledger.
//!
//! The two commands that store something charge a fee first: the request
//! must carry enough funds in the configured currency, and all of what it
//! carries in that currency is then paid to the administrator or burnt.

use cosmwasm_std::StdError;
use vstd::prelude::*;
use vstd::utf8::encode_utf8;

use crate::bank::{
    amount_text, attribute_views, bank_msg_views, coin_views, decimal, Attribute, AttributeView,
    BankMsg, BankMsgView, Coin, CoinView, Env, MessageInfo, Response, ResponseView,
};
use crate::error::ContractError;
use crate::identity::{fits_in_key, Identity};
use crate::model::{
    is_sender_listing, page_end, page_start, FeesView, LedgerState, NoteView,
};
use crate::msg::{EncryptionKeyResponse, ExecuteMsg, InstantiateMsg, QueryMsg, QueryResponse};
use crate::state::{
    find_senders, key_too_long, load_enc_key, load_fees, load_note_meta, load_notes, note_views,
    page_has_keys, save_contract_version, save_enc_key, save_fees, store_note, texts, Fees, Note,
    Store,
};

verus! {

/// The first of `coins`, from index `from` on, that is in `denom`.
pub open spec fn first_coin_from(denom: Seq<char>, coins: Seq<CoinView>, from: int) -> Option<
    CoinView,
>
    decreases coins.len() - from,
{
    if from < 0 || from >= coins.len() {
        None
    } else if coins[from].denom == denom {
        Some(coins[from])
    } else {
        first_coin_from(denom, coins, from + 1)
    }
}

/// The first of `coins` that is in `denom`.
pub open spec fn first_coin(denom: Seq<char>, coins: Seq<CoinView>) -> Option<CoinView> {
    first_coin_from(denom, coins, 0)
}

/// What is to happen to a fee paid with `coin`: it goes to the administrator
/// if there is one and fees are not burnt, and is burnt in every other case.
pub open spec fn fee_instruction(fees: FeesView, coin: CoinView) -> BankMsgView {
    match fees.admin {
        Some(admin) => if fees.burn_fees {
            BankMsgView::Burn { amount: seq![coin] }
        } else {
            BankMsgView::Send { to_address: admin, amount: seq![coin] }
        },
        None => BankMsgView::Burn { amount: seq![coin] },
    }
}

/// The instructions that charging `required` against `funds` gives, or
/// `None` where the funds do not cover it.
///
/// Nothing is charged where nothing is required. Otherwise the first coin in
/// the configured currency must hold at least the required amount, and the
/// whole coin is taken: nothing is paid back.
pub open spec fn fee_outcome(fees: FeesView, required: u128, funds: Seq<CoinView>) -> Option<
    Seq<BankMsgView>,
> {
    if required == 0 {
        Some(Seq::empty())
    } else {
        match first_coin(fees.denom, funds) {
            Some(coin) => if coin.amount < required {
                None
            } else {
                Some(seq![fee_instruction(fees, coin)])
            },
            None => None,
        }
    }
}

/// The first of `coins` that is in `denom`.
pub fn find_coin(denom: &String, coins: &Vec<Coin>) -> (r: Option<Coin>)
    ensures
        match r {
            Some(coin) => first_coin(denom@, coin_views(coins@)) == Some(coin@),
            None => first_coin(denom@, coin_views(coins@)) is None,
        },
{
    let mut i: usize = 0;
    while i < coins.len()
        invariant
            i <= coins.len(),
            first_coin(denom@, coin_views(coins@)) == first_coin_from(
                denom@,
                coin_views(coins@),
                i as int,
            ),
        decreases coins.len() - i,
    {
        if coins[i].denom == *denom {
            return Some(coins[i].clone());
        }
        i = i + 1;
    }
    None
}

/// The instruction for a fee paid with `coin`: see [`fee_instruction`].
pub fn get_fee_msg(fees: &Fees, coin: &Coin) -> (r: BankMsg)
    ensures
        r@ == fee_instruction(fees@, coin@),
{
    let amount = vec![coin.clone()];
    assert(coin_views(amount@) =~= seq![coin@]);
    match &fees.admin {
        Some(admin) => {
            if fees.burn_fees {
                BankMsg::Burn { amount }
            } else {
                BankMsg::Send { to_address: admin.clone(), amount }
            }
        },
        None => BankMsg::Burn { amount },
    }
}

/// Charges `required` against `funds`: see [`fee_outcome`].
pub fn collect_fee(fees: &Fees, required: u128, funds: &Vec<Coin>) -> (r: Result<
    Vec<BankMsg>,
    ContractError,
>)
    ensures
        match r {
            Ok(msgs) => fee_outcome(fees@, required, coin_views(funds@)) == Some(
                bank_msg_views(msgs@),
            ),
            Err(e) => e == (ContractError::InsufficientFunds {}) && fee_outcome(
                fees@,
                required,
                coin_views(funds@),
            ) is None,
        },
{
    let mut msgs: Vec<BankMsg> = Vec::new();
    if required > 0 {
        match find_coin(&fees.denom, funds) {
            Some(coin) => {
                if coin.amount < required {
                    return Err(ContractError::InsufficientFunds {});
                }
                msgs.push(get_fee_msg(fees, &coin));
                assert(bank_msg_views(msgs@) =~= seq![fee_instruction(fees@, coin@)]);
            },
            None => {
                return Err(ContractError::InsufficientFunds {});
            },
        }
    } else {
        assert(bank_msg_views(msgs@) =~= Seq::<BankMsgView>::empty());
    }
    Ok(msgs)
}

/// The name under which the ledger records its version.
pub const CONTRACT_NAME: &'static str = "note_ledger";

/// The version that the ledger records.
pub const CONTRACT_VERSION: &'static str = "0.1.0";

/// The fee configuration that setting up the ledger writes: `sender`
/// administers it, and fees are paid to the administrator.
pub open spec fn initial_fees(sender: Seq<char>, msg: InstantiateMsg) -> FeesView {
    FeesView {
        admin: Some(sender),
        store_keys: msg.store_keys_fee,
        store_notes: msg.store_notes_fee,
        denom: msg.denom@,
        burn_fees: false,
    }
}

/// The reply to setting up the ledger with the two fees: no instruction, and
/// the method and both fees, in decimal digits, as attributes.
pub open spec fn instantiate_reply(store_keys: u128, store_notes: u128) -> ResponseView {
    ResponseView {
        messages: Seq::empty(),
        attributes: seq![
            AttributeView { key: "method"@, value: "instantiate"@ },
            AttributeView { key: "new_store_keys_fee"@, value: decimal(store_keys as nat) },
            AttributeView { key: "new_store_notes_fee"@, value: decimal(store_notes as nat) },
        ],
    }
}

/// Sets up the ledger: records its version and writes the first fee
/// configuration, with the sender as administrator. It always succeeds.
pub fn instantiate(store: &mut Store, _env: Env, info: MessageInfo, msg: InstantiateMsg) -> (r:
    Result<Response, ContractError>)
    ensures
        match r {
            Ok(reply) => final(store)@ == old(store)@.with_fees(initial_fees(info.sender@, msg))
                && reply@ == instantiate_reply(msg.store_keys_fee, msg.store_notes_fee),
            Err(_) => false,
        },
        old(store).intact() ==> final(store).intact(),
        old(store)@.consistent() ==> final(store)@.consistent(),
        old(store)@.kept_by(final(store)@),
{
    match save_contract_version(store, CONTRACT_NAME, CONTRACT_VERSION) {
        Ok(()) => {},
        Err(e) => {
            return Err(ContractError::Std(e));
        },
    }
    let store_keys = msg.store_keys_fee;
    let store_notes = msg.store_notes_fee;
    let fees = Fees {
        admin: Some(info.sender),
        store_keys,
        store_notes,
        denom: msg.denom,
        burn_fees: false,
    };
    save_fees(store, &fees)?;
    let mut attributes: Vec<Attribute> = Vec::new();
    attributes.push(Attribute::new("method", "instantiate".to_owned()));
    attributes.push(Attribute::new("new_store_keys_fee", amount_text(store_keys)));
    attributes.push(Attribute::new("new_store_notes_fee", amount_text(store_notes)));
    let reply = Response { messages: Vec::new(), attributes };
    assert(bank_msg_views(reply.messages@) =~= Seq::<BankMsgView>::empty());
    assert(attribute_views(reply.attributes@) =~= instantiate_reply(
        store_keys,
        store_notes,
    ).attributes);
    Ok(reply)
}

/// Whether `reply` is that of a command that charged `messages` and reports
/// `attributes`.
pub open spec fn is_reply(
    reply: Response,
    messages: Seq<BankMsgView>,
    attributes: Seq<AttributeView>,
) -> bool {
    reply@ == (ResponseView { messages, attributes })
}

/// The administrator that a validated address names.
pub open spec fn named_admin(admin: Option<Result<String, StdError>>) -> Option<Seq<char>> {
    match admin {
        Some(Ok(address)) => Some(address@),
        _ => None,
    }
}

/// What replacing the fee configuration comes to.
///
/// Only the administrator may: anybody else is refused, and so is everybody
/// where there is no administrator. A new administrator whose address is
/// invalid is reported, to the present administrator only. In every other
/// case the update succeeds: the new configuration replaces the old one as a
/// whole, its administrator included. Whatever fails, the ledger is as it
/// was.
pub open spec fn update_fees_outcome(
    before: LedgerState,
    after: LedgerState,
    intact: bool,
    sender: Seq<char>,
    admin: Option<Result<String, StdError>>,
    store_keys: u128,
    store_notes: u128,
    denom: Seq<char>,
    burn_fees: bool,
    r: Result<Response, ContractError>,
) -> bool {
    match r {
        Ok(reply) => {
            &&& before.administered_by(sender)
            &&& !(admin matches Some(Err(_)))
            &&& after == before.with_fees(
                FeesView { admin: named_admin(admin), store_keys, store_notes, denom, burn_fees },
            )
            &&& is_reply(
                reply,
                Seq::empty(),
                seq![AttributeView { key: "method"@, value: "update_fees"@ }],
            )
        },
        Err(ContractError::Unauthorized {  }) => {
            &&& before.fees is Some
            &&& !before.administered_by(sender)
            &&& after == before
        },
        Err(ContractError::NotFound { .. }) => before.fees is None && after == before,
        Err(ContractError::Std(e)) => {
            &&& after == before
            &&& if before.fees is None {
                !intact
            } else {
                &&& before.administered_by(sender)
                &&& admin matches Some(Err(invalid))
                &&& e == invalid
            }
        },
        Err(ContractError::InsufficientFunds {  }) => false,
    }
}

/// Whether replacing the fee configuration is owed success: the sender is
/// the administrator, and the new administrator, if one is named, is valid.
pub open spec fn update_fees_succeeds(
    before: LedgerState,
    sender: Seq<char>,
    admin: Option<Result<String, StdError>>,
) -> bool {
    before.administered_by(sender) && !(admin matches Some(Err(_)))
}

/// Replaces the fee configuration: see [`update_fees_outcome`].
pub fn exec_update_fees(
    store: &mut Store,
    info: &MessageInfo,
    admin: Option<Result<String, StdError>>,
    store_keys: u128,
    store_notes: u128,
    denom: String,
    burn_fees: bool,
) -> (r: Result<Response, ContractError>)
    ensures
        update_fees_outcome(
            old(store)@,
            final(store)@,
            old(store).intact(),
            info.sender@,
            admin,
            store_keys,
            store_notes,
            denom@,
            burn_fees,
            r,
        ),
        update_fees_succeeds(old(store)@, info.sender@, admin) ==> r is Ok,
        old(store).intact() ==> final(store).intact(),
        old(store)@.consistent() ==> final(store)@.consistent(),
        old(store)@.kept_by(final(store)@),
{
    let fees = load_fees(store)?;
    let authorized = match &fees.admin {
        Some(current) => *current == info.sender,
        None => false,
    };
    if !authorized {
        return Err(ContractError::Unauthorized {  });
    }
    let admin: Option<String> = match admin {
        Some(Ok(address)) => Some(address),
        Some(Err(e)) => {
            return Err(ContractError::Std(e));
        },
        None => None,
    };
    let fees = Fees { admin, store_keys, store_notes, denom, burn_fees };
    save_fees(store, &fees)?;
    let mut attributes: Vec<Attribute> = Vec::new();
    attributes.push(Attribute::new("method", "update_fees".to_owned()));
    let reply = Response { messages: Vec::new(), attributes };
    assert(bank_msg_views(reply.messages@) =~= Seq::<BankMsgView>::empty());
    assert(attribute_views(reply.attributes@) =~= seq![
        AttributeView { key: "method"@, value: "update_fees"@ },
    ]);
    Ok(reply)
}

/// Once the administrator has handed the ledger over, every other caller is
/// refused, the former administrator included, and what the new
/// administrator asks for is done, unless it names an invalid address.
pub proof fn law_admin_hand_over(
    before: LedgerState,
    handed_over: LedgerState,
    after: LedgerState,
    intact: bool,
    still_intact: bool,
    former: Seq<char>,
    successor: String,
    caller: Seq<char>,
    first: Fees,
    second: Fees,
    admin: Option<Result<String, StdError>>,
    r1: Result<Response, ContractError>,
    r2: Result<Response, ContractError>,
)
    requires
        update_fees_outcome(
            before,
            handed_over,
            intact,
            former,
            Some(Ok(successor)),
            first.store_keys,
            first.store_notes,
            first.denom@,
            first.burn_fees,
            r1,
        ),
        r1 is Ok,
        update_fees_outcome(
            handed_over,
            after,
            still_intact,
            caller,
            admin,
            second.store_keys,
            second.store_notes,
            second.denom@,
            second.burn_fees,
            r2,
        ),
    ensures
        before.administered_by(former),
        handed_over.administered_by(successor@),
        caller != successor@ ==> r2 == Err::<Response, ContractError>(
            ContractError::Unauthorized {  },
        ) && after == handed_over,
        caller == successor@ ==> (match admin {
            Some(Err(invalid)) => r2 == Err::<Response, ContractError>(
                ContractError::Std(invalid),
            ),
            _ => r2 is Ok && after.fees == Some(
                FeesView {
                    admin: named_admin(admin),
                    store_keys: second.store_keys,
                    store_notes: second.store_notes,
                    denom: second.denom@,
                    burn_fees: second.burn_fees,
                },
            ),
        }),
{
}

/// What setting the sender's encryption key comes to.
///
/// The fee on keys is charged first. Once it is covered the command
/// succeeds: the key replaces any that the sender had, whatever it holds.
/// Whatever fails, the ledger is as it was.
pub open spec fn update_key_outcome(
    before: LedgerState,
    after: LedgerState,
    intact: bool,
    sender: Seq<char>,
    funds: Seq<CoinView>,
    key: Seq<char>,
    r: Result<Response, ContractError>,
) -> bool {
    match r {
        Ok(reply) => {
            &&& before.fees matches Some(fees)
            &&& fee_outcome(fees, fees.store_keys, funds) matches Some(messages)
            &&& after == before.with_key(sender, encode_utf8(key))
            &&& is_reply(
                reply,
                messages,
                seq![AttributeView { key: "method"@, value: "update_key"@ }],
            )
        },
        Err(ContractError::InsufficientFunds {  }) => {
            &&& before.fees matches Some(fees)
            &&& fee_outcome(fees, fees.store_keys, funds) is None
            &&& after == before
        },
        Err(ContractError::NotFound { .. }) => before.fees is None && after == before,
        Err(ContractError::Std(_)) => before.fees is None && !intact && after == before,
        Err(ContractError::Unauthorized {  }) => false,
    }
}

/// Of two keys that an identity sets one after the other, the ledger keeps
/// the second alone.
pub proof fn law_second_key_replaces_first(
    before: LedgerState,
    between: LedgerState,
    after: LedgerState,
    intact: bool,
    still_intact: bool,
    sender: Seq<char>,
    funds: Seq<CoinView>,
    more_funds: Seq<CoinView>,
    first: Seq<char>,
    second: Seq<char>,
    r1: Result<Response, ContractError>,
    r2: Result<Response, ContractError>,
)
    requires
        update_key_outcome(before, between, intact, sender, funds, first, r1),
        update_key_outcome(between, after, still_intact, sender, more_funds, second, r2),
        r2 is Ok,
    ensures
        after.key_of(sender) == Some(encode_utf8(second)),
        after == before.with_key(sender, encode_utf8(second)),
{
    assert(before.with_key(sender, encode_utf8(first)).keys.insert(sender, encode_utf8(second))
        =~= before.keys.insert(sender, encode_utf8(second)));
}

/// Whether setting a key is owed success: the ledger is set up and the fee
/// on keys is covered.
pub open spec fn update_key_succeeds(before: LedgerState, funds: Seq<CoinView>) -> bool {
    before.fees matches Some(fees) && fee_outcome(fees, fees.store_keys, funds) is Some
}

/// Sets the sender's encryption key: see [`update_key_outcome`].
pub fn exec_update_key(store: &mut Store, info: &MessageInfo, key: String) -> (r: Result<
    Response,
    ContractError,
>)
    ensures
        update_key_outcome(
            old(store)@,
            final(store)@,
            old(store).intact(),
            info.sender@,
            coin_views(info.funds@),
            key@,
            r,
        ),
        update_key_succeeds(old(store)@, coin_views(info.funds@)) ==> r is Ok,
        old(store).intact() ==> final(store).intact(),
        old(store)@.consistent() ==> final(store)@.consistent(),
        old(store)@.kept_by(final(store)@),
{
    let fees = load_fees(store)?;
    let messages = collect_fee(&fees, fees.store_keys, &info.funds)?;
    let bytes = key.as_str().as_bytes_vec();
    save_enc_key(store, info.sender.clone(), &bytes)?;
    let mut attributes: Vec<Attribute> = Vec::new();
    attributes.push(Attribute::new("method", "update_key".to_owned()));
    let reply = Response { messages, attributes };
    assert(attribute_views(reply.attributes@) =~= seq![
        AttributeView { key: "method"@, value: "update_key"@ },
    ]);
    Ok(reply)
}

/// Whether a note from `sender` to `recipient` can be appended to a ledger
/// in `before`: the sender fits in a storage key, and the count of the
/// thread reads back and can grow.
pub open spec fn thread_takes_note(
    before: LedgerState,
    intact: bool,
    sender: Seq<char>,
    recipient: Seq<char>,
) -> bool {
    &&& fits_in_key(sender)
    &&& before.count(recipient, sender) < u64::MAX
    &&& before.has_thread(recipient, sender) || intact
}

/// What storing a note from the sender to `recipient` comes to.
///
/// The fee on notes is charged first, and only then is an invalid recipient
/// reported. The note, with its sender and the time of the block, is then
/// appended to the thread: it takes the next free index, and the count grows
/// by one. That succeeds on every intact store, unless the sender does not
/// fit in a storage key or the thread can take no further note. Whatever
/// fails, the ledger is as it was.
pub open spec fn store_note_outcome(
    before: LedgerState,
    after: LedgerState,
    intact: bool,
    time: u64,
    sender: Seq<char>,
    funds: Seq<CoinView>,
    recipient: Result<Identity, StdError>,
    note: Seq<char>,
    r: Result<Response, ContractError>,
) -> bool {
    match r {
        Ok(reply) => {
            &&& before.fees matches Some(fees)
            &&& fee_outcome(fees, fees.store_notes, funds) matches Some(messages)
            &&& recipient matches Ok(to)
            &&& fits_in_key(sender)
            &&& before.count(to@, sender) < u64::MAX
            &&& after == before.with_note(
                to@,
                sender,
                NoteView { sender, note: encode_utf8(note), timestamp: time },
            )
            &&& is_reply(
                reply,
                messages,
                seq![
                    AttributeView { key: "method"@, value: "store_note"@ },
                    AttributeView { key: "recipient"@, value: to@ },
                ],
            )
        },
        Err(ContractError::InsufficientFunds {  }) => {
            &&& before.fees matches Some(fees)
            &&& fee_outcome(fees, fees.store_notes, funds) is None
            &&& after == before
        },
        Err(ContractError::NotFound { .. }) => before.fees is None && after == before,
        Err(ContractError::Std(e)) => {
            &&& after == before
            &&& match before.fees {
                Some(fees) => {
                    &&& fee_outcome(fees, fees.store_notes, funds) is Some
                    &&& match recipient {
                        Ok(to) => {
                            ||| !fits_in_key(sender)
                            ||| before.count(to@, sender) == u64::MAX
                            ||| !before.has_thread(to@, sender) && !intact
                        },
                        Err(invalid) => e == invalid,
                    }
                },
                None => !intact,
            }
        },
        Err(ContractError::Unauthorized {  }) => false,
    }
}

/// Whether storing a note is owed success: the ledger is set up, the fee on
/// notes is covered, the recipient is valid and the thread takes the note.
pub open spec fn store_note_succeeds(
    before: LedgerState,
    intact: bool,
    sender: Seq<char>,
    funds: Seq<CoinView>,
    recipient: Result<Identity, StdError>,
) -> bool {
    &&& before.fees matches Some(fees)
    &&& fee_outcome(fees, fees.store_notes, funds) is Some
    &&& recipient matches Ok(to)
    &&& thread_takes_note(before, intact, sender, to@)
}

/// Stores a note from the sender to `recipient`: see
/// [`store_note_outcome`].
pub fn exec_store_note(
    store: &mut Store,
    env: &Env,
    info: &MessageInfo,
    recipient: Result<Identity, StdError>,
    note: String,
) -> (r: Result<Response, ContractError>)
    ensures
        store_note_outcome(
            old(store)@,
            final(store)@,
            old(store).intact(),
            env.time,
            info.sender@,
            coin_views(info.funds@),
            recipient,
            note@,
            r,
        ),
        store_note_succeeds(
            old(store)@,
            old(store).intact(),
            info.sender@,
            coin_views(info.funds@),
            recipient,
        ) ==> r is Ok,
        r is Err ==> final(store)@ == old(store)@,
        old(store).intact() ==> final(store).intact(),
        old(store)@.consistent() ==> final(store)@.consistent(),
        old(store)@.kept_by(final(store)@),
{
    let fees = load_fees(store)?;
    let messages = collect_fee(&fees, fees.store_notes, &info.funds)?;
    let to = match recipient {
        Ok(to) => to,
        Err(e) => {
            return Err(ContractError::Std(e));
        },
    };
    let from = match Identity::new(info.sender.clone()) {
        Some(from) => from,
        None => {
            return Err(ContractError::Std(key_too_long()));
        },
    };
    let stored = Note {
        sender: info.sender.clone(),
        note: note.as_str().as_bytes_vec(),
        timestamp: env.time,
    };
    let mut attributes: Vec<Attribute> = Vec::new();
    attributes.push(Attribute::new("method", "store_note".to_owned()));
    attributes.push(Attribute::new("recipient", to.as_string().clone()));
    store_note(store, from, to, stored)?;
    let reply = Response { messages, attributes };
    assert(attribute_views(reply.attributes@) =~= seq![
        AttributeView { key: "method"@, value: "store_note"@ },
        AttributeView { key: "recipient"@, value: to@ },
    ]);
    Ok(reply)
}

/// Whether a command is owed success on a ledger in `before`: see
/// [`update_fees_succeeds`], [`update_key_succeeds`] and
/// [`store_note_succeeds`].
pub open spec fn command_succeeds(
    before: LedgerState,
    intact: bool,
    sender: Seq<char>,
    funds: Seq<CoinView>,
    msg: ExecuteMsg,
) -> bool {
    match msg {
        ExecuteMsg::UpdateFees { admin, .. } => update_fees_succeeds(before, sender, admin),
        ExecuteMsg::UpdateKey { .. } => update_key_succeeds(before, funds),
        ExecuteMsg::StoreNote { recipient, .. } => store_note_succeeds(
            before,
            intact,
            sender,
            funds,
            recipient,
        ),
    }
}

/// Runs a command: see [`update_fees_outcome`], [`update_key_outcome`] and
/// [`store_note_outcome`]. A command that fails leaves the ledger as it was.
pub fn execute(store: &mut Store, env: Env, info: MessageInfo, msg: ExecuteMsg) -> (r: Result<
    Response,
    ContractError,
>)
    ensures
        match msg {
            ExecuteMsg::UpdateFees {
                admin,
                store_keys,
                store_notes,
                denom,
                burn_fees,
            } => update_fees_outcome(
                old(store)@,
                final(store)@,
                old(store).intact(),
                info.sender@,
                admin,
                store_keys,
                store_notes,
                denom@,
                burn_fees,
                r,
            ),
            ExecuteMsg::UpdateKey { key } => update_key_outcome(
                old(store)@,
                final(store)@,
                old(store).intact(),
                info.sender@,
                coin_views(info.funds@),
                key@,
                r,
            ),
            ExecuteMsg::StoreNote { recipient, note } => store_note_outcome(
                old(store)@,
                final(store)@,
                old(store).intact(),
                env.time,
                info.sender@,
                coin_views(info.funds@),
                recipient,
                note@,
                r,
            ),
        },
        command_succeeds(
            old(store)@,
            old(store).intact(),
            info.sender@,
            coin_views(info.funds@),
            msg,
        ) ==> r is Ok,
        r is Err ==> final(store)@ == old(store)@,
        old(store).intact() ==> final(store).intact(),
        old(store)@.consistent() ==> final(store)@.consistent(),
        old(store)@.kept_by(final(store)@),
{
    match msg {
        ExecuteMsg::UpdateFees {
            admin,
            store_keys,
            store_notes,
            denom,
            burn_fees,
        } => exec_update_fees(store, &info, admin, store_keys, store_notes, denom, burn_fees),
        ExecuteMsg::UpdateKey { key } => exec_update_key(store, &info, key),
        ExecuteMsg::StoreNote { recipient, note } => exec_store_note(
            store,
            &env,
            &info,
            recipient,
            note,
        ),
    }
}

/// What asking for the fee configuration comes to: it is there once the
/// ledger has been set up.
pub open spec fn fees_outcome(
    state: LedgerState,
    intact: bool,
    r: Result<Fees, ContractError>,
) -> bool {
    match r {
        Ok(fees) => state.fees == Some(fees@),
        Err(ContractError::NotFound { .. }) => state.fees is None,
        Err(ContractError::Std(_)) => state.fees is None && !intact,
        Err(_) => false,
    }
}

/// The fee configuration: see [`fees_outcome`].
pub fn query_fees(store: &Store) -> (r: Result<Fees, ContractError>)
    ensures
        fees_outcome(store@, store.intact(), r),
{
    load_fees(store)
}

/// What asking for the number of notes from `sender` to `recipient` comes
/// to. An invalid address is reported, the recipient's first. A thread that
/// never received a note is a failure, not a count of zero.
pub open spec fn note_count_outcome(
    state: LedgerState,
    intact: bool,
    recipient: Result<Identity, StdError>,
    sender: Result<String, StdError>,
    r: Result<u64, ContractError>,
) -> bool {
    match (recipient, sender) {
        (Ok(to), Ok(from)) => match r {
            Ok(count) => state.has_thread(to@, from@) && count == state.count(to@, from@),
            Err(ContractError::NotFound { .. }) => !state.has_thread(to@, from@),
            Err(ContractError::Std(_)) => !state.has_thread(to@, from@) && !intact,
            Err(_) => false,
        },
        (Err(invalid), _) => r == Err::<u64, ContractError>(ContractError::Std(invalid)),
        (Ok(_), Err(invalid)) => r == Err::<u64, ContractError>(ContractError::Std(invalid)),
    }
}

/// The number of notes from `sender` to `recipient`: see
/// [`note_count_outcome`].
pub fn query_note_count(
    store: &Store,
    recipient: Result<Identity, StdError>,
    sender: Result<String, StdError>,
) -> (r: Result<u64, ContractError>)
    ensures
        note_count_outcome(store@, store.intact(), recipient, sender, r),
{
    let to = match recipient {
        Ok(to) => to,
        Err(e) => {
            return Err(ContractError::Std(e));
        },
    };
    let from = match sender {
        Ok(from) => from,
        Err(e) => {
            return Err(ContractError::Std(e));
        },
    };
    let meta = load_note_meta(store, from, to)?;
    Ok(meta.count)
}

/// What asking for the senders of `recipient` comes to: each identity that
/// has sent it a note, once and in ascending order.
pub open spec fn senders_outcome(
    state: LedgerState,
    intact: bool,
    recipient: Result<Identity, StdError>,
    r: Result<Vec<String>, ContractError>,
) -> bool {
    match recipient {
        Ok(to) => match r {
            Ok(names) => is_sender_listing(state, to@, texts(names@)),
            Err(e) => e is Std && !intact,
        },
        Err(invalid) => r == Err::<Vec<String>, ContractError>(ContractError::Std(invalid)),
    }
}

/// The senders of `recipient`: see [`senders_outcome`].
pub fn query_senders(store: &Store, recipient: Result<Identity, StdError>) -> (r: Result<
    Vec<String>,
    ContractError,
>)
    ensures
        senders_outcome(store@, store.intact(), recipient, r),
{
    let to = match recipient {
        Ok(to) => to,
        Err(e) => {
            return Err(ContractError::Std(e));
        },
    };
    find_senders(store, to)
}

/// The key that an answer holds, as bytes.
pub open spec fn answered_key(answer: EncryptionKeyResponse) -> Option<Seq<u8>> {
    match answer.key {
        Some(key) => Some(key@),
        None => None,
    }
}

/// What asking for the encryption key of `address` comes to: the key it
/// stored last, or none if it never stored one.
pub open spec fn enc_key_outcome(
    state: LedgerState,
    intact: bool,
    address: Result<String, StdError>,
    r: Result<EncryptionKeyResponse, ContractError>,
) -> bool {
    match address {
        Ok(identity) => match r {
            Ok(answer) => answered_key(answer) == state.key_of(identity@),
            Err(e) => e is Std && state.key_of(identity@) is None && !intact,
        },
        Err(invalid) => r == Err::<EncryptionKeyResponse, ContractError>(
            ContractError::Std(invalid),
        ),
    }
}

/// The encryption key of `address`: see [`enc_key_outcome`].
pub fn query_enc_key(store: &Store, address: Result<String, StdError>) -> (r: Result<
    EncryptionKeyResponse,
    ContractError,
>)
    ensures
        enc_key_outcome(store@, store.intact(), address, r),
{
    let identity = match address {
        Ok(identity) => identity,
        Err(e) => {
            return Err(ContractError::Std(e));
        },
    };
    let key = load_enc_key(store, identity)?;
    Ok(EncryptionKeyResponse { key })
}

/// What asking for a page of the notes from `sender` to `recipient` comes
/// to. An invalid address is reported, the recipient's first. The page
/// starts at `start_after`, or at 0, holds at most `limit` notes, or all
/// that follow, and lists them in ascending order of their indices. It is
/// there when the thread exists and each of its indices holds a note; a
/// sender too long for the key of a note has no page but the empty one.
pub open spec fn notes_outcome(
    state: LedgerState,
    intact: bool,
    recipient: Result<Identity, StdError>,
    sender: Result<String, StdError>,
    start_after: Option<u64>,
    limit: Option<u32>,
    r: Result<Vec<Note>, ContractError>,
) -> bool {
    match (recipient, sender) {
        (Ok(to), Ok(from)) => {
            let start = page_start(start_after);
            let end = page_end(state.count(to@, from@), start_after, limit);
            let readable = state.has_thread(to@, from@) && state.page_complete(
                to@,
                from@,
                start,
                end,
            );
            let keyed = page_has_keys(from@, start, end);
            match r {
                Ok(notes) => readable && keyed && note_views(notes@) == state.page(
                    to@,
                    from@,
                    start,
                    end,
                ),
                Err(ContractError::NotFound { .. }) => !readable && (keyed || !state.has_thread(
                    to@,
                    from@,
                )),
                Err(ContractError::Std(_)) => (!readable && !intact) || (state.has_thread(
                    to@,
                    from@,
                ) && !keyed),
                Err(_) => false,
            }
        },
        (Err(invalid), _) => r == Err::<Vec<Note>, ContractError>(ContractError::Std(invalid)),
        (Ok(_), Err(invalid)) => r == Err::<Vec<Note>, ContractError>(
            ContractError::Std(invalid),
        ),
    }
}

/// A page of the notes from `sender` to `recipient`: see [`notes_outcome`].
pub fn query_notes(
    store: &Store,
    recipient: Result<Identity, StdError>,
    sender: Result<String, StdError>,
    start_after: Option<u64>,
    limit: Option<u32>,
) -> (r: Result<Vec<Note>, ContractError>)
    ensures
        notes_outcome(store@, store.intact(), recipient, sender, start_after, limit, r),
{
    let to = match recipient {
        Ok(to) => to,
        Err(e) => {
            return Err(ContractError::Std(e));
        },
    };
    let from = match sender {
        Ok(from) => from,
        Err(e) => {
            return Err(ContractError::Std(e));
        },
    };
    load_notes(store, to, from, start_after, limit)
}

/// Whether `r` answers `msg` on a ledger in `state`: the answer is of the
/// kind of the query and is what the query comes to.
pub open spec fn query_outcome(
    state: LedgerState,
    intact: bool,
    msg: QueryMsg,
    r: Result<QueryResponse, ContractError>,
) -> bool {
    match msg {
        QueryMsg::Fees {  } => match r {
            Ok(QueryResponse::Fees(fees)) => fees_outcome(state, intact, Ok(fees)),
            Ok(_) => false,
            Err(e) => fees_outcome(state, intact, Err(e)),
        },
        QueryMsg::NoteCount { recipient, sender } => match r {
            Ok(QueryResponse::NoteCount(count)) => note_count_outcome(
                state,
                intact,
                recipient,
                sender,
                Ok(count),
            ),
            Ok(_) => false,
            Err(e) => note_count_outcome(state, intact, recipient, sender, Err(e)),
        },
        QueryMsg::Senders { recipient } => match r {
            Ok(QueryResponse::Senders(names)) => senders_outcome(
                state,
                intact,
                recipient,
                Ok(names),
            ),
            Ok(_) => false,
            Err(e) => senders_outcome(state, intact, recipient, Err(e)),
        },
        QueryMsg::EncryptionKey { address } => match r {
            Ok(QueryResponse::EncryptionKey(answer)) => enc_key_outcome(
                state,
                intact,
                address,
                Ok(answer),
            ),
            Ok(_) => false,
            Err(e) => enc_key_outcome(state, intact, address, Err(e)),
        },
        QueryMsg::Notes { recipient, sender, start_after, limit } => match r {
            Ok(QueryResponse::Notes(notes)) => notes_outcome(
                state,
                intact,
                recipient,
                sender,
                start_after,
                limit,
                Ok(notes),
            ),
            Ok(_) => false,
            Err(e) => notes_outcome(state, intact, recipient, sender, start_after, limit, Err(e)),
        },
    }
}

/// Answers a query: see [`query_outcome`]. A query changes nothing.
pub fn query(store: &Store, _env: Env, msg: QueryMsg) -> (r: Result<QueryResponse, ContractError>)
    ensures
        query_outcome(store@, store.intact(), msg, r),
{
    match msg {
        QueryMsg::Fees {  } => match query_fees(store) {
            Ok(fees) => Ok(QueryResponse::Fees(fees)),
            Err(e) => Err(e),
        },
        QueryMsg::NoteCount { recipient, sender } => match query_note_count(
            store,
            recipient,
            sender,
        ) {
            Ok(count) => Ok(QueryResponse::NoteCount(count)),
            Err(e) => Err(e),
        },
        QueryMsg::Senders { recipient } => match query_senders(store, recipient) {
            Ok(names) => Ok(QueryResponse::Senders(names)),
            Err(e) => Err(e),
        },
        QueryMsg::EncryptionKey { address } => match query_enc_key(store, address) {
            Ok(answer) => Ok(QueryResponse::EncryptionKey(answer)),
            Err(e) => Err(e),
        },
        QueryMsg::Notes { recipient, sender, start_after, limit } => match query_notes(
            store,
            recipient,
            sender,
            start_after,
            limit,
        ) {
            Ok(notes) => Ok(QueryResponse::Notes(notes)),
            Err(e) => Err(e),
        },
    }
}

} // verus!
