//! The entry points of the marketplace: setting it up, dispatching an
//! operation, taking the host's report on the deployment of the reward
//! token, and migrating.

pub use crate::admission::execute_register_private_sale;
pub use crate::auction::{execute_cancel_auction, execute_create_auction};
pub use crate::bidding::{execute_instant_buy, execute_place_bid, execute_retract_bids};
pub use crate::query::query;
pub use crate::royalty::execute_update_royalty;
pub use crate::settlement::execute_withdraw_nft;

use crate::admission::register;
use crate::auction::{cancel, create_auction, Listing};
use crate::bidding::{instant_buy, place_bid, retract};
use crate::error::ContractError;
use crate::host::{
    attr, is_text, Attribute, ContractResult, Env, Event, Instruction, InstructionView,
    MessageInfo, Querier, Reply, Response, ResponseView,
};
use crate::money::Decimal;
use crate::msg::{
    charity_response_of, ExecuteMsg, InstantiateMsg, MigrateMsg, NftReceiveMsg, ReceiveMsg,
    TokenReceiveMsg,
};
use crate::royalty::update_royalty;
use crate::rules::{holds, Outcome};
use crate::settlement::withdraw;
use crate::state::{
    text_of, Cancellation, Config, ConfigView, Ledger, LedgerView, State, StateView,
};
use vstd::prelude::*;
use vstd::string::*;

verus! {

/// The number under which the host reports on the deployment of the reward
/// token.
pub const CW20_INSTANTIATE_REPLY_ID: u64 = 0;

/// The number of decimal places of the reward token.
pub const REWARD_TOKEN_DECIMALS: u8 = 6;

/// The name of the reward token.
pub open spec fn reward_token_name() -> Seq<char> {
    "curio"@
}

/// The symbol of the reward token.
pub open spec fn reward_token_symbol() -> Seq<char> {
    "SITY"@
}

/// The ledger that the marketplace begins with: the parameters of the
/// message, no auction, no cancellation fee, and the marketplace's own
/// address in the place of the reward token's.
pub open spec fn initial_ledger(marketplace: Seq<char>, msg: InstantiateMsg) -> LedgerView {
    LedgerView {
        config: ConfigView {
            denom: msg.denom@,
            bid_margin: msg.bid_margin,
            lota_fee: msg.lota_fee,
            lota_fee_low: msg.lota_fee_low,
            lota_contract: msg.lota_contract@,
            sity_full_rewards: msg.sity_full_rewards,
            sity_partial_rewards: msg.sity_partial_rewards,
            sity_fee_registration: msg.sity_fee_registration,
            sity_min_opening: msg.sity_min_opening,
        },
        state: StateView { counter_items: 0, cw20_address: marketplace },
        cancellation: Cancellation { cancellation_fee: Decimal { atomics: 0 } },
        items: Map::empty(),
        bids: Map::empty(),
        histories: Map::empty(),
        histories_bidder: Map::empty(),
        royalty: Map::empty(),
    }
}

/// What setting up the marketplace returns: the instruction to deploy the
/// reward token with the marketplace as its minter.
pub open spec fn initial_response(marketplace: Seq<char>, owner: Seq<char>, msg: InstantiateMsg) -> ResponseView {
    ResponseView {
        messages: seq![
            InstructionView::InstantiateToken {
                code_id: msg.cw20_code_id,
                label: msg.cw20_label@,
                name: reward_token_name(),
                symbol: reward_token_symbol(),
                decimals: REWARD_TOKEN_DECIMALS,
                minter: marketplace,
                reply_id: CW20_INSTANTIATE_REPLY_ID,
            },
        ],
        attributes: seq![attr("method"@, "instantiate"@), attr("owner"@, owner)],
    }
}

/// Sets up the marketplace with the parameters of `msg`.
pub fn instantiate(env: &Env, info: &MessageInfo, msg: InstantiateMsg) -> (r: (Ledger, Response))
    ensures
        r.0@ == initial_ledger(env.contract_address@, msg),
        r.1@ == initial_response(env.contract_address@, info.sender@, msg),
{
    let response = Response::new().add_message(
        Instruction::InstantiateToken {
            code_id: msg.cw20_code_id,
            label: msg.cw20_label.clone(),
            name: String::from_str("curio"),
            symbol: String::from_str("SITY"),
            decimals: REWARD_TOKEN_DECIMALS,
            minter: env.contract_address.clone(),
            reply_id: CW20_INSTANTIATE_REPLY_ID,
        },
    ).add_attribute("method", String::from_str("instantiate")).add_attribute(
        "owner",
        info.sender.clone(),
    );
    assert(response@.attributes =~= initial_response(
        env.contract_address@,
        info.sender@,
        msg,
    ).attributes);
    let config = Config {
        denom: msg.denom,
        bid_margin: msg.bid_margin,
        lota_fee: msg.lota_fee,
        lota_fee_low: msg.lota_fee_low,
        lota_contract: msg.lota_contract,
        sity_full_rewards: msg.sity_full_rewards,
        sity_partial_rewards: msg.sity_partial_rewards,
        sity_fee_registration: msg.sity_fee_registration,
        sity_min_opening: msg.sity_min_opening,
    };
    let state = State { counter_items: 0, cw20_address: env.contract_address.clone() };
    let cancellation = Cancellation { cancellation_fee: Decimal::zero() };
    (Ledger::new(config, state, cancellation), response)
}

/// What the notice of an asset's contract does: it creates an auction, and
/// is rejected where it asks for anything else.
pub open spec fn receive_nft(
    ledger: LedgerView,
    env: Env,
    info: MessageInfo,
    wrapper: NftReceiveMsg,
) -> Result<Outcome, ContractError> {
    match wrapper.msg {
        ReceiveMsg::CreateAuctionNft {
            start_price,
            start_time,
            end_time,
            charity,
            instant_buy,
            reserve_price,
            private_sale,
        } => create_auction(
            ledger,
            env.time,
            env.contract_address@,
            info.sender@,
            wrapper.sender@,
            wrapper.token_id@,
            Listing {
                start_price,
                start_time,
                end_time,
                charity: charity_response_of(charity),
                instant_buy,
                reserve_price,
                private_sale,
            },
        ),
        _ => Err(ContractError::Unauthorized {  }),
    }
}

/// Takes the notice of an asset's contract, the caller, that an asset was
/// handed to the marketplace.
pub fn execute_receive_cw721(
    ledger: &mut Ledger,
    env: &Env,
    info: &MessageInfo,
    wrapper: NftReceiveMsg,
) -> (res: Result<Response, ContractError>)
    ensures
        holds(old(ledger)@, final(ledger)@, res, receive_nft(old(ledger)@, *env, *info, wrapper)),
{
    match wrapper.msg {
        ReceiveMsg::CreateAuctionNft {
            start_price,
            start_time,
            end_time,
            charity,
            instant_buy,
            reserve_price,
            private_sale,
        } => execute_create_auction(
            ledger,
            env,
            info,
            wrapper.sender,
            wrapper.token_id,
            start_price,
            start_time,
            end_time,
            charity,
            instant_buy,
            reserve_price,
            private_sale,
        ),
        _ => Err(ContractError::Unauthorized {  }),
    }
}

/// What the notice of a token's contract does: where the caller is the
/// reward token, it registers the one who made the deposit for a private
/// sale; it is rejected where the caller is anyone else, and where it asks
/// for anything else.
pub open spec fn receive_token(
    ledger: LedgerView,
    env: Env,
    info: MessageInfo,
    wrapper: TokenReceiveMsg,
) -> Result<Outcome, ContractError> {
    if info.sender@ != ledger.state.cw20_address {
        Err(ContractError::Unauthorized {  })
    } else {
        match wrapper.msg {
            ReceiveMsg::RegisterPrivateSale { auction_id } => register(
                ledger,
                env.time,
                wrapper.sender@,
                wrapper.amount,
                auction_id,
            ),
            _ => Err(ContractError::Unauthorized {  }),
        }
    }
}

/// Takes the notice of a token's contract, the caller, that a deposit was
/// handed to the marketplace.
pub fn execute_receive_cw20(
    ledger: &mut Ledger,
    env: &Env,
    info: &MessageInfo,
    wrapper: TokenReceiveMsg,
) -> (res: Result<Response, ContractError>)
    ensures
        holds(
            old(ledger)@,
            final(ledger)@,
            res,
            receive_token(old(ledger)@, *env, *info, wrapper),
        ),
{
    if !(info.sender == ledger.state.cw20_address) {
        return Err(ContractError::Unauthorized {  });
    }
    match wrapper.msg {
        ReceiveMsg::RegisterPrivateSale { auction_id } => execute_register_private_sale(
            ledger,
            env,
            wrapper.sender,
            wrapper.amount,
            auction_id,
        ),
        _ => Err(ContractError::Unauthorized {  }),
    }
}

/// What an operation does, by its kind.
pub open spec fn executed(
    ledger: LedgerView,
    querier: Querier,
    env: Env,
    info: MessageInfo,
    msg: ExecuteMsg,
) -> Result<Outcome, ContractError> {
    match msg {
        ExecuteMsg::InstantBuy { auction_id } => instant_buy(
            ledger,
            env.time,
            info.sender@,
            info.funds@,
            auction_id,
        ),
        ExecuteMsg::WithdrawNft { auction_id } => withdraw(
            ledger,
            querier,
            env.time,
            info.sender@,
            auction_id,
        ),
        ExecuteMsg::PlaceBid { auction_id } => place_bid(
            ledger,
            env.time,
            info.sender@,
            info.funds@,
            auction_id,
        ),
        ExecuteMsg::RetractBids { auction_id } => retract(
            ledger,
            querier.tax,
            env.time,
            info.sender@,
            auction_id,
        ),
        ExecuteMsg::UpdateRoyalty { fee, recipient } => update_royalty(
            ledger,
            info.sender@,
            fee,
            text_of(recipient),
        ),
        ExecuteMsg::ReceiveNft(wrapper) => receive_nft(ledger, env, info, wrapper),
        ExecuteMsg::Receive(wrapper) => receive_token(ledger, env, info, wrapper),
        ExecuteMsg::CancelAuction { auction_id } => cancel(
            ledger,
            querier.tax,
            env.time,
            info.sender@,
            info.funds@,
            auction_id,
        ),
    }
}

/// Carries out the operation `msg` for the caller.
pub fn execute(
    ledger: &mut Ledger,
    querier: &Querier,
    env: &Env,
    info: &MessageInfo,
    msg: ExecuteMsg,
) -> (res: Result<Response, ContractError>)
    ensures
        holds(
            old(ledger)@,
            final(ledger)@,
            res,
            executed(old(ledger)@, *querier, *env, *info, msg),
        ),
{
    match msg {
        ExecuteMsg::InstantBuy { auction_id } => execute_instant_buy(ledger, env, info, auction_id),
        ExecuteMsg::WithdrawNft { auction_id } => execute_withdraw_nft(
            ledger,
            querier,
            env,
            info,
            auction_id,
        ),
        ExecuteMsg::PlaceBid { auction_id } => execute_place_bid(ledger, env, info, auction_id),
        ExecuteMsg::RetractBids { auction_id } => execute_retract_bids(
            ledger,
            querier,
            env,
            info,
            auction_id,
        ),
        ExecuteMsg::UpdateRoyalty { fee, recipient } => execute_update_royalty(
            ledger,
            info,
            fee,
            recipient,
        ),
        ExecuteMsg::ReceiveNft(wrapper) => execute_receive_cw721(ledger, env, info, wrapper),
        ExecuteMsg::Receive(wrapper) => execute_receive_cw20(ledger, env, info, wrapper),
        ExecuteMsg::CancelAuction { auction_id } => execute_cancel_auction(
            ledger,
            querier,
            env,
            info,
            auction_id,
        ),
    }
}

/// The value of the first attribute under `key`, if there is one.
pub open spec fn attribute_value(attributes: Seq<Attribute>, key: Seq<char>) -> Option<Seq<char>>
    decreases attributes.len(),
{
    if attributes.len() == 0 {
        None
    } else if attributes[0].key@ == key {
        Some(attributes[0].value@)
    } else {
        attribute_value(attributes.drop_first(), key)
    }
}

/// The address that the events of a deployment report: the contract address
/// of the first event that reports a deployment, if that event names one.
pub open spec fn deployed_address(events: Seq<Event>) -> Option<Seq<char>>
    decreases events.len(),
{
    if events.len() == 0 {
        None
    } else if events[0].ty@ == "instantiate_contract"@ {
        attribute_value(events[0].attributes@, "contract_address"@)
    } else {
        deployed_address(events.drop_first())
    }
}

/// The value of the first attribute under `key`.
fn find_attribute(attributes: &Vec<Attribute>, key: &str) -> (r: Option<String>)
    ensures
        text_of(r) == attribute_value(attributes@, key@),
{
    let mut i: usize = 0;
    assert(attributes@.subrange(0, attributes.len() as int) =~= attributes@);
    while i < attributes.len()
        invariant
            i <= attributes.len(),
            attribute_value(attributes@, key@) == attribute_value(
                attributes@.subrange(i as int, attributes.len() as int),
                key@,
            ),
        decreases attributes.len() - i,
    {
        let ghost rest = attributes@.subrange(i as int, attributes.len() as int);
        if is_text(&attributes[i].key, key) {
            return Some(attributes[i].value.clone());
        }
        assert(rest.drop_first() =~= attributes@.subrange(i + 1, attributes.len() as int));
        i = i + 1;
    }
    None
}

/// The address that the events of a deployment report.
fn find_deployed_address(events: &Vec<Event>) -> (r: Option<String>)
    ensures
        text_of(r) == deployed_address(events@),
{
    let mut i: usize = 0;
    assert(events@.subrange(0, events.len() as int) =~= events@);
    while i < events.len()
        invariant
            i <= events.len(),
            deployed_address(events@) == deployed_address(
                events@.subrange(i as int, events.len() as int),
            ),
        decreases events.len() - i,
    {
        let ghost rest = events@.subrange(i as int, events.len() as int);
        if is_text(&events[i].ty, "instantiate_contract") {
            return find_attribute(&events[i].attributes, "contract_address");
        }
        assert(rest.drop_first() =~= events@.subrange(i + 1, events.len() as int));
        i = i + 1;
    }
    None
}

/// Whether the marketplace still waits for the address of the reward token:
/// its own address stands in the place of it.
pub open spec fn awaits_token(ledger: LedgerView, marketplace: Seq<char>) -> bool {
    ledger.state.cw20_address == marketplace
}

/// What the host's report on the deployment of the reward token does: where
/// the marketplace waits for it, the deployment succeeded and its events
/// name the address of the token, that address is recorded; else the report
/// is rejected.
pub open spec fn token_deployed(
    ledger: LedgerView,
    marketplace: Seq<char>,
    result: ContractResult,
) -> Result<Outcome, ContractError> {
    if !awaits_token(ledger, marketplace) {
        Err(ContractError::Unauthorized {  })
    } else {
        token_reported(ledger, result)
    }
}

/// What a report on the deployment of the reward token does to a marketplace
/// that waits for it.
pub open spec fn token_reported(ledger: LedgerView, result: ContractResult) -> Result<
    Outcome,
    ContractError,
> {
    match result {
        ContractResult::Success(events) => match deployed_address(events@) {
            Some(address) => Ok(
                Outcome {
                    ledger: LedgerView {
                        state: StateView { cw20_address: address, ..ledger.state },
                        ..ledger
                    },
                    response: ResponseView {
                        messages: Seq::empty(),
                        attributes: seq![
                            attr("cw20-address"@, address),
                            attr("action"@, "cw20-instantiate"@),
                        ],
                    },
                },
            ),
            None => Err(ContractError::Unauthorized {  }),
        },
        ContractResult::Failure(_) => Err(ContractError::Unauthorized {  }),
    }
}

/// Takes the host's report on the deployment of the reward token. The
/// address of the token is recorded once.
pub fn cw20_instance_reply(ledger: &mut Ledger, env: &Env, msg: ContractResult) -> (res: Result<
    Response,
    ContractError,
>)
    ensures
        holds(
            old(ledger)@,
            final(ledger)@,
            res,
            token_deployed(old(ledger)@, env.contract_address@, msg),
        ),
{
    if !(ledger.state.cw20_address == env.contract_address) {
        return Err(ContractError::Unauthorized {  });
    }
    match msg {
        ContractResult::Success(events) => match find_deployed_address(&events) {
            Some(address) => {
                let response = Response::new().add_attribute(
                    "cw20-address",
                    address.clone(),
                ).add_attribute("action", String::from_str("cw20-instantiate"));
                assert(response@.attributes =~= seq![
                    attr("cw20-address"@, address@),
                    attr("action"@, "cw20-instantiate"@),
                ]);
                ledger.state.cw20_address = address;
                Ok(response)
            },
            None => Err(ContractError::Unauthorized {  }),
        },
        ContractResult::Failure(_) => Err(ContractError::Unauthorized {  }),
    }
}

/// What a report of the host does: under the number of the deployment of the
/// reward token it is that report; under any other number it is rejected.
pub open spec fn replied(ledger: LedgerView, marketplace: Seq<char>, msg: Reply) -> Result<
    Outcome,
    ContractError,
> {
    if msg.id == CW20_INSTANTIATE_REPLY_ID {
        token_deployed(ledger, marketplace, msg.result)
    } else {
        Err(ContractError::Unauthorized {  })
    }
}

/// Takes a report of the host on an instruction that asked for one.
pub fn reply(ledger: &mut Ledger, env: &Env, msg: Reply) -> (res: Result<Response, ContractError>)
    ensures
        holds(
            old(ledger)@,
            final(ledger)@,
            res,
            replied(old(ledger)@, env.contract_address@, msg),
        ),
{
    if msg.id == CW20_INSTANTIATE_REPLY_ID {
        cw20_instance_reply(ledger, env, msg.result)
    } else {
        Err(ContractError::Unauthorized {  })
    }
}

/// Migrates the marketplace: nothing changes, and nothing is asked of the
/// host.
pub fn migrate(ledger: &mut Ledger, msg: MigrateMsg) -> (r: Response)
    ensures
        final(ledger)@ == old(ledger)@,
        r@ == (ResponseView { messages: Seq::empty(), attributes: Seq::empty() }),
{
    Response::new()
}

} // verus!
