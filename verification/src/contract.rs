//! The operations of the minter. Each takes the state and a message, changes
//! the state and answers with what the host is to do next; none of them
//! reaches outside.
//!
//! Two of them start something that ends later. Setting the minter up asks the
//! host to create the child token contract, and a mint asks that contract to
//! issue the token. The host reports each outcome to [`reply`], under the
//! identifier that the request was sent with.

use crate::draw::{random_chance, DrawContext};
use crate::error::ContractError;
use crate::host::{
    Coin, Cw721InstantiateMsg, Cw721InstantiateMsgView, Env, MessageInfo, MintMsg, MintMsgView,
    QueryResponse, QueryResponseView, Reply, ReplyOn, Response, ResponseView, SubMsg, SubMsgResult,
    SubMsgResultView, SubMsgView, WasmMsg, WasmMsgView,
};
use crate::msg::{ExecuteMsg, InstantiateMsg, Metadata, MetadataView, MigrateMsg, QueryMsg};
use crate::pool::{lemma_initial_pool, new_pool, POOL_SIZE};
use crate::state::{State, StateView};
use crate::text::{decimal_string, decimal_text};
use cw_utils::ParseReplyError;
use vstd::prelude::*;
use vstd::string::*;

verus! {

/// The identifier under which the creation of the child contract is reported.
pub const INSTANTIATE_REPLY: u64 = 1;

/// The identifier under which a mint is reported.
pub const MINT_REPLY: u64 = 2;

/// Where the metadata document of token `token_id` is found.
pub open spec fn token_uri_text(token_id: u32) -> Seq<char> {
    "https://bafybeigc7xxqksy5vpzevkwxvrlgcri3q4izc4s5wtcqzpienee3ljopi4.ipfs.w3s.link/"@
        + decimal_text(token_id as nat) + ".json"@
}

/// Where the image of token `token_id` is found.
pub open spec fn image_uri_text(token_id: u32) -> Seq<char> {
    "https://bafybeiezubaoizfmpwsgv3wnlxzhczjod6ehybytvpu7ftj3ji3cinudjq.ipfs.w3s.link/"@
        + decimal_text(token_id as nat) + ".png"@
}

/// The request to create the child contract: the collection's name and
/// symbol, and `minter` as the only one who may mint.
pub open spec fn instantiate_message(
    code_id: u64,
    name: Seq<char>,
    symbol: Seq<char>,
    minter: Seq<char>,
) -> SubMsgView {
    SubMsgView {
        id: INSTANTIATE_REPLY,
        msg: WasmMsgView::Instantiate {
            code_id,
            msg: Cw721InstantiateMsgView { name, symbol, minter },
            funds: Seq::empty(),
            label: "Nft Contract"@,
        },
        reply_on: ReplyOn::Success,
    }
}

/// What setting the minter up answers.
pub open spec fn instantiate_response(
    code_id: u64,
    name: Seq<char>,
    symbol: Seq<char>,
    minter: Seq<char>,
) -> ResponseView {
    ResponseView::empty().add_attribute("action"@, "instantiate"@).add_submessage(
        instantiate_message(code_id, name, symbol, minter),
    )
}

/// The request to the contract at `token` to mint token `token_id` to `owner`.
pub open spec fn mint_message(token: Seq<char>, owner: Seq<char>, token_id: u32) -> SubMsgView {
    SubMsgView {
        id: MINT_REPLY,
        msg: WasmMsgView::Execute {
            contract_addr: token,
            msg: MintMsgView {
                token_id: decimal_text(token_id as nat),
                owner,
                token_uri: Some(token_uri_text(token_id)),
                extension: Some(MetadataView::with_image(image_uri_text(token_id))),
            },
            funds: Seq::empty(),
        },
        reply_on: ReplyOn::Success,
    }
}

/// What a mint answers.
pub open spec fn mint_response(token: Seq<char>, owner: Seq<char>, token_id: u32) -> ResponseView {
    ResponseView::empty().add_attribute("action"@, "transfer"@).add_attribute(
        "token_id"@,
        decimal_text(token_id as nat),
    ).add_submessage(mint_message(token, owner, token_id))
}

/// Sets the minter up: fills the pool, forgets any child contract, and asks
/// the host to create one under the given name and symbol, with the minter
/// itself as the only one who may mint. The child's address arrives later, in
/// a [`reply`].
pub fn instantiate(state: &mut State, env: Env, _info: MessageInfo, msg: InstantiateMsg) -> (result:
    Result<Response, ContractError>)
    ensures
        final(state)@ == StateView::initial(),
        final(state).wf(),
        result is Ok,
        result->Ok_0.deep_view() == instantiate_response(
            msg.cw721_code_id,
            msg.name@,
            msg.symbol@,
            env.contract_address@,
        ),
{
    state.available_ids = new_pool();

    let cw721_init_msg = Cw721InstantiateMsg {
        name: msg.name,
        symbol: msg.symbol,
        minter: env.contract_address,
    };
    let funds: Vec<Coin> = Vec::new();
    assert(funds.deep_view() =~= Seq::empty());
    let submsg = SubMsg::reply_on_success(
        WasmMsg::Instantiate {
            code_id: msg.cw721_code_id,
            msg: cw721_init_msg,
            funds,
            label: "Nft Contract".to_owned(),
        },
        INSTANTIATE_REPLY,
    );

    state.token = String::new();
    state.token_count = POOL_SIZE as u64;
    proof {
        lemma_initial_pool();
    }

    Ok(Response::new().add_attribute("action".to_owned(), "instantiate".to_owned()).add_submessage(submsg))
}

/// Writes where the metadata document of token `token_id` is found.
pub fn token_uri(token_id: u32) -> (uri: String)
    ensures
        uri@ == token_uri_text(token_id),
{
    let mut uri =
        "https://bafybeigc7xxqksy5vpzevkwxvrlgcri3q4izc4s5wtcqzpienee3ljopi4.ipfs.w3s.link/".to_owned();
    uri.append(decimal_string(token_id as u64).as_str());
    uri.append(".json");
    uri
}

/// Writes where the image of token `token_id` is found.
pub fn image_uri(token_id: u32) -> (uri: String)
    ensures
        uri@ == image_uri_text(token_id),
{
    let mut uri =
        "https://bafybeiezubaoizfmpwsgv3wnlxzhczjod6ehybytvpu7ftj3ji3cinudjq.ipfs.w3s.link/".to_owned();
    uri.append(decimal_string(token_id as u64).as_str());
    uri.append(".png");
    uri
}

/// Mints the identifier at place `index` of the pool to the sender: takes it
/// out of the pool, counts one less, and asks the child contract to issue the
/// token.
pub fn mint_token(state: &mut State, info: &MessageInfo, index: u64) -> (response: Response)
    requires
        old(state).wf(),
        index < old(state).token_count,
    ensures
        final(state)@ == old(state)@.draw(index as int),
        final(state).wf(),
        response.deep_view() == mint_response(
            old(state)@.token,
            info.sender@,
            old(state)@.available_ids[index as int],
        ),
{
    let token_addr = state.token.clone();
    let token_id = state.draw(index);
    let id_text = decimal_string(token_id as u64);
    let token_uri = token_uri(token_id);
    let image_uri = image_uri(token_id);

    let funds: Vec<Coin> = Vec::new();
    assert(funds.deep_view() =~= Seq::empty());
    let extension = Metadata { image: Some(image_uri), ..Metadata::default() };
    assert(extension.deep_view() == MetadataView::with_image(image_uri_text(token_id)));
    let submsg_mint = SubMsg::reply_on_success(
        WasmMsg::Execute {
            contract_addr: token_addr,
            msg: MintMsg {
                token_id: id_text.clone(),
                owner: info.sender.clone(),
                token_uri: Some(token_uri),
                extension: Some(extension),
            },
            funds,
        },
        MINT_REPLY,
    );
    assert(submsg_mint.deep_view() == mint_message(old(state)@.token, info.sender@, token_id));

    Response::new().add_attribute("action".to_owned(), "transfer".to_owned()).add_attribute(
        "token_id".to_owned(),
        id_text,
    ).add_submessage(submsg_mint)
}

/// Carries out a request. The only one is to mint: it draws an identifier
/// from the pool, at the place that [`crate::draw::draw_index`] derives from
/// the block and the sender, and mints it to the sender.
///
/// With an empty pool it fails and changes nothing.
pub fn execute(state: &mut State, env: Env, info: MessageInfo, msg: ExecuteMsg) -> (result: Result<
    Response,
    ContractError,
>)
    requires
        old(state).wf(),
    ensures
        final(state).wf(),
        old(state).token_count == 0 ==> result is Err && result->Err_0 is PoolExhausted,
        result is Err ==> *final(state) == *old(state),
        old(state).token_count > 0 ==> result is Ok,
        old(state).token_count > 0 ==> final(state)@ == old(state)@.mint(
            DrawContext::of(env, info),
        ),
        old(state).token_count > 0 ==> result->Ok_0.deep_view() == mint_response(
            old(state)@.token,
            info.sender@,
            old(state)@.minted(DrawContext::of(env, info)),
        ),
{
    match msg {
        ExecuteMsg::MintToken {  } => {
            if state.token_count == 0 {
                return Err(ContractError::PoolExhausted {  });
            }
            let random_index = random_chance(&env, &info, state.token_count);
            Ok(mint_token(state, &info, random_index))
        },
    }
}

/// What `cw_utils::parse_instantiate_response_data` finds in `data`: the
/// address of the contract that was created, or nothing where `data` is not
/// the response to a creation.
pub uninterp spec fn instantiate_response_address(data: Seq<u8>) -> Option<Seq<char>>;

/// The error of `cw_utils` on a reply that it cannot read.
#[verifier::external_type_specification]
#[verifier::external_body]
pub struct ExParseReplyError(ParseReplyError);

/// Calls `cw_utils::parse_instantiate_response_data` and keeps the address.
/// Trusted: whether it succeeds, and the address it then gives, depend on
/// `data` alone.
#[verifier::external_body]
fn parse_instantiate_response_data(data: &[u8]) -> (parsed: Result<String, ParseReplyError>)
    ensures
        parsed is Ok ==> instantiate_response_address(data@) == Some(parsed->Ok_0@),
        parsed is Err ==> instantiate_response_address(data@) is None,
{
    cw_utils::parse_instantiate_response_data(data).map(|response| response.contract_address)
}

/// The address that the outcome of a creation names. There is none where the
/// creation failed, where it returned no data, or where the data cannot be read.
pub open spec fn reply_address(result: SubMsgResultView) -> Option<Seq<char>> {
    match result {
        SubMsgResultView::Success { data: Some(data) } => instantiate_response_address(data),
        _ => None,
    }
}

/// Reads the address of the new contract out of the outcome of its creation.
pub fn parse_reply_instantiate_data(result: &SubMsgResult) -> (parsed: Result<String, ContractError>)
    ensures
        parsed is Ok ==> reply_address(result.deep_view()) == Some(parsed->Ok_0@),
        parsed is Err ==> reply_address(result.deep_view()) is None
            && parsed->Err_0 is InvalidInstantiateReply,
{
    match result {
        SubMsgResult::Success { data: Some(data) } => {
            match parse_instantiate_response_data(data.as_slice()) {
                Ok(address) => Ok(address),
                Err(_) => Err(ContractError::InvalidInstantiateReply {  }),
            }
        },
        _ => Err(ContractError::InvalidInstantiateReply {  }),
    }
}

/// Records `address` as the address of the child contract, whatever was
/// recorded before.
pub fn set_token(state: &mut State, address: String) -> (response: Response)
    ensures
        final(state)@ == old(state)@.with_token(address@),
        response.deep_view() == ResponseView::empty(),
{
    state.token = address;
    Response::default()
}

/// Takes the host's report on a request that the minter had sent.
///
/// The report on the creation of the child contract names the child's
/// address, which is recorded; a later such report replaces what an earlier
/// one recorded. The report on a mint is acknowledged and changes nothing.
/// Any other report is refused and changes nothing.
pub fn reply(state: &mut State, _env: Env, msg: Reply) -> (result: Result<Response, ContractError>)
    ensures
        old(state).wf() ==> final(state).wf(),
        msg.id == INSTANTIATE_REPLY && reply_address(msg.result.deep_view()) is Some
            ==> result is Ok && result->Ok_0.deep_view() == ResponseView::empty(),
        msg.id == INSTANTIATE_REPLY && reply_address(msg.result.deep_view()) is Some ==> final(state)@
            == old(state)@.with_token(reply_address(msg.result.deep_view())->Some_0),
        msg.id == INSTANTIATE_REPLY && reply_address(msg.result.deep_view()) is None
            ==> result is Err && result->Err_0 is InvalidInstantiateReply,
        msg.id == MINT_REPLY ==> result is Ok && result->Ok_0.deep_view()
            == ResponseView::empty().add_attribute("Operation"@, "mint"@),
        msg.id != INSTANTIATE_REPLY && msg.id != MINT_REPLY ==> result is Err
            && result->Err_0 is UnrecognizedReply,
        result is Err || msg.id != INSTANTIATE_REPLY ==> *final(state) == *old(state),
{
    if msg.id == INSTANTIATE_REPLY {
        match parse_reply_instantiate_data(&msg.result) {
            Ok(address) => Ok(set_token(state, address)),
            Err(error) => Err(error),
        }
    } else if msg.id == MINT_REPLY {
        Ok(Response::new().add_attribute("Operation".to_owned(), "mint".to_owned()))
    } else {
        Err(ContractError::UnrecognizedReply {  })
    }
}

/// Answers a question about the state.
pub fn query(state: &State, _env: Env, msg: QueryMsg) -> (response: QueryResponse)
    ensures
        msg is Token ==> response.deep_view() == QueryResponseView::Token(state@.token),
        msg is AvailableIds ==> response.deep_view() == QueryResponseView::AvailableIds(
            state@.available_ids,
        ),
{
    match msg {
        QueryMsg::Token {  } => QueryResponse::Token(state.token.clone()),
        QueryMsg::AvailableIds {  } => QueryResponse::AvailableIds(state.available_ids.clone()),
    }
}

/// Moves the minter to new code. There is nothing to carry over: it is not
/// given the state, and asks nothing of the host.
pub fn migrate(_env: Env, _msg: MigrateMsg) -> (result: Result<Response, ContractError>)
    ensures
        result is Ok,
        result->Ok_0.deep_view() == ResponseView::empty(),
{
    Ok(Response::new())
}

} // verus!
