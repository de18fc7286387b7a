//! The minter's side of its conversation with the host: what the host tells it
//! with each call, and what it hands back for the host to carry out.
//!
//! Nothing here acts. A [`Response`] lists the messages that the host is to
//! send; a [`Reply`] is what the host reports once one of them has been
//! carried out.

use crate::msg::{Metadata, MetadataView};
use vstd::prelude::*;

verus! {

/// Where and when a call runs.
#[derive(Clone, Debug, PartialEq, Eq)]
pub struct Env {
    /// The height of the current block.
    pub height: u64,
    /// The time of the current block, in nanoseconds since the epoch.
    pub time: u64,
    /// The minter's own address.
    pub contract_address: String,
}

/// Who calls.
#[derive(Clone, Debug, PartialEq, Eq)]
pub struct MessageInfo {
    /// The address of the caller.
    pub sender: String,
}

/// An amount of one currency.
#[derive(Clone, Debug, PartialEq, Eq)]
pub struct Coin {
    pub denom: String,
    pub amount: u128,
}

/// What a [`Coin`] holds.
pub struct CoinView {
    pub denom: Seq<char>,
    pub amount: u128,
}

impl DeepView for Coin {
    type V = CoinView;

    open spec fn deep_view(&self) -> CoinView {
        CoinView { denom: self.denom@, amount: self.amount }
    }
}

/// A key and a value that a response shows to whoever observes the call.
#[derive(Clone, Debug, PartialEq, Eq)]
pub struct Attribute {
    pub key: String,
    pub value: String,
}

/// What an [`Attribute`] holds.
pub struct AttributeView {
    pub key: Seq<char>,
    pub value: Seq<char>,
}

impl DeepView for Attribute {
    type V = AttributeView;

    open spec fn deep_view(&self) -> AttributeView {
        AttributeView { key: self.key@, value: self.value@ }
    }
}

/// What a new token contract is told: the collection's name and symbol, and
/// who alone may mint.
#[derive(Clone, Debug, PartialEq, Eq)]
pub struct Cw721InstantiateMsg {
    pub name: String,
    pub symbol: String,
    pub minter: String,
}

/// What a [`Cw721InstantiateMsg`] holds.
pub struct Cw721InstantiateMsgView {
    pub name: Seq<char>,
    pub symbol: Seq<char>,
    pub minter: Seq<char>,
}

impl DeepView for Cw721InstantiateMsg {
    type V = Cw721InstantiateMsgView;

    open spec fn deep_view(&self) -> Cw721InstantiateMsgView {
        Cw721InstantiateMsgView { name: self.name@, symbol: self.symbol@, minter: self.minter@ }
    }
}

/// The order to mint one token.
#[derive(Clone, Debug, PartialEq, Eq)]
pub struct MintMsg {
    /// The new token's identifier, in decimal.
    pub token_id: String,
    /// Who is to own the token.
    pub owner: String,
    /// Where the token's metadata document is found.
    pub token_uri: Option<String>,
    /// Metadata that is stored with the token itself.
    pub extension: Option<Metadata>,
}

/// What a [`MintMsg`] holds.
pub struct MintMsgView {
    pub token_id: Seq<char>,
    pub owner: Seq<char>,
    pub token_uri: Option<Seq<char>>,
    pub extension: Option<MetadataView>,
}

impl DeepView for MintMsg {
    type V = MintMsgView;

    open spec fn deep_view(&self) -> MintMsgView {
        MintMsgView {
            token_id: self.token_id@,
            owner: self.owner@,
            token_uri: self.token_uri.deep_view(),
            extension: self.extension.deep_view(),
        }
    }
}

/// A message for another contract.
#[allow(inconsistent_fields)]
#[derive(Clone, Debug, PartialEq, Eq)]
pub enum WasmMsg {
    /// Create a token contract from stored code.
    Instantiate { code_id: u64, msg: Cw721InstantiateMsg, funds: Vec<Coin>, label: String },
    /// Have the token contract at `contract_addr` mint a token.
    Execute { contract_addr: String, msg: MintMsg, funds: Vec<Coin> },
}

/// What a [`WasmMsg`] holds.
#[allow(inconsistent_fields)]
pub enum WasmMsgView {
    Instantiate { code_id: u64, msg: Cw721InstantiateMsgView, funds: Seq<CoinView>, label: Seq<char> },
    Execute { contract_addr: Seq<char>, msg: MintMsgView, funds: Seq<CoinView> },
}

impl DeepView for WasmMsg {
    type V = WasmMsgView;

    open spec fn deep_view(&self) -> WasmMsgView {
        match self {
            WasmMsg::Instantiate { code_id, msg, funds, label } => WasmMsgView::Instantiate {
                code_id: *code_id,
                msg: msg.deep_view(),
                funds: funds.deep_view(),
                label: label@,
            },
            WasmMsg::Execute { contract_addr, msg, funds } => WasmMsgView::Execute {
                contract_addr: contract_addr@,
                msg: msg.deep_view(),
                funds: funds.deep_view(),
            },
        }
    }
}

/// On which outcome of a message the sender wants to hear back.
#[derive(Clone, Copy, Debug, PartialEq, Eq)]
pub enum ReplyOn {
    Always,
    Error,
    Success,
    Never,
}

/// A message together with the identifier under which its outcome comes back.
#[derive(Clone, Debug, PartialEq, Eq)]
pub struct SubMsg {
    pub id: u64,
    pub msg: WasmMsg,
    pub reply_on: ReplyOn,
}

/// What a [`SubMsg`] holds.
pub struct SubMsgView {
    pub id: u64,
    pub msg: WasmMsgView,
    pub reply_on: ReplyOn,
}

impl DeepView for SubMsg {
    type V = SubMsgView;

    open spec fn deep_view(&self) -> SubMsgView {
        SubMsgView { id: self.id, msg: self.msg.deep_view(), reply_on: self.reply_on }
    }
}

impl SubMsg {
    /// A message whose outcome is reported under `id` if it succeeds. If it
    /// fails, the whole call fails with it.
    pub fn reply_on_success(msg: WasmMsg, id: u64) -> (sub: SubMsg)
        ensures
            sub.deep_view() == (SubMsgView {
                id,
                msg: msg.deep_view(),
                reply_on: ReplyOn::Success,
            }),
    {
        SubMsg { id, msg, reply_on: ReplyOn::Success }
    }
}

/// What a successful call hands back: messages for the host to send, in
/// order, and attributes for observers.
#[derive(Clone, Debug, PartialEq, Eq)]
pub struct Response {
    pub messages: Vec<SubMsg>,
    pub attributes: Vec<Attribute>,
}

/// What a [`Response`] holds.
pub struct ResponseView {
    pub messages: Seq<SubMsgView>,
    pub attributes: Seq<AttributeView>,
}

impl ResponseView {
    /// The response that says and asks nothing.
    pub open spec fn empty() -> ResponseView {
        ResponseView { messages: Seq::empty(), attributes: Seq::empty() }
    }

    /// This response with one more attribute at the end.
    pub open spec fn add_attribute(self, key: Seq<char>, value: Seq<char>) -> ResponseView {
        ResponseView { attributes: self.attributes.push(AttributeView { key, value }), ..self }
    }

    /// This response with one more message at the end.
    pub open spec fn add_submessage(self, sub: SubMsgView) -> ResponseView {
        ResponseView { messages: self.messages.push(sub), ..self }
    }
}

impl DeepView for Response {
    type V = ResponseView;

    open spec fn deep_view(&self) -> ResponseView {
        ResponseView {
            messages: self.messages.deep_view(),
            attributes: self.attributes.deep_view(),
        }
    }
}

impl Response {
    /// The response that says and asks nothing.
    pub fn new() -> (response: Response)
        ensures
            response.deep_view() == ResponseView::empty(),
    {
        let response = Response { messages: Vec::new(), attributes: Vec::new() };
        assert(response.messages.deep_view() =~= Seq::empty());
        assert(response.attributes.deep_view() =~= Seq::empty());
        response
    }

    /// Appends an attribute.
    pub fn add_attribute(self, key: String, value: String) -> (response: Response)
        ensures
            response.deep_view() == self.deep_view().add_attribute(key@, value@),
    {
        let mut response = self;
        response.attributes.push(Attribute { key, value });
        assert(response.attributes.deep_view() =~= self.attributes.deep_view().push(
            AttributeView { key: key@, value: value@ },
        ));
        response
    }

    /// Appends a message.
    pub fn add_submessage(self, sub: SubMsg) -> (response: Response)
        ensures
            response.deep_view() == self.deep_view().add_submessage(sub.deep_view()),
    {
        let mut response = self;
        response.messages.push(sub);
        assert(response.messages.deep_view() =~= self.messages.deep_view().push(sub.deep_view()));
        response
    }
}

impl Default for Response {
    fn default() -> (response: Response)
        ensures
            response.deep_view() == ResponseView::empty(),
    {
        Response::new()
    }
}

/// How a message that the minter had sent came out.
#[derive(Clone, Debug, PartialEq, Eq)]
pub enum SubMsgResult {
    /// It was carried out; `data` is what the receiver returned, if anything.
    Success { data: Option<Vec<u8>> },
    /// It failed, for the reason given.
    Failure { error: String },
}

/// What a [`SubMsgResult`] holds.
pub enum SubMsgResultView {
    Success { data: Option<Seq<u8>> },
    Failure { error: Seq<char> },
}

impl DeepView for SubMsgResult {
    type V = SubMsgResultView;

    open spec fn deep_view(&self) -> SubMsgResultView {
        match self {
            SubMsgResult::Success { data } => SubMsgResultView::Success {
                data: match data {
                    Some(bytes) => Some(bytes@),
                    None => None,
                },
            },
            SubMsgResult::Failure { error } => SubMsgResultView::Failure { error: error@ },
        }
    }
}

/// The host's report on a message that the minter had sent.
#[derive(Clone, Debug, PartialEq, Eq)]
pub struct Reply {
    /// The identifier that the message was sent under.
    pub id: u64,
    pub result: SubMsgResult,
}

/// What a [`Reply`] holds.
pub struct ReplyView {
    pub id: u64,
    pub result: SubMsgResultView,
}

impl DeepView for Reply {
    type V = ReplyView;

    open spec fn deep_view(&self) -> ReplyView {
        ReplyView { id: self.id, result: self.result.deep_view() }
    }
}

/// The answer to a query.
#[derive(Clone, Debug, PartialEq, Eq)]
pub enum QueryResponse {
    /// The address of the child token contract, empty while there is none.
    Token(String),
    /// The identifiers that can still be drawn.
    AvailableIds(Vec<u32>),
}

/// What a [`QueryResponse`] holds.
pub enum QueryResponseView {
    Token(Seq<char>),
    AvailableIds(Seq<u32>),
}

impl DeepView for QueryResponse {
    type V = QueryResponseView;

    open spec fn deep_view(&self) -> QueryResponseView {
        match self {
            QueryResponse::Token(address) => QueryResponseView::Token(address@),
            QueryResponse::AvailableIds(ids) => QueryResponseView::AvailableIds(ids@),
        }
    }
}

} // verus!
