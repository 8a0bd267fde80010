use vstd::prelude::*;

verus! {

/// An order addressed to a fungible-token ledger.
#[derive(Debug, PartialEq, Eq)]
pub enum TokenOrder {
    /// Move `amount` from the sender of the order to `recipient`.
    Transfer { recipient: String, amount: u128 },
    /// Move `amount` from `owner` to `recipient`, on the owner's allowance.
    TransferFrom { owner: String, recipient: String, amount: u128 },
}

/// What a `TokenOrder` holds, as plain values.
pub enum TokenOrderView {
    Transfer { recipient: Seq<char>, amount: u128 },
    TransferFrom { owner: Seq<char>, recipient: Seq<char>, amount: u128 },
}

impl View for TokenOrder {
    type V = TokenOrderView;

    open spec fn view(&self) -> TokenOrderView {
        match self {
            TokenOrder::Transfer { recipient, amount } => TokenOrderView::Transfer {
                recipient: recipient@,
                amount: *amount,
            },
            TokenOrder::TransferFrom { owner, recipient, amount } => TokenOrderView::TransferFrom {
                owner: owner@,
                recipient: recipient@,
                amount: *amount,
            },
        }
    }
}

/// An order together with the token contract that is to carry it out and
/// the bytes in which the order is sent to it.
#[derive(Debug, PartialEq, Eq)]
pub struct TransferInstruction {
    pub contract_addr: String,
    pub order: TokenOrder,
    pub msg: Vec<u8>,
}

/// What a `TransferInstruction` holds, as plain values.
pub struct TransferInstructionView {
    pub contract_addr: Seq<char>,
    pub order: TokenOrderView,
    pub msg: Seq<u8>,
}

impl View for TransferInstruction {
    type V = TransferInstructionView;

    open spec fn view(&self) -> TransferInstructionView {
        TransferInstructionView { contract_addr: self.contract_addr@, order: self.order@, msg: self.msg@ }
    }
}

/// One operand of the record that a successful call leaves behind.
#[derive(Debug, PartialEq, Eq)]
pub struct Attribute {
    pub key: String,
    pub value: String,
}

/// What an `Attribute` holds, as plain values.
pub struct AttributeView {
    pub key: Seq<char>,
    pub value: Seq<char>,
}

impl View for Attribute {
    type V = AttributeView;

    open spec fn view(&self) -> AttributeView {
        AttributeView { key: self.key@, value: self.value@ }
    }
}

/// The attribute `key` = `value`, as plain values.
pub open spec fn attr_view(key: Seq<char>, value: Seq<char>) -> AttributeView {
    AttributeView { key, value }
}

/// The attribute `key` = `value`.
pub fn attr(key: &str, value: String) -> (r: Attribute)
    ensures
        r@ == attr_view(key@, value@),
{
    Attribute { key: key.to_owned(), value }
}

/// The views of a sequence of attributes, in the same order.
pub open spec fn attributes_view(attributes: Seq<Attribute>) -> Seq<AttributeView> {
    attributes.map_values(|a: Attribute| a@)
}

/// The views of a sequence of instructions, in the same order.
pub open spec fn messages_view(messages: Seq<TransferInstruction>) -> Seq<TransferInstructionView> {
    messages.map_values(|m: TransferInstruction| m@)
}

/// What a successful call hands back: the instructions to dispatch after
/// it, and the operands that describe it.
#[derive(Debug, PartialEq, Eq)]
pub struct Response {
    pub messages: Vec<TransferInstruction>,
    pub attributes: Vec<Attribute>,
}

/// What a `Response` holds, as plain values.
pub struct ResponseView {
    pub messages: Seq<TransferInstructionView>,
    pub attributes: Seq<AttributeView>,
}

impl View for Response {
    type V = ResponseView;

    open spec fn view(&self) -> ResponseView {
        ResponseView {
            messages: messages_view(self.messages@),
            attributes: attributes_view(self.attributes@),
        }
    }
}

impl Response {
    /// A response with no instruction and no attribute.
    pub fn new() -> (r: Response)
        ensures
            r@ == (ResponseView { messages: Seq::empty(), attributes: Seq::empty() }),
    {
        let r = Response { messages: Vec::new(), attributes: Vec::new() };
        assert(r@.messages =~= Seq::empty());
        assert(r@.attributes =~= Seq::empty());
        r
    }

    /// This response with `message` after its instructions.
    pub fn add_message(self, message: TransferInstruction) -> (r: Response)
        ensures
            r@ == (ResponseView { messages: self@.messages.push(message@), ..self@ }),
    {
        let mut r = self;
        r.messages.push(message);
        assert(r@.messages =~= self@.messages.push(message@));
        assert(r@.attributes =~= self@.attributes);
        r
    }

    /// This response with `attributes`, in their order, after its attributes.
    pub fn add_attributes(self, attributes: Vec<Attribute>) -> (r: Response)
        ensures
            r@ == (ResponseView { attributes: self@.attributes + attributes_view(attributes@), ..self@ }),
    {
        let mut r = self;
        let mut more = attributes;
        r.attributes.append(&mut more);
        assert(r@.attributes =~= self@.attributes + attributes_view(attributes@));
        assert(r@.messages =~= self@.messages);
        r
    }

    /// This response with `attribute` after its attributes.
    pub fn add_attribute(self, attribute: Attribute) -> (r: Response)
        ensures
            r@ == (ResponseView { attributes: self@.attributes.push(attribute@), ..self@ }),
    {
        let mut r = self;
        r.attributes.push(attribute);
        assert(r@.attributes =~= self@.attributes.push(attribute@));
        assert(r@.messages =~= self@.messages);
        r
    }
}

} // verus!
