//! Funds, payment instructions and the reply to a command.

use vstd::prelude::*;

verus! {

/// An amount of one currency.
#[derive(Debug, PartialEq)]
pub struct Coin {
    pub denom: String,
    pub amount: u128,
}

/// What a [`Coin`] stands for.
pub struct CoinView {
    pub denom: Seq<char>,
    pub amount: u128,
}

impl View for Coin {
    type V = CoinView;

    open spec fn view(&self) -> CoinView {
        CoinView { denom: self.denom@, amount: self.amount }
    }
}

impl Clone for Coin {
    fn clone(&self) -> (r: Self)
        ensures
            r@ == self@,
    {
        Coin { denom: self.denom.clone(), amount: self.amount }
    }
}

/// The views of a list of coins, in order.
pub open spec fn coin_views(coins: Seq<Coin>) -> Seq<CoinView> {
    Seq::new(coins.len(), |i: int| coins[i]@)
}

/// An instruction to the ledger that moves the funds of a request.
#[derive(Debug, PartialEq)]
pub enum BankMsg {
    /// Pay `amount` to `to_address`.
    Send { to_address: String, amount: Vec<Coin> },
    /// Destroy `amount`.
    Burn { amount: Vec<Coin> },
}

/// What a [`BankMsg`] stands for.
pub enum BankMsgView {
    Send { to_address: Seq<char>, amount: Seq<CoinView> },
    Burn { amount: Seq<CoinView> },
}

impl View for BankMsg {
    type V = BankMsgView;

    open spec fn view(&self) -> BankMsgView {
        match self {
            BankMsg::Send { to_address, amount } => BankMsgView::Send {
                to_address: to_address@,
                amount: coin_views(amount@),
            },
            BankMsg::Burn { amount } => BankMsgView::Burn { amount: coin_views(amount@) },
        }
    }
}

/// The views of a list of instructions, in order.
pub open spec fn bank_msg_views(msgs: Seq<BankMsg>) -> Seq<BankMsgView> {
    Seq::new(msgs.len(), |i: int| msgs[i]@)
}

/// The character of a decimal digit.
pub open spec fn digit_char(digit: nat) -> char {
    if digit == 0 {
        '0'
    } else if digit == 1 {
        '1'
    } else if digit == 2 {
        '2'
    } else if digit == 3 {
        '3'
    } else if digit == 4 {
        '4'
    } else if digit == 5 {
        '5'
    } else if digit == 6 {
        '6'
    } else if digit == 7 {
        '7'
    } else if digit == 8 {
        '8'
    } else {
        '9'
    }
}

/// A number in decimal digits, without leading zeros.
pub open spec fn decimal(n: nat) -> Seq<char>
    decreases n,
{
    if n < 10 {
        seq![digit_char(n)]
    } else {
        decimal(n / 10).push(digit_char(n % 10))
    }
}

/// The text of one decimal digit.
fn digit_text(digit: u128) -> (text: &'static str)
    requires
        digit < 10,
    ensures
        text@ == seq![digit_char(digit as nat)],
{
    proof {
        reveal_strlit("0");
        reveal_strlit("1");
        reveal_strlit("2");
        reveal_strlit("3");
        reveal_strlit("4");
        reveal_strlit("5");
        reveal_strlit("6");
        reveal_strlit("7");
        reveal_strlit("8");
        reveal_strlit("9");
    }
    let text = if digit == 0 {
        "0"
    } else if digit == 1 {
        "1"
    } else if digit == 2 {
        "2"
    } else if digit == 3 {
        "3"
    } else if digit == 4 {
        "4"
    } else if digit == 5 {
        "5"
    } else if digit == 6 {
        "6"
    } else if digit == 7 {
        "7"
    } else if digit == 8 {
        "8"
    } else {
        "9"
    };
    assert(text@ =~= seq![digit_char(digit as nat)]);
    text
}

/// An amount as text: its decimal digits.
pub fn amount_text(amount: u128) -> (text: String)
    ensures
        text@ == decimal(amount as nat),
{
    let mut text = digit_text(amount % 10).to_owned();
    let mut rest = amount / 10;
    while rest > 0
        invariant
            rest > 0 ==> decimal(amount as nat) == decimal(rest as nat) + text@,
            rest == 0 ==> decimal(amount as nat) == text@,
        decreases rest,
    {
        let ghost before = text@;
        text = digit_text(rest % 10).to_owned().concat(text.as_str());
        proof {
            let digit = seq![digit_char((rest % 10) as nat)];
            if rest >= 10 {
                assert(decimal((rest / 10) as nat).push(digit_char((rest % 10) as nat)) + before
                    =~= decimal((rest / 10) as nat) + (digit + before));
            } else {
                assert(seq![digit_char(rest as nat)] + before =~= digit + before);
            }
        }
        rest = rest / 10;
    }
    text
}

/// A key and a value that describe what a command did.
#[derive(Debug, PartialEq)]
pub struct Attribute {
    pub key: String,
    pub value: String,
}

/// What an [`Attribute`] stands for.
pub struct AttributeView {
    pub key: Seq<char>,
    pub value: Seq<char>,
}

impl View for Attribute {
    type V = AttributeView;

    open spec fn view(&self) -> AttributeView {
        AttributeView { key: self.key@, value: self.value@ }
    }
}

impl Attribute {
    /// The attribute `key` with `value`.
    pub fn new(key: &str, value: String) -> (r: Attribute)
        ensures
            r.key@ == key@,
            r.value == value,
    {
        Attribute { key: key.to_owned(), value }
    }
}

/// The views of a list of attributes, in order.
pub open spec fn attribute_views(attributes: Seq<Attribute>) -> Seq<AttributeView> {
    Seq::new(attributes.len(), |i: int| attributes[i]@)
}

/// The reply to a command: what it did and what is to happen to the funds.
#[derive(Debug, PartialEq)]
pub struct Response {
    pub messages: Vec<BankMsg>,
    pub attributes: Vec<Attribute>,
}

/// What a [`Response`] stands for.
pub struct ResponseView {
    pub messages: Seq<BankMsgView>,
    pub attributes: Seq<AttributeView>,
}

impl View for Response {
    type V = ResponseView;

    open spec fn view(&self) -> ResponseView {
        ResponseView {
            messages: bank_msg_views(self.messages@),
            attributes: attribute_views(self.attributes@),
        }
    }
}

/// Who sent a request, as the host names the sender, and the funds attached
/// to it.
#[derive(Debug, PartialEq)]
pub struct MessageInfo {
    pub sender: String,
    pub funds: Vec<Coin>,
}

/// The time of the block in which a request runs, in nanoseconds since the
/// epoch.
#[derive(Debug, PartialEq)]
pub struct Env {
    pub time: u64,
}

} // verus!
