//! Quantities of an asset, read from the command line as exact decimals.

use vstd::prelude::*;
use crate::error::{ConfigError, ConfigErrorView};

verus! {

/// An exact decimal number: `mantissa / 10^scale`. No binary fraction is
/// involved anywhere, so `0.01` is one hundredth and nothing else.
#[derive(Debug, Clone, Copy, PartialEq, Eq, Structural)]
pub struct Quantity {
    /// The digits of the number, with its sign.
    pub mantissa: i128,
    /// How many of those digits stand behind the decimal point.
    pub scale: u32,
}

/// What `rust_decimal::Decimal::from_str` makes of a text: the mantissa and
/// the scale of the decimal that it reads from the text, or the words in
/// which its error says why it reads none.
pub uninterp spec fn decimal_of_text(text: Seq<char>) -> Result<(i128, u32), Seq<char>>;

/// The mathematical value of what the decimal parser hands back.
pub open spec fn parsed_view(parsed: Result<(i128, u32), String>) -> Result<
    (i128, u32),
    Seq<char>,
> {
    match parsed {
        Ok(parts) => Ok(parts),
        Err(reason) => Err(reason@),
    }
}

/// The longest text that is read as a quantity, in characters. The decimal
/// parser calls itself once for each byte that it reads and takes some four
/// hundred bytes of stack each time, so that a text of this length takes
/// less than half of the two megabytes that a thread has by default.
pub const MAX_QUANTITY_LENGTH: usize = 2048;

/// Calls `rust_decimal::Decimal::from_str`, and hands back the decimal as
/// its `mantissa()` and `scale()`, or the error as the text that its
/// `Display` writes. The contract claims that the outcome is a function of
/// the text alone. Nothing is claimed about which texts are decimals. The
/// parser recurses along the text and stops at the first byte that is not
/// ASCII, so `requires` bounds the number of characters.
#[verifier::external_body]
fn parse_decimal(text: &str) -> (parsed: Result<(i128, u32), String>)
    requires
        text@.len() <= MAX_QUANTITY_LENGTH,
    ensures
        parsed_view(parsed) == decimal_of_text(text@),
{
    match text.parse::<rust_decimal::Decimal>() {
        Ok(decimal) => Ok((decimal.mantissa(), decimal.scale())),
        Err(error) => Err(error.to_string()),
    }
}

/// The result of reading `text` as a quantity, given what the decimal
/// parser made of it: the decimal itself, or `InvalidQuantity` with the
/// text and the parser's reason.
pub open spec fn quantity_of(text: Seq<char>, parsed: Result<(i128, u32), Seq<char>>) -> Result<
    Quantity,
    ConfigErrorView,
> {
    match parsed {
        Ok((mantissa, scale)) => Ok(Quantity { mantissa, scale }),
        Err(reason) => Err(ConfigErrorView::InvalidQuantity { text, reason }),
    }
}

/// The mathematical value of the result of reading a quantity.
pub open spec fn outcome_view(outcome: Result<Quantity, ConfigError>) -> Result<
    Quantity,
    ConfigErrorView,
> {
    match outcome {
        Ok(quantity) => Ok(quantity),
        Err(error) => Err(error@),
    }
}

impl Quantity {
    /// Turns what the decimal parser made of `text` into a quantity, or
    /// into the error that names `text` and the parser's reason.
    pub fn from_parsed(text: &str, parsed: Result<(i128, u32), String>) -> (outcome: Result<
        Quantity,
        ConfigError,
    >)
        ensures
            outcome_view(outcome) == quantity_of(text@, parsed_view(parsed)),
    {
        match parsed {
            Ok((mantissa, scale)) => Ok(Quantity { mantissa, scale }),
            Err(reason) => Err(ConfigError::InvalidQuantity { text: text.to_owned(), reason }),
        }
    }
}

/// The result of reading `text` as a quantity. A text of more than
/// [`MAX_QUANTITY_LENGTH`] characters is refused unread; every other text
/// is what the decimal parser makes of it.
pub open spec fn reading_of(text: Seq<char>) -> Result<Quantity, ConfigErrorView> {
    if text.len() > MAX_QUANTITY_LENGTH {
        Err(ConfigErrorView::InvalidQuantity { text, reason: "longer than 2048 characters"@ })
    } else {
        quantity_of(text, decimal_of_text(text))
    }
}

/// A text of at most [`MAX_QUANTITY_LENGTH`] characters is a quantity
/// exactly when the decimal parser reads a decimal from it.
pub proof fn lemma_reading_within_length(text: Seq<char>)
    requires
        text.len() <= MAX_QUANTITY_LENGTH,
    ensures
        reading_of(text) == quantity_of(text, decimal_of_text(text)),
        reading_of(text) is Ok <==> decimal_of_text(text) is Ok,
{
}

/// Reads a quantity. Succeeds exactly on the texts of at most
/// [`MAX_QUANTITY_LENGTH`] characters that `rust_decimal` accepts as a
/// decimal; every other text fails with `InvalidQuantity`.
pub fn parse_quantity(text: &str) -> (outcome: Result<Quantity, ConfigError>)
    ensures
        outcome_view(outcome) == reading_of(text@),
{
    if text.unicode_len() > MAX_QUANTITY_LENGTH {
        return Err(
            ConfigError::InvalidQuantity {
                text: text.to_owned(),
                reason: "longer than 2048 characters".to_owned(),
            },
        );
    }
    Quantity::from_parsed(text, parse_decimal(text))
}

/// An order to buy an asset at the market price.
#[derive(Debug, Clone, PartialEq, Eq)]
pub struct BuyMarket {
    /// The asset to buy.
    pub symbol: String,
    /// How much of it.
    pub quantity: Quantity,
}

/// The mathematical value of a [`BuyMarket`].
pub ghost struct BuyMarketView {
    pub symbol: Seq<char>,
    pub quantity: Quantity,
}

impl View for BuyMarket {
    type V = BuyMarketView;

    open spec fn view(&self) -> BuyMarketView {
        BuyMarketView { symbol: self.symbol@, quantity: self.quantity }
    }
}

/// The order that a symbol and the reading of a quantity make up: the
/// symbol as it stands with the quantity read, or the error of the reading.
pub open spec fn order_of(symbol: Seq<char>, amount: Result<Quantity, ConfigErrorView>) -> Result<
    BuyMarketView,
    ConfigErrorView,
> {
    match amount {
        Ok(quantity) => Ok(BuyMarketView { symbol, quantity }),
        Err(error) => Err(error),
    }
}

/// The mathematical value of the result of making an order.
pub open spec fn order_view(order: Result<BuyMarket, ConfigError>) -> Result<
    BuyMarketView,
    ConfigErrorView,
> {
    match order {
        Ok(made) => Ok(made@),
        Err(error) => Err(error@),
    }
}

/// Makes the order that the two arguments of the `buy-market` command
/// describe. The symbol is taken as it stands; the quantity must be a
/// decimal, and the order fails with `InvalidQuantity` where it is not.
pub fn buy_market(symbol: &str, quantity: &str) -> (order: Result<BuyMarket, ConfigError>)
    ensures
        order_view(order) == order_of(symbol@, reading_of(quantity@)),
{
    match parse_quantity(quantity) {
        Ok(amount) => Ok(BuyMarket { symbol: symbol.to_owned(), quantity: amount }),
        Err(error) => Err(error),
    }
}

} // verus!
