//! The price source: from the body of one response to the price text and the
//! line that echoes it, or to the reason why there is none.
//!
//! The request itself is the caller's. So is the step from the price text to
//! the number, which is floating point: the caller makes it and reports back
//! through [`Quote::priced`].

use vstd::prelude::*;
use vstd::string::*;
use crate::json::{json_decoded, json_members, member, parse_document, string_of, text_of};
use crate::sample::Sample;

verus! {

/// The address that the price is fetched from, with one GET request.
pub const PRICE_URL: &'static str = "https://api.coinbase.com/v2/prices/spot?currency=USD";

/// Why a fetch gave no price.
#[derive(Clone, Copy, Debug, PartialEq, Eq, Structural)]
pub enum FetchError {
    /// The request did not complete.
    Transport,
    /// The body is not a JSON document.
    Decode,
    /// The document has no `data` member.
    MissingData,
    /// `data` has no `amount` member.
    MissingField,
    /// `amount` is not a string, or the string is not a number.
    Format,
}

/// One member of `data`.
#[derive(Debug, PartialEq, Eq)]
pub struct Field {
    /// The member as JSON text.
    pub text: String,
    /// The string that the member holds, where it is a string.
    pub string: Option<String>,
}

/// The mathematical value of a [`Field`].
pub struct FieldView {
    pub text: Seq<char>,
    pub string: Option<Seq<char>>,
}

/// The characters of a string that may be absent.
pub open spec fn text_view(text: Option<String>) -> Option<Seq<char>> {
    match text {
        Some(text) => Some(text@),
        None => None,
    }
}

/// The value of a field that may be absent.
pub open spec fn field_view(field: Option<Field>) -> Option<FieldView> {
    match field {
        Some(field) => Some(field@),
        None => None,
    }
}

impl View for Field {
    type V = FieldView;

    open spec fn view(&self) -> FieldView {
        FieldView { text: self.text@, string: text_view(self.string) }
    }
}

/// The members of `data` that a quote reads, each where it is present.
#[derive(Debug, PartialEq, Eq)]
pub struct DataFields {
    pub amount: Option<Field>,
    pub base: Option<Field>,
    pub currency: Option<Field>,
}

/// The mathematical value of [`DataFields`].
pub struct DataFieldsView {
    pub amount: Option<FieldView>,
    pub base: Option<FieldView>,
    pub currency: Option<FieldView>,
}

impl View for DataFields {
    type V = DataFieldsView;

    open spec fn view(&self) -> DataFieldsView {
        DataFieldsView {
            amount: field_view(self.amount),
            base: field_view(self.base),
            currency: field_view(self.currency),
        }
    }
}

/// What one response says of the price.
#[derive(Debug, PartialEq, Eq)]
pub struct Quote {
    /// The price as the text that `amount` holds.
    pub amount: String,
    /// `amount` as JSON text.
    pub amount_text: String,
    /// `base` as JSON text, where the response has it.
    pub base_text: Option<String>,
    /// `currency` as JSON text, where the response has it.
    pub currency_text: Option<String>,
}

/// The mathematical value of a [`Quote`].
pub struct QuoteView {
    pub amount: Seq<char>,
    pub amount_text: Seq<char>,
    pub base_text: Option<Seq<char>>,
    pub currency_text: Option<Seq<char>>,
}

impl View for Quote {
    type V = QuoteView;

    open spec fn view(&self) -> QuoteView {
        QuoteView {
            amount: self.amount@,
            amount_text: self.amount_text@,
            base_text: text_view(self.base_text),
            currency_text: text_view(self.currency_text),
        }
    }
}

/// The value of the members of `data`, where `data` is present.
pub open spec fn fields_view(data: Option<DataFields>) -> Option<DataFieldsView> {
    match data {
        Some(fields) => Some(fields@),
        None => None,
    }
}

/// The characters of a body that may be absent.
pub open spec fn body_view(body: Option<&str>) -> Option<Seq<char>> {
    match body {
        Some(body) => Some(body@),
        None => None,
    }
}

/// The JSON text of a field that may be absent.
pub open spec fn echo_of(field: Option<FieldView>) -> Option<Seq<char>> {
    match field {
        Some(field) => Some(field.text),
        None => None,
    }
}

/// The quote that the members of `data` give. Without `data` there is none,
/// nor without `amount`, nor where `amount` is no string. `base` and
/// `currency` are echoed where they are present and not missed where they
/// are absent.
pub open spec fn quote_from_fields(data: Option<DataFieldsView>) -> Result<QuoteView, FetchError> {
    match data {
        None => Err(FetchError::MissingData),
        Some(fields) => match fields.amount {
            None => Err(FetchError::MissingField),
            Some(amount) => match amount.string {
                None => Err(FetchError::Format),
                Some(price) => Ok(
                    QuoteView {
                        amount: price,
                        amount_text: amount.text,
                        base_text: echo_of(fields.base),
                        currency_text: echo_of(fields.currency),
                    },
                ),
            },
        },
    }
}

/// The member of a JSON document at the end of a path of keys, where the
/// path leads to one.
pub open spec fn field_at(
    members: Map<Seq<Seq<char>>, (Seq<char>, Option<Seq<char>>)>,
    path: Seq<Seq<char>>,
) -> Option<FieldView> {
    if members.dom().contains(path) {
        Some(FieldView { text: members[path].0, string: members[path].1 })
    } else {
        None
    }
}

/// The members of `data` in a JSON document, where it has a `data` member.
pub open spec fn fields_in(
    members: Map<Seq<Seq<char>>, (Seq<char>, Option<Seq<char>>)>,
) -> Option<DataFieldsView> {
    if members.dom().contains(seq!["data"@]) {
        Some(
            DataFieldsView {
                amount: field_at(members, seq!["data"@, "amount"@]),
                base: field_at(members, seq!["data"@, "base"@]),
                currency: field_at(members, seq!["data"@, "currency"@]),
            },
        )
    } else {
        None
    }
}

/// The quote that the body of a response gives.
pub open spec fn quote_of(body: Seq<char>) -> Result<QuoteView, FetchError> {
    match json_decoded(body) {
        Some(members) => quote_from_fields(fields_in(members)),
        None => Err(FetchError::Decode),
    }
}

/// The quote that a response gives, where `None` stands for a request that
/// did not complete.
pub open spec fn quote_of_response(body: Option<Seq<char>>) -> Result<QuoteView, FetchError> {
    match body {
        Some(body) => quote_of(body),
        None => Err(FetchError::Transport),
    }
}

/// Whether an outcome is the given one, the quote taken by its value.
pub open spec fn is_quote(outcome: Result<Quote, FetchError>, expected: Result<QuoteView, FetchError>) -> bool {
    match outcome {
        Ok(quote) => expected == Ok::<QuoteView, FetchError>(quote@),
        Err(error) => expected == Err::<QuoteView, FetchError>(error),
    }
}

/// Decides on the members of `data`, each as it was found or not found.
pub fn quote_from(data: Option<DataFields>) -> (outcome: Result<Quote, FetchError>)
    ensures
        is_quote(outcome, quote_from_fields(fields_view(data))),
{
    let fields = match data {
        Some(fields) => fields,
        None => {
            return Err(FetchError::MissingData);
        },
    };
    let amount = match fields.amount {
        Some(amount) => amount,
        None => {
            return Err(FetchError::MissingField);
        },
    };
    let price = match amount.string {
        Some(price) => price,
        None => {
            return Err(FetchError::Format);
        },
    };
    let base_text = match fields.base {
        Some(base) => Some(base.text),
        None => None,
    };
    let currency_text = match fields.currency {
        Some(currency) => Some(currency.text),
        None => None,
    };
    Ok(Quote { amount: price, amount_text: amount.text, base_text, currency_text })
}

/// Looks one member of a JSON value up.
fn read_field(data: &serde_json::Value, key: &str) -> (field: Option<Field>)
    ensures
        field_view(field) == field_at(json_members(*data), seq![key@]),
{
    match member(data, key) {
        Some(value) => {
            assert(seq![key@] + Seq::<Seq<char>>::empty() == seq![key@]);
            let string = match string_of(value) {
                Some(content) => Some(String::from_str(content)),
                None => None,
            };
            Some(Field { text: text_of(value), string })
        },
        None => None,
    }
}

/// Reads the body of one response.
pub fn read_quote(body: &str) -> (outcome: Result<Quote, FetchError>)
    ensures
        is_quote(outcome, quote_of(body@)),
{
    let document = match parse_document(body) {
        Ok(document) => document,
        Err(_) => {
            return Err(FetchError::Decode);
        },
    };
    let fields = match member(&document, "data") {
        Some(data) => {
            assert(seq!["data"@] + seq!["amount"@] == seq!["data"@, "amount"@]);
            assert(seq!["data"@] + seq!["base"@] == seq!["data"@, "base"@]);
            assert(seq!["data"@] + seq!["currency"@] == seq!["data"@, "currency"@]);
            Some(
                DataFields {
                    amount: read_field(data, "amount"),
                    base: read_field(data, "base"),
                    currency: read_field(data, "currency"),
                },
            )
        },
        None => None,
    };
    quote_from(fields)
}

/// Reads one response: its body, or `None` where the request did not
/// complete.
pub fn read_response(body: Option<&str>) -> (outcome: Result<Quote, FetchError>)
    ensures
        is_quote(outcome, quote_of_response(body_view(body))),
{
    match body {
        Some(body) => read_quote(body),
        None => Err(FetchError::Transport),
    }
}

/// The line that echoes a quote in the sampling run: the amount, and the
/// base and the currency where the response has them.
pub open spec fn cache_line_of(quote: QuoteView) -> Seq<char> {
    "Received data: Amount="@ + quote.amount_text + (match quote.base_text {
        Some(base) => ", Base="@ + base,
        None => Seq::empty(),
    }) + (match quote.currency_text {
        Some(currency) => ", Currency="@ + currency,
        None => Seq::empty(),
    })
}

/// The line that echoes a quote in the aggregation: the amount alone.
pub open spec fn distributed_line_of(quote: QuoteView) -> Seq<char> {
    "Received data: Amount="@ + quote.amount_text
}

impl Quote {
    /// The outcome of the fetch, once the caller has turned the price text
    /// into a number: the sample, or a format failure where the text is no
    /// number.
    pub fn priced(&self, parsed: Option<Sample>) -> (outcome: Result<Sample, FetchError>)
        ensures
            outcome == (match parsed {
                Some(sample) => Ok::<Sample, FetchError>(sample),
                None => Err::<Sample, FetchError>(FetchError::Format),
            }),
    {
        match parsed {
            Some(sample) => Ok(sample),
            None => Err(FetchError::Format),
        }
    }

    /// The line that echoes the quote in the sampling run.
    pub fn cache_line(&self) -> (line: String)
        ensures
            line@ == cache_line_of(self@),
    {
        let mut line = String::from_str("Received data: Amount=");
        line.append(self.amount_text.as_str());
        match &self.base_text {
            Some(base) => {
                line.append(", Base=");
                line.append(base.as_str());
            },
            None => {},
        }
        match &self.currency_text {
            Some(currency) => {
                line.append(", Currency=");
                line.append(currency.as_str());
            },
            None => {},
        }
        line
    }

    /// The line that echoes the quote in the aggregation.
    pub fn distributed_line(&self) -> (line: String)
        ensures
            line@ == distributed_line_of(self@),
    {
        let mut line = String::from_str("Received data: Amount=");
        line.append(self.amount_text.as_str());
        line
    }
}

impl FetchError {
    /// The diagnostic for the error channel.
    pub fn message(&self) -> (text: String)
        ensures
            text@ == (match *self {
                FetchError::Transport => "Failed to send HTTP request"@,
                FetchError::Decode => "Error parsing JSON"@,
                FetchError::MissingData => "No 'data' field in JSON response"@,
                FetchError::MissingField => "Incomplete data in JSON response"@,
                FetchError::Format => "Invalid amount in JSON response"@,
            }),
    {
        match self {
            FetchError::Transport => String::from_str("Failed to send HTTP request"),
            FetchError::Decode => String::from_str("Error parsing JSON"),
            FetchError::MissingData => String::from_str("No 'data' field in JSON response"),
            FetchError::MissingField => String::from_str("Incomplete data in JSON response"),
            FetchError::Format => String::from_str("Invalid amount in JSON response"),
        }
    }
}

} // verus!
