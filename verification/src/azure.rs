//! The options of an Azure channel, as a manifest gives them.

use vstd::prelude::*;
use vstd::string::*;

use crate::text;
use crate::urls;
use crate::urls::parse_url;

verus! {

/// Custom Azure Blob Storage configuration for an `az://` channel container.
#[derive(Debug, Clone, PartialEq, Eq)]
pub struct AzureOptions {
    /// Name of the storage account backing the container.
    pub account: String,
    /// Optional endpoint URL override (sovereign clouds / custom endpoints),
    /// as the URL is written out. When absent the default
    /// `https://{account}.blob.core.windows.net` endpoint is used.
    pub endpoint_url: Option<String>,
}

/// Azure options, in terms of characters.
pub struct OptionsModel {
    pub account: Seq<char>,
    pub endpoint_url: Option<Seq<char>>,
}

impl DeepView for AzureOptions {
    type V = OptionsModel;

    open spec fn deep_view(&self) -> OptionsModel {
        OptionsModel { account: self.account@, endpoint_url: self.endpoint_url.deep_view() }
    }
}

/// A value in a manifest. Of a value that can only be refused, its type is
/// enough.
#[derive(Debug)]
pub enum TomlValue {
    Text(String),
    Integer,
    Float,
    Boolean,
    Array,
    Table(Vec<TomlEntry>),
}

/// A key of a table and its value.
#[derive(Debug)]
pub struct TomlEntry {
    pub key: String,
    pub value: TomlValue,
}

impl TomlValue {
    /// What the type of the value is called.
    pub open spec fn type_text(self) -> Seq<char> {
        match self {
            TomlValue::Text(_) => "string"@,
            TomlValue::Integer => "integer"@,
            TomlValue::Float => "float"@,
            TomlValue::Boolean => "boolean"@,
            TomlValue::Array => "array"@,
            TomlValue::Table(_) => "table"@,
        }
    }

    /// What the type of the value is called.
    pub fn type_str(&self) -> (r: &'static str)
        ensures
            r@ == self.type_text(),
    {
        match self {
            TomlValue::Text(_) => "string",
            TomlValue::Integer => "integer",
            TomlValue::Float => "float",
            TomlValue::Boolean => "boolean",
            TomlValue::Array => "array",
            TomlValue::Table(_) => "table",
        }
    }
}

/// Why a value of a manifest is refused.
#[derive(Debug, Clone, PartialEq, Eq)]
#[allow(inconsistent_fields)]
pub enum TomlError<T, K> {
    /// The value of `key`, or the table itself, has another type than it must
    /// have.
    Wanted { key: Option<T>, expected: T, found: T },
    /// A required key is missing.
    MissingField { key: T },
    /// The value of `key` cannot be read.
    Custom { key: T, message: T },
    /// The table has keys that it must not have.
    UnexpectedKeys { keys: K, expected: K },
}

impl DeepView for TomlError<String, Vec<String>> {
    type V = TomlError<Seq<char>, Seq<Seq<char>>>;

    open spec fn deep_view(&self) -> TomlError<Seq<char>, Seq<Seq<char>>> {
        match self {
            TomlError::Wanted { key, expected, found } => TomlError::Wanted {
                key: key.deep_view(),
                expected: expected@,
                found: found@,
            },
            TomlError::MissingField { key } => TomlError::MissingField { key: key@ },
            TomlError::Custom { key, message } => TomlError::Custom {
                key: key@,
                message: message@,
            },
            TomlError::UnexpectedKeys { keys, expected } => TomlError::UnexpectedKeys {
                keys: text::views(keys@),
                expected: text::views(expected@),
            },
        }
    }
}

/// An error, in terms of characters.
pub type ErrorModel = TomlError<Seq<char>, Seq<Seq<char>>>;

/// Options or errors, in terms of characters.
pub open spec fn outcome_view(
    r: Result<AzureOptions, Vec<TomlError<String, Vec<String>>>>,
) -> Result<OptionsModel, Seq<ErrorModel>> {
    match r {
        Ok(options) => Ok(options.deep_view()),
        Err(errors) => Err(errors.deep_view()),
    }
}

/// The value of the first of `entries` that has the key `key`.
pub open spec fn value_of(entries: Seq<TomlEntry>, key: Seq<char>) -> Option<TomlValue>
    decreases entries.len(),
{
    if entries.len() == 0 {
        None
    } else if entries[0].key@ == key {
        Some(entries[0].value)
    } else {
        value_of(entries.skip(1), key)
    }
}

/// The keys of `entries` that no option has.
pub open spec fn unexpected_keys(entries: Seq<TomlEntry>) -> Seq<Seq<char>>
    decreases entries.len(),
{
    if entries.len() == 0 {
        Seq::empty()
    } else {
        let keys = unexpected_keys(entries.drop_last());
        let key = entries.last().key@;
        if key == "account"@ || key == "endpoint-url"@ {
            keys
        } else {
            keys.push(key)
        }
    }
}

/// What the value of `endpoint-url` gives: the URL as it is written out, or why
/// it is refused.
pub open spec fn endpoint_of(value: TomlValue) -> Result<Seq<char>, ErrorModel> {
    match value {
        TomlValue::Text(written) => match urls::url_reading(written@) {
            Ok(url) => Ok(url),
            Err(message) => Err(TomlError::Custom { key: "endpoint-url"@, message }),
        },
        _ => Err(
            TomlError::Wanted {
                key: Some("endpoint-url"@),
                expected: "a string"@,
                found: value.type_text(),
            },
        ),
    }
}

/// The errors in the part of a table that follows a good `account`: those of
/// the endpoint, then the keys that do not belong there.
pub open spec fn late_errors(entries: Seq<TomlEntry>) -> Seq<ErrorModel> {
    let endpoint = match value_of(entries, "endpoint-url"@) {
        Some(value) => match endpoint_of(value) {
            Ok(_) => Seq::empty(),
            Err(error) => seq![error],
        },
        None => Seq::empty(),
    };
    let keys = unexpected_keys(entries);
    if keys.len() > 0 {
        endpoint.push(
            TomlError::UnexpectedKeys { keys, expected: seq!["account"@, "endpoint-url"@] },
        )
    } else {
        endpoint
    }
}

/// The options that `value` gives, or why it is refused. A value without a good
/// `account` is refused for that alone.
pub open spec fn options_of(value: TomlValue) -> Result<OptionsModel, Seq<ErrorModel>> {
    match value {
        TomlValue::Table(entries) => match value_of(entries@, "account"@) {
            None => Err(seq![TomlError::MissingField { key: "account"@ }]),
            Some(TomlValue::Text(account)) => if late_errors(entries@).len() > 0 {
                Err(late_errors(entries@))
            } else {
                Ok(
                    OptionsModel {
                        account: account@,
                        endpoint_url: match value_of(entries@, "endpoint-url"@) {
                            Some(value) => Some(endpoint_of(value)->Ok_0),
                            None => None,
                        },
                    },
                )
            },
            Some(other) => Err(
                seq![
                    TomlError::Wanted {
                        key: Some("account"@),
                        expected: "a string"@,
                        found: other.type_text(),
                    },
                ],
            ),
        },
        other => Err(
            seq![
                TomlError::Wanted { key: None, expected: "a table"@, found: other.type_text() },
            ],
        ),
    }
}

/// The value of the first of `entries` that has the key `key`.
fn find<'a>(entries: &'a Vec<TomlEntry>, key: &str) -> (r: Option<&'a TomlValue>)
    ensures
        match r {
            Some(value) => value_of(entries@, key@) == Some(*value),
            None => value_of(entries@, key@) is None,
        },
{
    let mut i: usize = 0;
    assert(entries@.skip(0) =~= entries@);
    while i < entries.len()
        invariant
            i <= entries.len(),
            value_of(entries@, key@) == value_of(entries@.skip(i as int), key@),
        decreases entries.len() - i,
    {
        assert(entries@.skip(i as int)[0] == entries@[i as int]);
        if text::str_eq(entries[i].key.as_str(), key) {
            return Some(&entries[i].value);
        }
        assert(entries@.skip(i as int).skip(1) =~= entries@.skip(i + 1));
        i += 1;
    }
    None
}

/// The keys of `entries` that no option has.
fn find_unexpected(entries: &Vec<TomlEntry>) -> (r: Vec<String>)
    ensures
        text::views(r@) == unexpected_keys(entries@),
{
    let mut keys: Vec<String> = Vec::new();
    let mut i: usize = 0;
    assert(text::views(keys@) =~= unexpected_keys(entries@.take(0)));
    while i < entries.len()
        invariant
            i <= entries.len(),
            text::views(keys@) == unexpected_keys(entries@.take(i as int)),
        decreases entries.len() - i,
    {
        assert(entries@.take(i + 1).drop_last() =~= entries@.take(i as int));
        assert(entries@.take(i + 1).last() == entries@[i as int]);
        let key = entries[i].key.as_str();
        if !text::str_eq(key, "account") && !text::str_eq(key, "endpoint-url") {
            let ghost before = keys@;
            keys.push(key.to_owned());
            assert(text::views(keys@) =~= text::views(before).push(key@));
        }
        i += 1;
    }
    assert(entries@.take(i as int) =~= entries@);
    keys
}

/// The endpoint that `value` gives, or why it is refused.
fn read_endpoint(value: &TomlValue) -> (r: Result<String, TomlError<String, Vec<String>>>)
    ensures
        match r {
            Ok(url) => endpoint_of(*value) == Ok::<Seq<char>, ErrorModel>(url@),
            Err(error) => endpoint_of(*value) == Err::<Seq<char>, ErrorModel>(error.deep_view()),
        },
{
    match value {
        TomlValue::Text(written) => match parse_url(written.as_str()) {
            Ok(url) => Ok(url),
            Err(message) => Err(TomlError::Custom { key: "endpoint-url".to_owned(), message }),
        },
        other => Err(
            TomlError::Wanted {
                key: Some("endpoint-url".to_owned()),
                expected: "a string".to_owned(),
                found: other.type_str().to_owned(),
            },
        ),
    }
}

/// The single error `error`.
fn only(error: TomlError<String, Vec<String>>) -> (r: Vec<TomlError<String, Vec<String>>>)
    ensures
        r.deep_view() == seq![error.deep_view()],
{
    let r: Vec<TomlError<String, Vec<String>>> = vec![error];
    assert(r.deep_view() =~= seq![error.deep_view()]);
    r
}

impl AzureOptions {
    /// Reads the options from a value of a manifest.
    pub fn deserialize(value: &TomlValue) -> (r: Result<
        AzureOptions,
        Vec<TomlError<String, Vec<String>>>,
    >)
        ensures
            outcome_view(r) == options_of(*value),
    {
        let entries = match value {
            TomlValue::Table(entries) => entries,
            other => {
                return Err(
                    only(
                        TomlError::Wanted {
                            key: None,
                            expected: "a table".to_owned(),
                            found: other.type_str().to_owned(),
                        },
                    ),
                );
            },
        };
        let account = match find(entries, "account") {
            None => {
                return Err(only(TomlError::MissingField { key: "account".to_owned() }));
            },
            Some(TomlValue::Text(account)) => account.clone(),
            Some(other) => {
                return Err(
                    only(
                        TomlError::Wanted {
                            key: Some("account".to_owned()),
                            expected: "a string".to_owned(),
                            found: other.type_str().to_owned(),
                        },
                    ),
                );
            },
        };
        let mut errors: Vec<TomlError<String, Vec<String>>> = Vec::new();
        let mut endpoint_url: Option<String> = None;
        match find(entries, "endpoint-url") {
            Some(value) => match read_endpoint(value) {
                Ok(url) => {
                    endpoint_url = Some(url);
                },
                Err(error) => {
                    errors = only(error);
                },
            },
            None => {},
        }
        let ghost first = errors.deep_view();
        let keys = find_unexpected(entries);
        assert(text::views(keys@).len() == keys.len());
        if keys.len() > 0 {
            let expected: Vec<String> = vec!["account".to_owned(), "endpoint-url".to_owned()];
            assert(text::views(expected@) =~= seq!["account"@, "endpoint-url"@]);
            errors.push(TomlError::UnexpectedKeys { keys, expected });
        }
        assert(errors.deep_view() =~= late_errors(entries@));
        if errors.len() > 0 {
            return Err(errors);
        }
        Ok(AzureOptions { account, endpoint_url })
    }
}

/// Options are read exactly from a table whose `account` is a text, whose
/// `endpoint-url`, if it has one, is a URL, and which has no other keys. The
/// account is kept as it is.
pub proof fn options_are_read_where_they_are_good(value: TomlValue)
    ensures
        options_of(value) is Ok <==> {
            &&& value matches TomlValue::Table(entries)
            &&& value_of(entries@, "account"@) matches Some(TomlValue::Text(_))
            &&& value_of(entries@, "endpoint-url"@) matches Some(url) ==> endpoint_of(url) is Ok
            &&& unexpected_keys(entries@).len() == 0
        },
        options_of(value) matches Ok(options) ==> value_of(
            value->Table_0@,
            "account"@,
        ) matches Some(TomlValue::Text(account)) && options.account == account@,
{
}

/// A value that is refused is refused for a reason.
pub proof fn a_refusal_has_a_reason(value: TomlValue)
    ensures
        options_of(value) matches Err(errors) ==> errors.len() > 0,
{
}

/// The options as a table that a manifest could hold.
pub open spec fn as_table(value: TomlValue, account: String, endpoint: Option<String>) -> bool {
    &&& value matches TomlValue::Table(entries)
    &&& entries@ == match endpoint {
        Some(url) => seq![
            TomlEntry { key: entries@[0].key, value: TomlValue::Text(account) },
            TomlEntry { key: entries@[1].key, value: TomlValue::Text(url) },
        ],
        None => seq![TomlEntry { key: entries@[0].key, value: TomlValue::Text(account) }],
    }
    &&& entries@[0].key@ == "account"@
    &&& endpoint is Some ==> entries@[1].key@ == "endpoint-url"@
}

/// What is written of options is read back: the account as it is, and the
/// endpoint as the URL is written out.
pub proof fn written_options_are_read_back(
    value: TomlValue,
    account: String,
    endpoint: Option<String>,
)
    requires
        as_table(value, account, endpoint),
        endpoint matches Some(url) ==> urls::url_reading(url@) is Ok,
    ensures
        options_of(value) == Ok::<OptionsModel, Seq<ErrorModel>>(
            OptionsModel {
                account: account@,
                endpoint_url: match endpoint {
                    Some(url) => Some(urls::url_reading(url@)->Ok_0),
                    None => None,
                },
            },
        ),
{
    reveal_strlit("account");
    reveal_strlit("endpoint-url");
    assert("account"@.len() != "endpoint-url"@.len());
    let entries = value->Table_0@;
    reveal_with_fuel(value_of, 3);
    reveal_with_fuel(unexpected_keys, 3);
}

} // verus!
