//! What holds of Azure options that are read from a manifest, in terms of the
//! entries of the table that holds them.

use vstd::prelude::*;

use crate::azure;
use crate::azure::{ErrorModel, OptionsModel, TomlEntry, TomlValue};
use crate::urls;

verus! {

/// Whether the first entry with the key `key` is the one at `i`.
pub open spec fn is_first(entries: Seq<TomlEntry>, key: Seq<char>, i: int) -> bool {
    &&& 0 <= i < entries.len()
    &&& entries[i].key@ == key
    &&& forall|j: int| 0 <= j < i ==> (#[trigger] entries[j]).key@ != key
}

/// Whether some entry has the key `key`.
pub open spec fn has_key(entries: Seq<TomlEntry>, key: Seq<char>) -> bool {
    exists|i: int| 0 <= i < entries.len() && (#[trigger] entries[i]).key@ == key
}

/// The value of a key is that of the first entry that has it, and a key without
/// an entry has none.
pub proof fn values_are_found_by_key(entries: Seq<TomlEntry>, key: Seq<char>)
    ensures
        azure::value_of(entries, key) is Some <==> has_key(entries, key),
        forall|i: int| #[trigger]
            is_first(entries, key, i) ==> azure::value_of(entries, key) == Some(entries[i].value),
        has_key(entries, key) ==> exists|i: int| #[trigger] is_first(entries, key, i),
    decreases entries.len(),
{
    if entries.len() > 0 {
        let rest = entries.skip(1);
        values_are_found_by_key(rest, key);
        if entries[0].key@ == key {
            assert(is_first(entries, key, 0));
            assert(has_key(entries, key));
        } else {
            assert forall|i: int| #[trigger] is_first(entries, key, i) implies azure::value_of(
                entries,
                key,
            ) == Some(entries[i].value) by {
                assert forall|j: int| 0 <= j < i - 1 implies (#[trigger] rest[j]).key@ != key by {
                    assert(entries[j + 1].key@ != key);
                }
                assert(rest[i - 1] == entries[i]);
                assert(is_first(rest, key, i - 1));
            }
            if has_key(entries, key) {
                let i = choose|i: int|
                    0 <= i < entries.len() && (#[trigger] entries[i]).key@ == key;
                assert(rest[i - 1].key@ == key);
                assert(has_key(rest, key));
                let k = choose|k: int| #[trigger] is_first(rest, key, k);
                assert forall|j: int| 0 <= j < k + 1 implies (#[trigger] entries[j]).key@
                    != key by {
                    if j > 0 {
                        assert(rest[j - 1].key@ != key);
                    }
                }
                assert(entries[k + 1] == rest[k]);
                assert(is_first(entries, key, k + 1));
            }
            if has_key(rest, key) {
                let k = choose|k: int| 0 <= k < rest.len() && (#[trigger] rest[k]).key@ == key;
                assert(entries[k + 1].key@ == key);
            }
        }
    }
}

/// Keys are unexpected, in their order, if they are neither the account nor the
/// endpoint.
pub proof fn other_keys_are_unexpected(
    entries: Seq<TomlEntry>,
    entry: TomlEntry,
    key: Seq<char>,
)
    ensures
        azure::unexpected_keys(entries).contains(key) <==> has_key(entries, key) && key
            != "account"@ && key != "endpoint-url"@,
        azure::unexpected_keys(entries).len() == 0 <==> forall|i: int|
            0 <= i < entries.len() ==> (#[trigger] entries[i]).key@ == "account"@
                || entries[i].key@ == "endpoint-url"@,
        ({
            let before = azure::unexpected_keys(entries);
            let after = azure::unexpected_keys(entries.push(entry));
            if entry.key@ == "account"@ || entry.key@ == "endpoint-url"@ {
                after == before
            } else {
                &&& after.len() == before.len() + 1
                &&& after.drop_last() == before
                &&& after.last() == entry.key@
            }
        }),
    decreases entries.len(),
{
    assert(entries.push(entry).drop_last() =~= entries);
    assert(azure::unexpected_keys(entries).push(entry.key@).drop_last() =~= azure::unexpected_keys(
        entries,
    ));
    if entries.len() > 0 {
        let fewer = entries.drop_last();
        let last = entries.last();
        other_keys_are_unexpected(fewer, entry, key);
        let before = azure::unexpected_keys(fewer);
        let after = azure::unexpected_keys(entries);
        if has_key(entries, key) {
            let i = choose|i: int| 0 <= i < entries.len() && (#[trigger] entries[i]).key@ == key;
            if i < entries.len() - 1 {
                assert(fewer[i].key@ == key);
                assert(has_key(fewer, key));
            }
        }
        if has_key(fewer, key) {
            let i = choose|i: int| 0 <= i < fewer.len() && (#[trigger] fewer[i]).key@ == key;
            assert(entries[i].key@ == key);
            assert(has_key(entries, key));
        }
        if last.key@ == key {
            assert(entries[entries.len() - 1].key@ == key);
            assert(has_key(entries, key));
        }
        if last.key@ != "account"@ && last.key@ != "endpoint-url"@ {
            assert(after == before.push(last.key@));
            assert(after[after.len() - 1] == last.key@);
            assert forall|k: Seq<char>| after.contains(k) <==> before.contains(k) || k
                == last.key@ by {
                if before.contains(k) {
                    let i = choose|i: int| 0 <= i < before.len() && before[i] == k;
                    assert(after[i] == k);
                }
                if after.contains(k) {
                    let i = choose|i: int| 0 <= i < after.len() && after[i] == k;
                    if i < before.len() {
                        assert(before[i] == k);
                    }
                }
            }
            assert(entries[entries.len() - 1].key@ != "account"@);
        }
        if forall|i: int|
            0 <= i < fewer.len() ==> (#[trigger] fewer[i]).key@ == "account"@ || fewer[i].key@
                == "endpoint-url"@ {
            assert forall|i: int| 0 <= i < entries.len() - 1 implies (
            #[trigger] entries[i]).key@ == "account"@ || entries[i].key@ == "endpoint-url"@ by {
                assert(fewer[i] == entries[i]);
            }
        } else {
            let i = choose|i: int|
                0 <= i < fewer.len() && !((#[trigger] fewer[i]).key@ == "account"@
                    || fewer[i].key@ == "endpoint-url"@);
            assert(entries[i] == fewer[i]);
        }
    }
}

/// Options that are read have the account of the table, and its endpoint as the
/// URL is written out, or none where the table has none. The table holds nothing
/// else.
pub proof fn options_are_those_of_the_table(value: TomlValue, options: OptionsModel)
    requires
        azure::options_of(value) == Ok::<OptionsModel, Seq<ErrorModel>>(options),
    ensures
        value matches TomlValue::Table(entries) && ({
            &&& exists|i: int|
                {
                    &&& #[trigger] is_first(entries@, "account"@, i)
                    &&& entries@[i].value matches TomlValue::Text(account) && account@
                        == options.account
                }
            &&& options.endpoint_url is None <==> !has_key(entries@, "endpoint-url"@)
            &&& options.endpoint_url matches Some(endpoint) ==> exists|i: int|
                {
                    &&& #[trigger] is_first(entries@, "endpoint-url"@, i)
                    &&& entries@[i].value matches TomlValue::Text(written) && urls::url_reading(
                        written@,
                    ) == Ok::<Seq<char>, Seq<char>>(endpoint)
                }
            &&& forall|i: int|
                0 <= i < entries@.len() ==> (#[trigger] entries@[i]).key@ == "account"@
                    || entries@[i].key@ == "endpoint-url"@
        }),
{
    if let TomlValue::Table(entries) = value {
        values_are_found_by_key(entries@, "account"@);
        values_are_found_by_key(entries@, "endpoint-url"@);
        let i = choose|i: int| #[trigger] is_first(entries@, "account"@, i);
        assert(is_first(entries@, "account"@, i));
        other_keys_are_unexpected(entries@, entries@[i], "account"@);
        if has_key(entries@, "endpoint-url"@) {
            let j = choose|j: int| #[trigger] is_first(entries@, "endpoint-url"@, j);
            assert(is_first(entries@, "endpoint-url"@, j));
        }
    }
}

/// What a value is refused for: not to be a table, to have no account, or one
/// that is no text. Otherwise an endpoint that is no text or no URL is told
/// first, and all keys that do not belong there are told together, last.
pub proof fn refusals_tell_what_is_wrong(value: TomlValue, errors: Seq<ErrorModel>)
    requires
        azure::options_of(value) == Err::<OptionsModel, Seq<ErrorModel>>(errors),
    ensures
        !(value is Table) ==> errors == seq![
            ErrorModel::Wanted { key: None, expected: "a table"@, found: value.type_text() },
        ],
        value matches TomlValue::Table(entries) ==> {
            let account = azure::value_of(entries@, "account"@);
            let endpoint = azure::value_of(entries@, "endpoint-url"@);
            let keys = azure::unexpected_keys(entries@);
            &&& !has_key(entries@, "account"@) ==> errors == seq![
                ErrorModel::MissingField { key: "account"@ },
            ]
            &&& account matches Some(other) ==> (!(other is Text) ==> errors == seq![
                ErrorModel::Wanted {
                    key: Some("account"@),
                    expected: "a string"@,
                    found: other.type_text(),
                },
            ])
            &&& (account matches Some(TomlValue::Text(_))) ==> {
                &&& endpoint matches Some(other) ==> (!(other is Text) ==> errors[0]
                    == ErrorModel::Wanted {
                    key: Some("endpoint-url"@),
                    expected: "a string"@,
                    found: other.type_text(),
                })
                &&& endpoint matches Some(TomlValue::Text(written)) ==> (urls::url_reading(
                    written@,
                ) matches Err(message) ==> errors[0] == ErrorModel::Custom {
                    key: "endpoint-url"@,
                    message,
                })
                &&& keys.len() > 0 ==> errors.last() == ErrorModel::UnexpectedKeys {
                    keys,
                    expected: seq!["account"@, "endpoint-url"@],
                }
                &&& errors.len() == 2 <==> keys.len() > 0 && (endpoint matches Some(refused)
                    && azure::endpoint_of(refused) is Err)
                &&& 1 <= errors.len() <= 2
            }
        },
{
    if let TomlValue::Table(entries) = value {
        values_are_found_by_key(entries@, "account"@);
    }
}

/// The endpoint that is given is the URL as it is written out: that of a text
/// that is a URL, and nothing else.
pub proof fn endpoints_are_urls(value: TomlValue)
    ensures
        azure::endpoint_of(value) is Ok <==> (value matches TomlValue::Text(written)
            && urls::url_reading(written@) is Ok),
        azure::endpoint_of(value) matches Ok(url) ==> (value matches TomlValue::Text(written)
            && urls::url_reading(written@) == Ok::<Seq<char>, Seq<char>>(url)),
{
}

/// Values of different types are told apart by the names of their types.
pub proof fn types_have_their_names(value: TomlValue)
    ensures
        value is Text <==> value.type_text() == "string"@,
        value is Integer <==> value.type_text() == "integer"@,
        value is Float <==> value.type_text() == "float"@,
        value is Boolean <==> value.type_text() == "boolean"@,
        value is Array <==> value.type_text() == "array"@,
        value is Table <==> value.type_text() == "table"@,
{
    reveal_strlit("string");
    reveal_strlit("integer");
    reveal_strlit("float");
    reveal_strlit("boolean");
    reveal_strlit("array");
    reveal_strlit("table");
    assert("string"@[0] == 's');
    assert("integer"@[0] == 'i');
    assert("float"@[0] == 'f');
    assert("boolean"@[0] == 'b');
    assert("array"@[0] == 'a');
    assert("table"@[0] == 't');
}

} // verus!
