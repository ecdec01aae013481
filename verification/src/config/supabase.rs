//! The table service: how its requests are addressed and its answers read.

use vstd::prelude::*;
use vstd::string::*;
use crate::config::firebase::{HttpMethod, HttpOutcome};
use vstd::utf8::encode_utf8;
use crate::decimal::{decimal, push_decimal};
use crate::text::{trim_trailing_slashes, without_trailing_slashes};

verus! {

/// Whether a byte stands for itself in a query string: a letter, a digit,
/// or one of `-`, `.`, `_`, `~`.
pub open spec fn is_unreserved(byte: u8) -> bool {
    (0x30 <= byte <= 0x39) || (0x41 <= byte <= 0x5A) || (0x61 <= byte <= 0x7A) || byte == 0x2D
        || byte == 0x2E || byte == 0x5F || byte == 0x7E
}

/// The upper-case hexadecimal digit of a value below 16.
pub open spec fn hex_digit_upper(value: int) -> char {
    if value < 10 {
        crate::decimal::digit_char(value)
    } else if value == 10 {
        'A'
    } else if value == 11 {
        'B'
    } else if value == 12 {
        'C'
    } else if value == 13 {
        'D'
    } else if value == 14 {
        'E'
    } else {
        'F'
    }
}

/// The percent-encoding of a run of bytes: an unreserved byte stands for
/// itself, every other byte is written as `%` and two hexadecimal digits.
pub open spec fn percent_encoded(bytes: Seq<u8>) -> Seq<char>
    decreases bytes.len(),
{
    if bytes.len() == 0 {
        Seq::empty()
    } else {
        let byte = bytes.last();
        let before = percent_encoded(bytes.drop_last());
        if is_unreserved(byte) {
            before.push(byte as char)
        } else {
            before.push('%').push(hex_digit_upper(byte as int / 16)).push(
                hex_digit_upper(byte as int % 16),
            )
        }
    }
}

/// Whether a character may stand in a percent-encoded text: a letter, a
/// digit, or one of `-`, `.`, `_`, `~`, `%`.
pub open spec fn is_query_safe(c: char) -> bool {
    ('0' <= c && c <= '9') || ('A' <= c && c <= 'Z') || ('a' <= c && c <= 'z') || c == '-' || c
        == '.' || c == '_' || c == '~' || c == '%'
}

/// A percent-encoded text holds none of the characters that part a query
/// string: every character of it is a letter, a digit, or one of `-`, `.`,
/// `_`, `~`, `%`. So no condition runs into the next.
pub proof fn percent_encoded_is_query_safe(bytes: Seq<u8>)
    ensures
        forall|i: int|
            0 <= i < percent_encoded(bytes).len() ==> is_query_safe(
                #[trigger] percent_encoded(bytes)[i],
            ),
    decreases bytes.len(),
{
    if bytes.len() > 0 {
        let byte = bytes.last();
        let before = percent_encoded(bytes.drop_last());
        percent_encoded_is_query_safe(bytes.drop_last());
        let whole = percent_encoded(bytes);
        assert forall|i: int| 0 <= i < whole.len() implies is_query_safe(#[trigger] whole[i]) by {
            if i < before.len() {
                assert(whole[i] == before[i]);
            } else if is_unreserved(byte) {
                assert(whole[i] == byte as char);
            } else {
                let high = byte as int / 16;
                let low = byte as int % 16;
                assert(0 <= high < 16 && 0 <= low < 16);
                assert(is_query_safe(hex_digit_upper(high)));
                assert(is_query_safe(hex_digit_upper(low)));
            }
        }
    }
}

/// Percent-encodes a text with `urlencoding::encode`, which encodes the
/// bytes of its UTF-8 form one by one: claimed is the encoding that its
/// documentation describes, every byte but letters, digits and `-`, `.`,
/// `_`, `~` written as `%` and two upper-case hexadecimal digits.
#[verifier::external_body]
pub(crate) fn percent_encode(data: &str) -> (encoded: String)
    ensures
        encoded@ == percent_encoded(data.spec_bytes()),
{
    urlencoding::encode(data).into_owned()
}

/// One header of a request.
#[derive(Debug, Clone, PartialEq)]
pub struct Header {
    pub name: String,
    pub value: String,
}

/// A request to the table service, ready to be sent.
#[derive(Debug, Clone, PartialEq)]
pub struct TableRequest {
    pub method: HttpMethod,
    pub url: String,
    pub headers: Vec<Header>,
    pub has_body: bool,
}

/// One condition of a selection: a column and what is asked of it.
#[derive(Debug, Clone, PartialEq)]
pub struct QueryFilter {
    pub column: String,
    pub condition: String,
}

/// The names and values of a list of headers.
pub open spec fn header_texts(headers: Seq<Header>) -> Seq<(Seq<char>, Seq<char>)> {
    Seq::new(headers.len(), |i: int| (headers[i].name@, headers[i].value@))
}

/// One condition as it stands in a query string: the column, `=`, and the
/// condition percent-encoded.
pub open spec fn condition_text(filter: QueryFilter) -> Seq<char> {
    filter.column@ + "="@ + percent_encoded(encode_utf8(filter.condition@))
}

/// The query string of the first `n` conditions, joined by `&`.
pub open spec fn query_string(filters: Seq<QueryFilter>, n: nat) -> Seq<char>
    decreases n,
{
    if n == 0 {
        Seq::empty()
    } else if n == 1 {
        condition_text(filters[0])
    } else {
        query_string(filters, (n - 1) as nat) + "&"@ + condition_text(filters[n - 1])
    }
}

/// The address of a table.
pub open spec fn table_url(base: Seq<char>, table: Seq<char>) -> Seq<char> {
    base + "/rest/v1/"@ + table
}

/// What an insertion answers: the body where the service accepted, and
/// otherwise why not, in words.
pub open spec fn inserted(outcome: HttpOutcome) -> Result<Seq<char>, Seq<char>> {
    match outcome {
        HttpOutcome::Failed { error } => Err("Request error: "@ + error@),
        HttpOutcome::Answered { status, body } => if 200 <= status < 300 {
            Ok(body@)
        } else {
            Err("HTTP "@ + decimal(status as nat) + ": "@ + body@)
        },
    }
}

/// What a selection answers: the body where the service accepted, and
/// otherwise why not, in words.
pub open spec fn selected(outcome: HttpOutcome) -> Result<Seq<char>, Seq<char>> {
    match outcome {
        HttpOutcome::Failed { error } => Err(error@),
        HttpOutcome::Answered { status, body } => if 200 <= status < 300 {
            Ok(body@)
        } else {
            Err("Supabase error: "@ + decimal(status as nat) + " - "@ + body@)
        },
    }
}

/// The texts that a result holds.
pub open spec fn result_texts(result: Result<String, String>) -> Result<Seq<char>, Seq<char>> {
    match result {
        Ok(text) => Ok(text@),
        Err(text) => Err(text@),
    }
}

/// The table service of one project, reached with a key and, where there is
/// one, the token of a user.
#[derive(Debug, Clone, PartialEq)]
pub struct SupabaseClient {
    base_url: String,
    api_key: String,
    token: String,
}

impl SupabaseClient {
    /// The address of the service, without a `/` at its end.
    pub closed spec fn base(&self) -> Seq<char> {
        self.base_url@
    }

    /// The key that every request carries.
    pub closed spec fn key(&self) -> Seq<char> {
        self.api_key@
    }

    /// The token of the user; empty where there is none.
    pub closed spec fn bearer(&self) -> Seq<char> {
        self.token@
    }

    pub fn new(base_url: &str, api_key: &str, token: &str) -> (client: SupabaseClient)
        ensures
            client.base() == without_trailing_slashes(base_url@),
            client.key() == api_key@,
            client.bearer() == token@,
    {
        SupabaseClient {
            base_url: trim_trailing_slashes(base_url),
            api_key: String::from_str(api_key),
            token: String::from_str(token),
        }
    }

    fn bearer_value(&self) -> (value: String)
        ensures
            value@ == "Bearer "@ + self.bearer(),
    {
        let mut value = String::from_str("Bearer ");
        value.append(self.token.as_str());
        value
    }

    /// The request that inserts into `table`. Its body holds the row.
    pub fn insert_request(&self, table: &str) -> (request: TableRequest)
        ensures
            request.method == HttpMethod::Post,
            request.has_body,
            request.url@ == table_url(self.base(), table@),
            header_texts(request.headers@) == seq![
                ("apikey"@, self.key()),
                ("Authorization"@, "Bearer "@ + self.bearer()),
                ("Content-Type"@, "application/json"@),
                ("Prefer"@, "return=representation"@),
            ],
    {
        let mut url = self.base_url.clone();
        url.append("/rest/v1/");
        url.append(table);
        let mut headers: Vec<Header> = Vec::new();
        headers.push(Header { name: String::from_str("apikey"), value: self.api_key.clone() });
        headers.push(Header { name: String::from_str("Authorization"), value: self.bearer_value() });
        headers.push(
            Header {
                name: String::from_str("Content-Type"),
                value: String::from_str("application/json"),
            },
        );
        headers.push(
            Header {
                name: String::from_str("Prefer"),
                value: String::from_str("return=representation"),
            },
        );
        let request = TableRequest { method: HttpMethod::Post, url, headers, has_body: true };
        proof {
            assert(header_texts(request.headers@) =~= seq![
                ("apikey"@, self.key()),
                ("Authorization"@, "Bearer "@ + self.bearer()),
                ("Content-Type"@, "application/json"@),
                ("Prefer"@, "return=representation"@),
            ]);
        }
        request
    }

    /// The request that selects from `table` the rows that meet `filters`.
    /// The token goes with it only where there is one.
    pub fn select_request(&self, table: &str, filters: &Vec<QueryFilter>) -> (request: TableRequest)
        ensures
            request.method == HttpMethod::Get,
            !request.has_body,
            request.url@ == table_url(self.base(), table@) + "?"@ + query_string(
                filters@,
                filters@.len(),
            ),
            header_texts(request.headers@) == if self.bearer().len() == 0 {
                seq![("apikey"@, self.key()), ("Content-Type"@, "application/json"@)]
            } else {
                seq![
                    ("apikey"@, self.key()),
                    ("Content-Type"@, "application/json"@),
                    ("Authorization"@, "Bearer "@ + self.bearer()),
                ]
            },
    {
        let mut url = self.base_url.clone();
        url.append("/rest/v1/");
        url.append(table);
        url.append("?");
        let ghost head = url@;
        let mut i: usize = 0;
        while i < filters.len()
            invariant
                0 <= i <= filters@.len(),
                url@ == head + query_string(filters@, i as nat),
            decreases filters@.len() - i,
        {
            if i > 0 {
                url.append("&");
            }
            url.append(filters[i].column.as_str());
            url.append("=");
            let encoded = percent_encode(filters[i].condition.as_str());
            url.append(encoded.as_str());
            proof {
                assert(url@ =~= head + query_string(filters@, (i + 1) as nat));
            }
            i = i + 1;
        }
        let mut headers: Vec<Header> = Vec::new();
        headers.push(Header { name: String::from_str("apikey"), value: self.api_key.clone() });
        headers.push(
            Header {
                name: String::from_str("Content-Type"),
                value: String::from_str("application/json"),
            },
        );
        if !self.token.as_str().is_empty() {
            headers.push(
                Header { name: String::from_str("Authorization"), value: self.bearer_value() },
            );
            proof {
                assert(header_texts(headers@) =~= seq![
                    ("apikey"@, self.key()),
                    ("Content-Type"@, "application/json"@),
                    ("Authorization"@, "Bearer "@ + self.bearer()),
                ]);
            }
        } else {
            proof {
                assert(header_texts(headers@) =~= seq![
                    ("apikey"@, self.key()),
                    ("Content-Type"@, "application/json"@),
                ]);
            }
        }
        TableRequest { method: HttpMethod::Get, url, headers, has_body: false }
    }

    /// Reads the answer to an insertion.
    pub fn insert_result(outcome: HttpOutcome) -> (result: Result<String, String>)
        ensures
            result_texts(result) == inserted(outcome),
    {
        match outcome {
            HttpOutcome::Failed { error } => {
                let mut text = String::from_str("Request error: ");
                text.append(error.as_str());
                Err(text)
            },
            HttpOutcome::Answered { status, body } => {
                if status >= 200 && status < 300 {
                    Ok(body)
                } else {
                    let mut text = String::from_str("HTTP ");
                    push_decimal(&mut text, status as u64);
                    text.append(": ");
                    text.append(body.as_str());
                    Err(text)
                }
            },
        }
    }

    /// Reads the answer to a selection.
    pub fn select_result(outcome: HttpOutcome) -> (result: Result<String, String>)
        ensures
            result_texts(result) == selected(outcome),
    {
        match outcome {
            HttpOutcome::Failed { error } => Err(error),
            HttpOutcome::Answered { status, body } => {
                if status >= 200 && status < 300 {
                    Ok(body)
                } else {
                    let mut text = String::from_str("Supabase error: ");
                    push_decimal(&mut text, status as u64);
                    text.append(" - ");
                    text.append(body.as_str());
                    Err(text)
                }
            },
        }
    }
}

} // verus!
