//! The requests that hand transactions over to the server.
use bitcoin::Transaction;
use vstd::prelude::*;
use vstd::utf8::{decode_utf8, encode_utf8, encode_utf8_decode_utf8, encode_utf8_valid_utf8, valid_utf8};

use crate::client::AsyncClient;
use crate::decimal::{decimal, decimal_text};
use crate::error::{json_or_error, Error};
use crate::ext::chain::{
    btc_text, btc_to_string, sat_per_vb_ceil, serialize_transaction, serialize_transaction_hex,
    to_lower_hex, transaction_bytes,
};
use crate::ext::json::{is_plain, json_items, json_list, string_list_to_json};
use crate::hex::{hex_bytes, hex_text, is_hex_text, law_hex_reads_back};
use crate::request::{post, query_texts, Request};
use crate::sleeper::Sleeper;

verus! {

/// The highest fee rate that can be asked for, in satoshis per thousand weight
/// units, for it to be rounded up in 64 bits.
pub const MAX_FEE_RATE: u64 = 18446744073709551366;

/// The text in which a transaction is handed over.
pub open spec fn transaction_text(transaction: Transaction) -> Seq<char> {
    hex_text(transaction_bytes(transaction))
}

/// The text in which transactions are handed over together.
pub open spec fn package_text(transactions: Seq<Transaction>) -> Seq<char> {
    json_list(transactions.map_values(|transaction: Transaction| transaction_text(transaction)))
}

/// A fee rate in satoshis per virtual byte, rounded up, from satoshis per
/// thousand weight units.
pub open spec fn rate_per_vbyte(sat_per_kwu: u64) -> nat {
    ((sat_per_kwu + 249) / 250) as nat
}

/// The query with which a package is handed over: the highest fee rate in
/// satoshis per virtual byte, if there is one, and the most that may be burnt,
/// if there is a limit.
pub open spec fn limits_query(
    maxfeerate: Option<nat>,
    maxburnamount: Option<Seq<char>>,
) -> Seq<(Seq<char>, Seq<char>)> {
    (match maxfeerate {
        Some(rate) => seq![("maxfeerate"@, decimal_text(rate))],
        None => Seq::empty(),
    }) + (match maxburnamount {
        Some(amount) => seq![("maxburnamount"@, amount)],
        None => Seq::empty(),
    })
}

/// The query of the limits that a package is handed over with: a fee rate in
/// satoshis per virtual byte and the text of an amount.
pub fn limits(maxfeerate: Option<u64>, maxburnamount: Option<String>) -> (query: Vec<
    (String, String),
>)
    ensures
        query_texts(query@) == limits_query(
            match maxfeerate {
                Some(rate) => Some(rate as nat),
                None => None,
            },
            match maxburnamount {
                Some(amount) => Some(amount@),
                None => None,
            },
        ),
        query@.len() == (if maxfeerate is Some {
            1int
        } else {
            0
        }) + (if maxburnamount is Some {
            1int
        } else {
            0
        }),
        maxfeerate matches Some(rate) ==> query@[0].0@ == "maxfeerate"@ && query@[0].1@
            == decimal_text(rate as nat),
        maxburnamount matches Some(amount) ==> query@.last().0@ == "maxburnamount"@
            && query@.last().1@ == amount@,
{
    let mut query: Vec<(String, String)> = Vec::new();
    if let Some(rate) = maxfeerate {
        query.push(("maxfeerate".to_owned(), decimal(rate)));
    }
    if let Some(amount) = maxburnamount {
        query.push(("maxburnamount".to_owned(), amount));
    }
    query
}

/// JSON writes hexadecimal text as it is.
proof fn lemma_hex_is_plain(bytes: Seq<u8>)
    ensures
        is_plain(hex_text(bytes)),
{
    assert forall|i: int| 0 <= i < hex_text(bytes).len() implies crate::ext::json::is_unescaped(
        #[trigger] hex_text(bytes)[i],
    ) by {
        let b = bytes[i / 2] as int;
        assert(0 <= b / 16 < 16 && 0 <= b % 16 < 16);
    }
}

/// The texts of transactions, one after the other.
fn transaction_texts(transactions: &[Transaction]) -> (texts: Vec<String>)
    ensures
        texts@.map_values(|t: String| t@) == transactions@.map_values(
            |transaction: Transaction| transaction_text(transaction),
        ),
        forall|i: int| 0 <= i < texts@.len() ==> is_plain(#[trigger] texts@[i]@),
{
    let mut texts: Vec<String> = Vec::new();
    let mut i: usize = 0;
    while i < transactions.len()
        invariant
            i <= transactions@.len(),
            texts@.len() == i,
            forall|j: int|
                0 <= j < i ==> #[trigger] texts@[j]@ == transaction_text(transactions@[j])
                    && is_plain(texts@[j]@),
        decreases transactions.len() - i,
    {
        texts.push(serialize_transaction_hex(&transactions[i]));
        proof {
            lemma_hex_is_plain(transaction_bytes(transactions@[i as int]));
        }
        i = i + 1;
    }
    texts
}

/// The bytes of the JSON list of texts that JSON writes as they are.
pub fn package_body(texts: &Vec<String>) -> (r: Result<Vec<u8>, Error>)
    requires
        forall|i: int| 0 <= i < texts@.len() ==> is_plain(#[trigger] texts@[i]@),
    ensures
        r matches Ok(body) && body@ == encode_utf8(json_list(texts@.map_values(|t: String| t@))),
{
    match json_or_error(string_list_to_json(texts)) {
        Ok(text) => Ok(text.as_str().as_bytes_vec()),
        Err(e) => Err(e),
    }
}

impl<S: Sleeper> AsyncClient<S> {
    /// Hands a transaction over, as the hexadecimal text of its encoding.
    pub fn broadcast(&self, transaction: &Transaction) -> (request: Request)
        ensures
            request.is_post(
                self.base_url(),
                "/tx"@,
                encode_utf8(transaction_text(*transaction)),
                Seq::empty(),
            ),
            request.body@ == encode_utf8(hex_text(transaction_bytes(*transaction))),
            request.query@.len() == 0,
    {
        let bytes = serialize_transaction(transaction);
        let text = to_lower_hex(bytes.as_slice());
        let query: Vec<(String, String)> = Vec::new();
        assert(query_texts(query@) =~= Seq::empty());
        post(self.url(), "/tx", text.as_str().as_bytes_vec(), query)
    }

    /// Hands transactions over together, as a JSON list of the hexadecimal texts
    /// of their encodings.
    ///
    /// `maxfeerate` is in satoshis per thousand weight units, `maxburnamount` in
    /// satoshis.
    pub fn submit_package(
        &self,
        transactions: &[Transaction],
        maxfeerate: Option<u64>,
        maxburnamount: Option<u64>,
    ) -> (r: Result<Request, Error>)
        requires
            maxfeerate matches Some(rate) ==> rate <= MAX_FEE_RATE,
        ensures
            r matches Ok(request) && request.is_post(
                self.base_url(),
                "/txs/package"@,
                encode_utf8(package_text(transactions@)),
                limits_query(
                    match maxfeerate {
                        Some(rate) => Some(rate_per_vbyte(rate)),
                        None => None,
                    },
                    match maxburnamount {
                        Some(amount) => Some(btc_text(amount)),
                        None => None,
                    },
                ),
            ),
            r matches Ok(request) ==> request.query@.len() == (if maxfeerate is Some {
                1int
            } else {
                0
            }) + (if maxburnamount is Some {
                1int
            } else {
                0
            }),
            r matches Ok(request) ==> maxfeerate matches Some(rate) ==> request.query@[0].0@
                == "maxfeerate"@ && request.query@[0].1@ == decimal_text(
                ((rate + 249) / 250) as nat,
            ),
            r matches Ok(request) ==> maxburnamount matches Some(amount) ==> request.query@.last().0@
                == "maxburnamount"@ && request.query@.last().1@ == btc_text(amount),
    {
        let texts = transaction_texts(transactions);
        let rate: Option<u64> = match maxfeerate {
            Some(rate) => Some(sat_per_vb_ceil(rate)),
            None => None,
        };
        let amount: Option<String> = match maxburnamount {
            Some(amount) => Some(btc_to_string(amount)),
            None => None,
        };
        match package_body(&texts) {
            Ok(body) => Ok(post(self.url(), "/txs/package", body, limits(rate, amount))),
            Err(e) => Err(e),
        }
    }
}

/// The server can read back what was handed over: the text of a transaction
/// stands for the bytes of its encoding, and the bytes of the body for the text.
pub proof fn law_broadcast_reads_back(transaction: Transaction)
    ensures
        ({
            let body = encode_utf8(transaction_text(transaction));
            &&& valid_utf8(body)
            &&& is_hex_text(decode_utf8(body))
            &&& hex_bytes(decode_utf8(body)) == transaction_bytes(transaction)
        }),
{
    encode_utf8_valid_utf8(transaction_text(transaction));
    encode_utf8_decode_utf8(transaction_text(transaction));
    law_hex_reads_back(transaction_bytes(transaction));
}

/// A package lists its transactions in their order, each in double quotes as it
/// would be broadcast alone.
pub proof fn law_package_lists_in_order(transactions: Seq<Transaction>, transaction: Transaction)
    ensures
        ({
            let texts = transactions.map_values(|t: Transaction| transaction_text(t));
            let before = if transactions.len() == 0 {
                Seq::empty()
            } else {
                json_items(texts) + seq![',']
            };
            package_text(transactions.push(transaction)) == seq!['['] + before + seq!['"']
                + transaction_text(transaction) + seq!['"', ']']
        }),
{
    let texts = transactions.map_values(|t: Transaction| transaction_text(t));
    let longer = transactions.push(transaction).map_values(|t: Transaction| transaction_text(t));
    assert(longer.drop_last() =~= texts);
    assert(longer.last() == transaction_text(transaction));
}

/// A rate in satoshis per virtual byte is the least whole one that is not below
/// the rate that was asked for.
pub proof fn law_rate_is_rounded_up(sat_per_kwu: u64)
    ensures
        250 * rate_per_vbyte(sat_per_kwu) >= sat_per_kwu,
        250 * (rate_per_vbyte(sat_per_kwu) - 1) < sat_per_kwu,
{
}

/// Each limit that is given goes into the query, whatever the other is, and
/// nothing else does: the fee rate as the decimal text that reads back as it,
/// the most that may be burnt as the text of the amount.
pub proof fn law_query_holds_each_limit(
    maxfeerate: Option<nat>,
    maxburnamount: Option<Seq<char>>,
    rate: nat,
    amount: Seq<char>,
)
    ensures
        limits_query(Some(rate), maxburnamount).contains(("maxfeerate"@, decimal_text(rate))),
        limits_query(maxfeerate, Some(amount)).contains(("maxburnamount"@, amount)),
        forall|value: Seq<char>|
            limits_query(maxfeerate, maxburnamount).contains(("maxfeerate"@, value)) ==> (
            maxfeerate matches Some(given) && value == decimal_text(given)),
        forall|value: Seq<char>|
            limits_query(maxfeerate, maxburnamount).contains(("maxburnamount"@, value))
                ==> maxburnamount == Some(value),
        limits_query(None, None).len() == 0,
        limits_query(Some(rate), None).len() == 1,
        limits_query(None, Some(amount)).len() == 1,
        limits_query(Some(rate), Some(amount)).len() == 2,
{
    reveal_strlit("maxfeerate");
    reveal_strlit("maxburnamount");
    assert("maxfeerate"@.len() != "maxburnamount"@.len());
    let rated = limits_query(Some(rate), maxburnamount);
    assert(rated[0] == ("maxfeerate"@, decimal_text(rate)));
    let burning = limits_query(maxfeerate, Some(amount));
    assert(burning[burning.len() - 1] == ("maxburnamount"@, amount));
}

/// A transaction is handed over as the text that reads back as its encoding, all
/// of it.
pub proof fn law_transaction_text_holds_the_encoding(transaction: Transaction)
    ensures
        transaction_text(transaction).len() == 2 * transaction_bytes(transaction).len(),
        is_hex_text(transaction_text(transaction)),
        hex_bytes(transaction_text(transaction)) == transaction_bytes(transaction),
        transaction_text(transaction) == hex_text(transaction_bytes(transaction)),
{
    law_hex_reads_back(transaction_bytes(transaction));
}

/// No transactions make an empty list. One more transaction at the end changes
/// nothing but what stands before the closing bracket: there it comes in double
/// quotes, behind a comma if it is not the first.
pub proof fn law_package_grows_at_the_end(transactions: Seq<Transaction>, transaction: Transaction)
    ensures
        package_text(Seq::empty()) == "[]"@,
        package_text(transactions).len() > 0,
        package_text(transactions.push(transaction)) == package_text(transactions).drop_last() + (
        if transactions.len() == 0 {
            Seq::empty()
        } else {
            ","@
        }) + "\""@ + hex_text(transaction_bytes(transaction)) + "\"]"@,
{
    reveal_strlit("[]");
    reveal_strlit(",");
    reveal_strlit("\"");
    reveal_strlit("\"]");
    let none = Seq::<Transaction>::empty().map_values(|t: Transaction| transaction_text(t));
    assert(none.len() == 0);
    assert(package_text(Seq::empty()) =~= "[]"@);
    law_package_lists_in_order(transactions, transaction);
    let texts = transactions.map_values(|t: Transaction| transaction_text(t));
    assert(package_text(transactions).drop_last() =~= seq!['['] + json_items(texts));
    assert(package_text(transactions.push(transaction)) =~= package_text(
        transactions,
    ).drop_last() + (if transactions.len() == 0 {
        Seq::empty()
    } else {
        ","@
    }) + "\""@ + hex_text(transaction_bytes(transaction)) + "\"]"@);
}

/// Every fee rate can be asked for that can be rounded up in 64 bits.
pub proof fn law_fee_rates_are_bounded_by_rounding()
    ensures
        MAX_FEE_RATE + 249 == u64::MAX,
{
}

} // verus!
