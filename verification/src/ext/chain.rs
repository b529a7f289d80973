//! Types and functions of the bitcoin crate.
use bitcoin::block::Header as BlockHeader;
use bitcoin::consensus::encode::{self, Error as EncodeError};
use bitcoin::hashes::sha256;
use bitcoin::hex::{DisplayHex, FromHex, HexToArrayError, HexToBytesError};
use bitcoin::{Amount, Block, BlockHash, FeeRate, MerkleBlock, Script, Transaction, Txid};
use vstd::prelude::*;

use crate::hex::{hash_bytes, hash_text, hex_bytes, hex_text, is_hash_text, is_hex_text};

verus! {

#[verifier::external_type_specification]
#[verifier::external_body]
pub struct ExTxid(Txid);

#[verifier::external_type_specification]
#[verifier::external_body]
pub struct ExBlockHash(BlockHash);

#[verifier::external_type_specification]
#[verifier::external_body]
pub struct ExTransaction(Transaction);

#[verifier::external_type_specification]
#[verifier::external_body]
pub struct ExBlock(Block);

#[verifier::external_type_specification]
#[verifier::external_body]
pub struct ExBlockHeader(BlockHeader);

#[verifier::external_type_specification]
#[verifier::external_body]
pub struct ExMerkleBlock(MerkleBlock);

#[verifier::external_type_specification]
#[verifier::external_body]
pub struct ExScript(Script);

#[verifier::external_type_specification]
#[verifier::external_body]
pub struct ExEncodeError(EncodeError);

#[verifier::external_type_specification]
#[verifier::external_body]
pub struct ExHexToArrayError(HexToArrayError);

#[verifier::external_type_specification]
#[verifier::external_body]
pub struct ExHexToBytesError(HexToBytesError);

/// The 32 bytes that a transaction id holds.
pub uninterp spec fn txid_bytes(txid: Txid) -> Seq<u8>;

/// The 32 bytes that a block hash holds.
pub uninterp spec fn block_hash_bytes(hash: BlockHash) -> Seq<u8>;

/// The bytes that a script holds.
pub uninterp spec fn script_bytes(script: &Script) -> Seq<u8>;

/// The consensus encoding of a transaction.
pub uninterp spec fn transaction_bytes(transaction: Transaction) -> Seq<u8>;

/// The SHA-256 digest of bytes.
pub uninterp spec fn sha256_digest(bytes: Seq<u8>) -> Seq<u8>;

/// The text of an amount of satoshis in bitcoin, as a floating point number writes it.
pub uninterp spec fn btc_text(sats: u64) -> Seq<char>;

/// The error with which `Txid::from_str` refuses a text.
pub uninterp spec fn txid_error(text: Seq<char>) -> HexToArrayError;

/// The error with which `BlockHash::from_str` refuses a text.
pub uninterp spec fn block_hash_error(text: Seq<char>) -> HexToArrayError;

/// The error with which `Vec::<u8>::from_hex` refuses a text.
pub uninterp spec fn hex_error(text: Seq<char>) -> HexToBytesError;

/// What `consensus::deserialize` reads from bytes as a transaction.
pub uninterp spec fn decoded_transaction(bytes: Seq<u8>) -> Result<Transaction, EncodeError>;

/// What `consensus::deserialize` reads from bytes as a block.
pub uninterp spec fn decoded_block(bytes: Seq<u8>) -> Result<Block, EncodeError>;

/// What `consensus::deserialize` reads from bytes as a block header.
pub uninterp spec fn decoded_header(bytes: Seq<u8>) -> Result<BlockHeader, EncodeError>;

/// What `consensus::deserialize` reads from bytes as a merkle block.
pub uninterp spec fn decoded_merkle_block(bytes: Seq<u8>) -> Result<MerkleBlock, EncodeError>;

/// Whether `txid` is the transaction id that holds `bytes`, of which there is
/// one only.
pub open spec fn is_txid_of(txid: Txid, bytes: Seq<u8>) -> bool {
    &&& txid_bytes(txid) == bytes
    &&& forall|other: Txid| #[trigger] txid_bytes(other) == bytes ==> other == txid
}

/// Whether `hash` is the block hash that holds `bytes`, of which there is one
/// only.
pub open spec fn is_block_hash_of(hash: BlockHash, bytes: Seq<u8>) -> bool {
    &&& block_hash_bytes(hash) == bytes
    &&& forall|other: BlockHash| #[trigger] block_hash_bytes(other) == bytes ==> other == hash
}

/// Calls `Display` of `bitcoin::Txid`: 64 hexadecimal digits, the last byte first.
#[verifier::external_body]
pub(crate) fn txid_to_string(txid: &Txid) -> (s: String)
    ensures
        s@ == hash_text(txid_bytes(*txid)),
        s@.len() == 64,
{
    txid.to_string()
}

/// Calls `Display` of `bitcoin::BlockHash`: 64 hexadecimal digits, the last byte first.
#[verifier::external_body]
pub(crate) fn block_hash_to_string(hash: &BlockHash) -> (s: String)
    ensures
        s@ == hash_text(block_hash_bytes(*hash)),
        s@.len() == 64,
{
    hash.to_string()
}

/// Calls `Txid::from_str`: accepts 64 hexadecimal digits of either case, the
/// last byte first, gives the one id that holds these bytes, and refuses any
/// other text with an error that depends on the text alone.
#[verifier::external_body]
pub(crate) fn txid_from_str(text: &str) -> (r: Result<Txid, HexToArrayError>)
    ensures
        r is Ok <==> is_hash_text(text@),
        r matches Ok(txid) ==> is_txid_of(txid, hash_bytes(text@)),
        r matches Err(e) ==> e == txid_error(text@),
{
    std::str::FromStr::from_str(text)
}

/// Calls `BlockHash::from_str`: accepts 64 hexadecimal digits of either case,
/// the last byte first, gives the one hash that holds these bytes, and refuses
/// any other text with an error that depends on the text alone.
#[verifier::external_body]
pub(crate) fn block_hash_from_str(text: &str) -> (r: Result<BlockHash, HexToArrayError>)
    ensures
        r is Ok <==> is_hash_text(text@),
        r matches Ok(hash) ==> is_block_hash_of(hash, hash_bytes(text@)),
        r matches Err(e) ==> e == block_hash_error(text@),
{
    std::str::FromStr::from_str(text)
}

/// Calls `Script::as_bytes`: the bytes that the script holds.
#[verifier::external_body]
pub(crate) fn script_as_bytes(script: &Script) -> (bytes: &[u8])
    ensures
        bytes@ == script_bytes(script),
{
    script.as_bytes()
}

/// Calls `sha256::Hash::hash`: the 32 bytes of the digest, which depends on the
/// bytes alone.
#[verifier::external_body]
pub(crate) fn sha256(bytes: &[u8]) -> (digest: [u8; 32])
    ensures
        digest@ == sha256_digest(bytes@),
{
    bitcoin::hashes::Hash::to_byte_array(<sha256::Hash as bitcoin::hashes::Hash>::hash(bytes))
}

/// Calls `Display` of `sha256::Hash`: the digest in hexadecimal, the first byte
/// first.
#[verifier::external_body]
pub(crate) fn sha256_to_string(digest: [u8; 32]) -> (s: String)
    ensures
        s@ == hex_text(digest@),
{
    <sha256::Hash as bitcoin::hashes::Hash>::from_byte_array(digest).to_string()
}

/// Calls `consensus::serialize` for a transaction: the bytes depend on the
/// transaction alone.
#[verifier::external_body]
pub(crate) fn serialize_transaction(transaction: &Transaction) -> (bytes: Vec<u8>)
    ensures
        bytes@ == transaction_bytes(*transaction),
{
    encode::serialize::<Transaction>(transaction)
}

/// Calls `consensus::encode::serialize_hex` for a transaction: the lowercase
/// hexadecimal text of what `consensus::serialize` gives.
#[verifier::external_body]
pub(crate) fn serialize_transaction_hex(transaction: &Transaction) -> (s: String)
    ensures
        s@ == hex_text(transaction_bytes(*transaction)),
{
    encode::serialize_hex(transaction)
}

/// Calls `DisplayHex::to_lower_hex_string`: two lowercase hexadecimal digits per byte.
#[verifier::external_body]
pub(crate) fn to_lower_hex(bytes: &[u8]) -> (s: String)
    ensures
        s@ == hex_text(bytes@),
{
    bytes.to_lower_hex_string()
}

/// Calls `Vec::<u8>::from_hex`: reads pairs of hexadecimal digits of either
/// case, and refuses any other text with an error that depends on the text
/// alone.
#[verifier::external_body]
pub(crate) fn bytes_from_hex(text: &str) -> (r: Result<Vec<u8>, HexToBytesError>)
    ensures
        r is Ok <==> is_hex_text(text@),
        r matches Ok(bytes) ==> bytes@ == hex_bytes(text@),
        r matches Err(e) ==> e == hex_error(text@),
{
    Vec::<u8>::from_hex(text)
}

/// Calls `consensus::deserialize` for a transaction: what comes back depends on
/// the bytes alone.
#[verifier::external_body]
pub(crate) fn deserialize_transaction(bytes: &[u8]) -> (r: Result<Transaction, EncodeError>)
    ensures
        r == decoded_transaction(bytes@),
{
    encode::deserialize(bytes)
}

/// Calls `consensus::deserialize` for a block: what comes back depends on the
/// bytes alone.
#[verifier::external_body]
pub(crate) fn deserialize_block(bytes: &[u8]) -> (r: Result<Block, EncodeError>)
    ensures
        r == decoded_block(bytes@),
{
    encode::deserialize(bytes)
}

/// Calls `consensus::deserialize` for a block header: what comes back depends
/// on the bytes alone.
#[verifier::external_body]
pub(crate) fn deserialize_header(bytes: &[u8]) -> (r: Result<BlockHeader, EncodeError>)
    ensures
        r == decoded_header(bytes@),
{
    encode::deserialize(bytes)
}

/// Calls `consensus::deserialize` for a merkle block: what comes back depends
/// on the bytes alone.
#[verifier::external_body]
pub(crate) fn deserialize_merkle_block(bytes: &[u8]) -> (r: Result<MerkleBlock, EncodeError>)
    ensures
        r == decoded_merkle_block(bytes@),
{
    encode::deserialize(bytes)
}

/// Calls `FeeRate::to_sat_per_vb_ceil` on a rate in satoshis per thousand weight
/// units: the rate in satoshis per virtual byte, rounded up. A virtual byte is
/// four weight units.
#[verifier::external_body]
pub(crate) fn sat_per_vb_ceil(sat_per_kwu: u64) -> (sat_per_vb: u64)
    requires
        sat_per_kwu <= u64::MAX - 249,
    ensures
        sat_per_vb == (sat_per_kwu + 249) / 250,
{
    FeeRate::from_sat_per_kwu(sat_per_kwu).to_sat_per_vb_ceil()
}

/// Calls `Amount::to_btc` and writes the number out: the text depends on the
/// amount alone.
#[verifier::external_body]
pub(crate) fn btc_to_string(sats: u64) -> (s: String)
    ensures
        s@ == btc_text(sats),
{
    Amount::from_sat(sats).to_btc().to_string()
}

} // verus!
