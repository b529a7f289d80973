//! The request that each endpoint of the API takes.
use bitcoin::{BlockHash, Script, Txid};
use vstd::prelude::*;

use crate::address::Address;
use crate::client::AsyncClient;
use crate::decimal::{decimal, decimal_text, law_decimal_is_unique};
use crate::ext::chain::{
    block_hash_bytes, block_hash_to_string, script_as_bytes, script_bytes, sha256, sha256_digest,
    sha256_to_string, txid_bytes, txid_to_string,
};
use crate::hex::{
    all_hex_digits, hash_bytes, hash_text, hex_bytes, hex_text, law_hex_reads_back,
    law_reversed_hex_reads_back,
};
use crate::request::{get, surround, Request};
use crate::sleeper::Sleeper;

verus! {

/// The text under which a transaction is known.
pub open spec fn txid_text(txid: Txid) -> Seq<char> {
    hash_text(txid_bytes(txid))
}

/// The text under which a block is known.
pub open spec fn block_hash_text(hash: BlockHash) -> Seq<char> {
    hash_text(block_hash_bytes(hash))
}

/// The text under which a script is known: the SHA-256 digest of its bytes.
pub open spec fn script_hash_text(script: &Script) -> Seq<char> {
    hex_text(sha256_digest(script_bytes(script)))
}

/// The path of the transactions of what `owner` names: those behind
/// `last_seen`, or the newest ones.
pub open spec fn txs_path_text(owner: Seq<char>, last_seen: Option<Txid>) -> Seq<char> {
    match last_seen {
        Some(txid) => owner + "/txs/chain/"@ + txid_text(txid),
        None => owner + "/txs"@,
    }
}

/// The path of the blocks from `height` on, or from the tip on.
pub open spec fn blocks_path_text(height: Option<u32>) -> Seq<char> {
    match height {
        Some(height) => "/blocks/"@ + decimal_text(height as nat),
        None => "/blocks"@,
    }
}

/// The text under which a script is known.
fn script_hash(script: &Script) -> (s: String)
    ensures
        s@ == script_hash_text(script),
        s@ == hex_text(sha256_digest(script_bytes(script))),
        s@.len() == 64,
{
    sha256_to_string(sha256(script_as_bytes(script)))
}

/// The path of the transactions of what `owner` names.
pub fn txs_path(owner: &str, last_seen: Option<Txid>) -> (path: String)
    ensures
        path@ == txs_path_text(owner@, last_seen),
        match last_seen {
            Some(txid) => path@ == owner@ + "/txs/chain/"@ + hash_text(txid_bytes(txid)),
            None => path@ == owner@ + "/txs"@,
        },
{
    match last_seen {
        Some(txid) => surround(owner, "/txs/chain/", txid_to_string(&txid).as_str()),
        None => {
            let mut path = owner.to_owned();
            path.append("/txs");
            path
        },
    }
}

/// The path of the blocks from `height` on, or from the tip on.
pub fn blocks_path(height: Option<u32>) -> (path: String)
    ensures
        path@ == blocks_path_text(height),
        match height {
            Some(height) => path@ == "/blocks/"@ + decimal_text(height as nat),
            None => path@ == "/blocks"@,
        },
{
    match height {
        Some(height) => {
            let mut path = "/blocks/".to_owned();
            path.append(decimal(height as u64).as_str());
            path
        },
        None => "/blocks".to_owned(),
    }
}

impl<S: Sleeper> AsyncClient<S> {
    /// Asks for the path `/tx/{txid}` with `suffix` behind it.
    fn get_of_tx(&self, txid: &Txid, suffix: &str) -> (request: Request)
        ensures
            request.is_get(self.base_url(), "/tx/"@ + txid_text(*txid) + suffix@),
    {
        get(self.url(), surround("/tx/", txid_to_string(txid).as_str(), suffix))
    }

    /// Asks for the path `/block/{hash}` with `suffix` behind it.
    fn get_of_block(&self, hash: &BlockHash, suffix: &str) -> (request: Request)
        ensures
            request.is_get(self.base_url(), "/block/"@ + block_hash_text(*hash) + suffix@),
    {
        get(self.url(), surround("/block/", block_hash_to_string(hash).as_str(), suffix))
    }

    /// Asks for the path `/scripthash/{hash}` with `suffix` behind it.
    fn get_of_script(&self, script: &Script, suffix: &str) -> (request: Request)
        ensures
            request.is_get(
                self.base_url(),
                "/scripthash/"@ + script_hash_text(script) + suffix@,
            ),
            request.path@ == "/scripthash/"@ + hex_text(sha256_digest(script_bytes(script)))
                + suffix@,
            script_hash_text(script).len() == 64,
    {
        get(self.url(), surround("/scripthash/", script_hash(script).as_str(), suffix))
    }

    /// Asks for a raw transaction.
    pub fn get_tx(&self, txid: &Txid) -> (request: Request)
        ensures
            request.is_get(self.base_url(), "/tx/"@ + txid_text(*txid) + "/raw"@),
    {
        self.get_of_tx(txid, "/raw")
    }

    /// Asks for a raw transaction that should exist.
    pub fn get_tx_no_opt(&self, txid: &Txid) -> (request: Request)
        ensures
            request.is_get(self.base_url(), "/tx/"@ + txid_text(*txid) + "/raw"@),
    {
        self.get_tx(txid)
    }

    /// Asks for the id of the transaction at position `index` of a block.
    pub fn get_txid_at_block_index(&self, block_hash: &BlockHash, index: usize) -> (request: Request)
        ensures
            request.is_get(
                self.base_url(),
                "/block/"@ + block_hash_text(*block_hash) + "/txid/"@ + decimal_text(index as nat),
            ),
    {
        let mut path = surround("/block/", block_hash_to_string(block_hash).as_str(), "/txid/");
        path.append(decimal(index as u64).as_str());
        get(self.url(), path)
    }

    /// Asks whether and where a transaction is confirmed.
    pub fn get_tx_status(&self, txid: &Txid) -> (request: Request)
        ensures
            request.is_get(self.base_url(), "/tx/"@ + txid_text(*txid) + "/status"@),
    {
        self.get_of_tx(txid, "/status")
    }

    /// Asks for a transaction with what the server knows about it.
    pub fn get_tx_info(&self, txid: &Txid) -> (request: Request)
        ensures
            request.is_get(self.base_url(), "/tx/"@ + txid_text(*txid)),
    {
        proof {
            reveal_strlit("");
            assert("/tx/"@ + txid_text(*txid) + ""@ =~= "/tx/"@ + txid_text(*txid));
        }
        self.get_of_tx(txid, "")
    }

    /// Asks which outputs of a transaction are spent.
    pub fn get_tx_outspends(&self, txid: &Txid) -> (request: Request)
        ensures
            request.is_get(self.base_url(), "/tx/"@ + txid_text(*txid) + "/outspends"@),
    {
        self.get_of_tx(txid, "/outspends")
    }

    /// Asks for the header of a block.
    pub fn get_header_by_hash(&self, block_hash: &BlockHash) -> (request: Request)
        ensures
            request.is_get(
                self.base_url(),
                "/block/"@ + block_hash_text(*block_hash) + "/header"@,
            ),
    {
        self.get_of_block(block_hash, "/header")
    }

    /// Asks whether a block is part of the best chain.
    pub fn get_block_status(&self, block_hash: &BlockHash) -> (request: Request)
        ensures
            request.is_get(
                self.base_url(),
                "/block/"@ + block_hash_text(*block_hash) + "/status"@,
            ),
    {
        self.get_of_block(block_hash, "/status")
    }

    /// Asks for a whole block.
    pub fn get_block_by_hash(&self, block_hash: &BlockHash) -> (request: Request)
        ensures
            request.is_get(self.base_url(), "/block/"@ + block_hash_text(*block_hash) + "/raw"@),
    {
        self.get_of_block(block_hash, "/raw")
    }

    /// Asks for a proof that a transaction is part of a block.
    pub fn get_merkle_proof(&self, tx_hash: &Txid) -> (request: Request)
        ensures
            request.is_get(self.base_url(), "/tx/"@ + txid_text(*tx_hash) + "/merkle-proof"@),
    {
        self.get_of_tx(tx_hash, "/merkle-proof")
    }

    /// Asks for a merkle block that proves that a transaction is part of a block.
    pub fn get_merkle_block(&self, tx_hash: &Txid) -> (request: Request)
        ensures
            request.is_get(self.base_url(), "/tx/"@ + txid_text(*tx_hash) + "/merkleblock-proof"@),
    {
        self.get_of_tx(tx_hash, "/merkleblock-proof")
    }

    /// Asks whether one output of a transaction is spent.
    pub fn get_output_status(&self, txid: &Txid, index: u64) -> (request: Request)
        ensures
            request.is_get(
                self.base_url(),
                "/tx/"@ + txid_text(*txid) + "/outspend/"@ + decimal_text(index as nat),
            ),
    {
        let mut path = surround("/tx/", txid_to_string(txid).as_str(), "/outspend/");
        path.append(decimal(index).as_str());
        get(self.url(), path)
    }

    /// Asks for the height of the tip.
    pub fn get_height(&self) -> (request: Request)
        ensures
            request.is_get(self.base_url(), "/blocks/tip/height"@),
    {
        get(self.url(), "/blocks/tip/height".to_owned())
    }

    /// Asks for the hash of the tip.
    pub fn get_tip_hash(&self) -> (request: Request)
        ensures
            request.is_get(self.base_url(), "/blocks/tip/hash"@),
    {
        get(self.url(), "/blocks/tip/hash".to_owned())
    }

    /// Asks for the hash of the block at a height.
    pub fn get_block_hash(&self, block_height: u32) -> (request: Request)
        ensures
            request.is_get(
                self.base_url(),
                "/block-height/"@ + decimal_text(block_height as nat),
            ),
    {
        let mut path = "/block-height/".to_owned();
        path.append(decimal(block_height as u64).as_str());
        get(self.url(), path)
    }

    /// Asks for statistics about an address.
    pub fn get_address_stats(&self, address: &Address) -> (request: Request)
        ensures
            request.is_get(self.base_url(), "/address/"@ + address@),
            request.path@ == "/address/"@ + address.text@,
    {
        let mut path = "/address/".to_owned();
        path.append(address.text.as_str());
        get(self.url(), path)
    }

    /// Asks for statistics about a script.
    pub fn get_scripthash_stats(&self, script: &Script) -> (request: Request)
        ensures
            request.is_get(self.base_url(), "/scripthash/"@ + script_hash_text(script)),
            request.path@ == "/scripthash/"@ + hex_text(sha256_digest(script_bytes(script))),
            script_hash_text(script).len() == 64,
    {
        proof {
            reveal_strlit("");
            assert("/scripthash/"@ + script_hash_text(script) + ""@ =~= "/scripthash/"@
                + script_hash_text(script));
        }
        self.get_of_script(script, "")
    }

    /// Asks for the transactions of an address: those behind `last_seen`, or the
    /// newest ones.
    pub fn get_address_txs(&self, address: &Address, last_seen: Option<Txid>) -> (request: Request)
        ensures
            request.is_get(self.base_url(), txs_path_text("/address/"@ + address@, last_seen)),
            match last_seen {
                Some(txid) => request.path@ == "/address/"@ + address.text@ + "/txs/chain/"@
                    + hash_text(txid_bytes(txid)),
                None => request.path@ == "/address/"@ + address.text@ + "/txs"@,
            },
    {
        let mut owner = "/address/".to_owned();
        owner.append(address.text.as_str());
        get(self.url(), txs_path(owner.as_str(), last_seen))
    }

    /// Asks for the transactions of an address that wait for confirmation.
    pub fn get_mempool_address_txs(&self, address: &Address) -> (request: Request)
        ensures
            request.is_get(self.base_url(), "/address/"@ + address@ + "/txs/mempool"@),
            request.path@ == "/address/"@ + address.text@ + "/txs/mempool"@,
    {
        get(self.url(), surround("/address/", address.text.as_str(), "/txs/mempool"))
    }

    /// Asks for the transactions of a script: those behind `last_seen`, or the
    /// newest ones.
    pub fn get_scripthash_txs(&self, script: &Script, last_seen: Option<Txid>) -> (request: Request)
        ensures
            request.is_get(
                self.base_url(),
                txs_path_text("/scripthash/"@ + script_hash_text(script), last_seen),
            ),
            match last_seen {
                Some(txid) => request.path@ == "/scripthash/"@ + hex_text(
                    sha256_digest(script_bytes(script)),
                ) + "/txs/chain/"@ + hash_text(txid_bytes(txid)),
                None => request.path@ == "/scripthash/"@ + hex_text(
                    sha256_digest(script_bytes(script)),
                ) + "/txs"@,
            },
            script_hash_text(script).len() == 64,
    {
        let mut owner = "/scripthash/".to_owned();
        owner.append(script_hash(script).as_str());
        get(self.url(), txs_path(owner.as_str(), last_seen))
    }

    /// Asks for the transactions of a script that wait for confirmation.
    pub fn get_mempool_scripthash_txs(&self, script: &Script) -> (request: Request)
        ensures
            request.is_get(
                self.base_url(),
                "/scripthash/"@ + script_hash_text(script) + "/txs/mempool"@,
            ),
            request.path@ == "/scripthash/"@ + hex_text(sha256_digest(script_bytes(script)))
                + "/txs/mempool"@,
            script_hash_text(script).len() == 64,
    {
        self.get_of_script(script, "/txs/mempool")
    }

    /// Asks for statistics about the mempool.
    pub fn get_mempool_stats(&self) -> (request: Request)
        ensures
            request.is_get(self.base_url(), "/mempool"@),
    {
        get(self.url(), "/mempool".to_owned())
    }

    /// Asks for the transactions that came into the mempool last.
    pub fn get_mempool_recent_txs(&self) -> (request: Request)
        ensures
            request.is_get(self.base_url(), "/mempool/recent"@),
    {
        get(self.url(), "/mempool/recent".to_owned())
    }

    /// Asks for the ids of all transactions in the mempool.
    pub fn get_mempool_txids(&self) -> (request: Request)
        ensures
            request.is_get(self.base_url(), "/mempool/txids"@),
    {
        get(self.url(), "/mempool/txids".to_owned())
    }

    /// Asks for estimates of the fee rate for each confirmation target.
    pub fn get_fee_estimates(&self) -> (request: Request)
        ensures
            request.is_get(self.base_url(), "/fee-estimates"@),
    {
        get(self.url(), "/fee-estimates".to_owned())
    }

    /// Asks for a summary of a block.
    pub fn get_block_info(&self, blockhash: &BlockHash) -> (request: Request)
        ensures
            request.is_get(self.base_url(), "/block/"@ + block_hash_text(*blockhash)),
    {
        proof {
            reveal_strlit("");
            assert("/block/"@ + block_hash_text(*blockhash) + ""@ =~= "/block/"@
                + block_hash_text(*blockhash));
        }
        self.get_of_block(blockhash, "")
    }

    /// Asks for the ids of all transactions of a block.
    pub fn get_block_txids(&self, blockhash: &BlockHash) -> (request: Request)
        ensures
            request.is_get(self.base_url(), "/block/"@ + block_hash_text(*blockhash) + "/txids"@),
    {
        self.get_of_block(blockhash, "/txids")
    }

    /// Asks for the transactions of a block from position `start_index` on, or
    /// from the first on.
    pub fn get_block_txs(&self, blockhash: &BlockHash, start_index: Option<u32>) -> (request: Request)
        ensures
            request.is_get(
                self.base_url(),
                match start_index {
                    Some(start_index) => "/block/"@ + block_hash_text(*blockhash) + "/txs/"@
                        + decimal_text(start_index as nat),
                    None => "/block/"@ + block_hash_text(*blockhash) + "/txs"@,
                },
            ),
    {
        match start_index {
            Some(start_index) => {
                let mut path = surround(
                    "/block/",
                    block_hash_to_string(blockhash).as_str(),
                    "/txs/",
                );
                path.append(decimal(start_index as u64).as_str());
                get(self.url(), path)
            },
            None => self.get_of_block(blockhash, "/txs"),
        }
    }

    /// Asks for short summaries of blocks, from `height` on or from the tip on.
    pub fn get_blocks(&self, height: Option<u32>) -> (request: Request)
        ensures
            request.is_get(self.base_url(), blocks_path_text(height)),
            match height {
                Some(height) => request.path@ == "/blocks/"@ + decimal_text(height as nat),
                None => request.path@ == "/blocks"@,
            },
    {
        get(self.url(), blocks_path(height))
    }

    /// Asks for summaries of blocks, from `height` on or from the tip on.
    pub fn get_block_infos(&self, height: Option<u32>) -> (request: Request)
        ensures
            request.is_get(self.base_url(), blocks_path_text(height)),
            match height {
                Some(height) => request.path@ == "/blocks/"@ + decimal_text(height as nat),
                None => request.path@ == "/blocks"@,
            },
    {
        get(self.url(), blocks_path(height))
    }

    /// Asks for the unspent outputs of an address.
    pub fn get_address_utxos(&self, address: &Address) -> (request: Request)
        ensures
            request.is_get(self.base_url(), "/address/"@ + address@ + "/utxo"@),
            request.path@ == "/address/"@ + address.text@ + "/utxo"@,
    {
        get(self.url(), surround("/address/", address.text.as_str(), "/utxo"))
    }

    /// Asks for the unspent outputs of a script.
    pub fn get_scripthash_utxos(&self, script: &Script) -> (request: Request)
        ensures
            request.is_get(
                self.base_url(),
                "/scripthash/"@ + script_hash_text(script) + "/utxo"@,
            ),
            request.path@ == "/scripthash/"@ + hex_text(sha256_digest(script_bytes(script)))
                + "/utxo"@,
            script_hash_text(script).len() == 64,
    {
        self.get_of_script(script, "/utxo")
    }
}

/// The text under which a transaction is known says which one it is: read from
/// the last byte to the first, it gives back all bytes of the id.
pub proof fn law_txid_text_holds_the_id(txid: Txid)
    ensures
        txid_text(txid).len() == 2 * txid_bytes(txid).len(),
        all_hex_digits(txid_text(txid)),
        hash_bytes(txid_text(txid)) == txid_bytes(txid),
        txid_text(txid) == hash_text(txid_bytes(txid)),
{
    law_reversed_hex_reads_back(txid_bytes(txid));
}

/// The text under which a block is known says which one it is: read from the
/// last byte to the first, it gives back all bytes of the hash.
pub proof fn law_block_hash_text_holds_the_hash(hash: BlockHash)
    ensures
        block_hash_text(hash).len() == 2 * block_hash_bytes(hash).len(),
        all_hex_digits(block_hash_text(hash)),
        hash_bytes(block_hash_text(hash)) == block_hash_bytes(hash),
        block_hash_text(hash) == hash_text(block_hash_bytes(hash)),
{
    law_reversed_hex_reads_back(block_hash_bytes(hash));
}

/// The text under which a script is known reads back as the SHA-256 digest of
/// all bytes of the script, from the first to the last.
pub proof fn law_script_hash_text_is_the_digest(script: &Script)
    ensures
        script_hash_text(script).len() == 2 * sha256_digest(script_bytes(script)).len(),
        all_hex_digits(script_hash_text(script)),
        hex_bytes(script_hash_text(script)) == sha256_digest(script_bytes(script)),
        script_hash_text(script) == hex_text(sha256_digest(script_bytes(script))),
{
    law_hex_reads_back(sha256_digest(script_bytes(script)));
}

/// Scripts with the same bytes are asked for under the same text, and scripts
/// that are asked for under the same text have the same digest.
pub proof fn law_script_hash_text_goes_by_the_bytes(a: &Script, b: &Script)
    ensures
        script_bytes(a) == script_bytes(b) ==> script_hash_text(a) == script_hash_text(b),
        script_hash_text(a) == script_hash_text(b) ==> sha256_digest(script_bytes(a))
            == sha256_digest(script_bytes(b)),
{
    law_script_hash_text_is_the_digest(a);
    law_script_hash_text_is_the_digest(b);
}

/// The path of a page of transactions begins with the owner, whatever it is.
/// Without a last transaction `/txs` follows and nothing else. With one,
/// `/txs/chain/` follows, and what is left reads back as the id of that very
/// transaction.
pub proof fn law_page_follows_the_last_transaction(owner: Seq<char>, txid: Txid)
    ensures
        txs_path_text(owner, None) == owner + "/txs"@,
        txs_path_text(owner, Some(txid)) == owner + "/txs/chain/"@ + hash_text(txid_bytes(txid)),
        hash_bytes(txs_path_text(owner, Some(txid)).skip((owner + "/txs/chain/"@).len() as int))
            == txid_bytes(txid),
{
    let before = owner + "/txs/chain/"@;
    assert((before + txid_text(txid)).skip(before.len() as int) =~= txid_text(txid));
    law_txid_text_holds_the_id(txid);
}

/// Paging gets on: no page behind a transaction is the first page, and pages
/// behind different transactions have different paths.
pub proof fn law_pages_differ(owner: Seq<char>, a: Txid, b: Txid)
    ensures
        txs_path_text(owner, Some(a)) != txs_path_text(owner, None),
        txid_bytes(a) != txid_bytes(b) ==> txs_path_text(owner, Some(a)) != txs_path_text(
            owner,
            Some(b),
        ),
{
    law_page_follows_the_last_transaction(owner, a);
    law_page_follows_the_last_transaction(owner, b);
    reveal_strlit("/txs");
    reveal_strlit("/txs/chain/");
    assert(txs_path_text(owner, Some(a)).len() > txs_path_text(owner, None).len());
}

/// The blocks from a height on are asked for by that height in decimal, and
/// those from the tip on by none. Different heights have different paths.
pub proof fn law_blocks_follow_the_height(a: u32, b: u32)
    ensures
        blocks_path_text(None) == "/blocks"@,
        blocks_path_text(Some(a)) == "/blocks/"@ + decimal_text(a as nat),
        blocks_path_text(Some(a)) != blocks_path_text(None),
        a != b ==> blocks_path_text(Some(a)) != blocks_path_text(Some(b)),
{
    let prefix = "/blocks/"@;
    assert((prefix + decimal_text(a as nat)).skip(prefix.len() as int) =~= decimal_text(a as nat));
    assert((prefix + decimal_text(b as nat)).skip(prefix.len() as int) =~= decimal_text(b as nat));
    if decimal_text(a as nat) == decimal_text(b as nat) {
        law_decimal_is_unique(a as nat, b as nat);
    }
    reveal_strlit("/blocks");
    reveal_strlit("/blocks/");
    assert(blocks_path_text(Some(a)).len() > blocks_path_text(None).len());
}

} // verus!
