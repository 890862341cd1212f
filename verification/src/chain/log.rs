//! A raw EVM log as the RPC reports it, and reading its ABI words.

use vstd::prelude::*;
use crate::primitives::{Address, B256};

verus! {

/// One EVM log: topics, data, and where it sits in the chain.
#[derive(Clone, Debug)]
pub struct LogRecord {
    pub topics: Vec<B256>,
    pub data: Vec<u8>,
    pub block_number: Option<u64>,
    pub transaction_hash: Option<B256>,
    pub log_index: Option<u64>,
}

/// The `i`-th 32-byte word of ABI data.
pub open spec fn word_at(data: Seq<u8>, i: int) -> Seq<u8> {
    data.subrange(32 * i, 32 * i + 32)
}

/// The address packed in the low 20 bytes of a word.
pub open spec fn word_address(word: Seq<u8>) -> Seq<u8> {
    word.subrange(12, 32)
}

impl LogRecord {
    /// The first topic's bytes, when there is one.
    pub open spec fn topic0_is(&self, hash: Seq<u8>) -> bool {
        self.topics@.len() > 0 && self.topics@[0].bytes@ == hash
    }

    /// The log has exactly `n_topics` topics and at least `n_words` data words.
    pub open spec fn has_layout(&self, n_topics: nat, n_words: nat) -> bool {
        self.topics@.len() == n_topics && self.data@.len() >= 32 * n_words
    }

    /// The address packed in topic `i`.
    pub open spec fn topic_address(&self, i: int) -> Seq<u8> {
        word_address(self.topics@[i].bytes@)
    }

    /// Data word `i`.
    pub open spec fn word(&self, i: int) -> Seq<u8> {
        word_at(self.data@, i)
    }

    /// The first topic (the event signature hash of a non-anonymous event).
    pub fn topic0(&self) -> (r: Option<B256>)
        ensures
            self.topics@.len() == 0 ==> r is None,
            self.topics@.len() > 0 ==> r == Some(self.topics@[0]),
    {
        if self.topics.len() == 0 {
            None
        } else {
            Some(self.topics[0])
        }
    }

    /// Data word `i`.
    pub fn read_word(&self, i: usize) -> (w: [u8; 32])
        requires
            32 * i + 32 <= self.data@.len(),
        ensures
            w@ == self.word(i as int),
    {
        let n = self.data.len();
        assert(32 * i + 32 <= n);
        let start = 32 * i;
        let mut w = [0u8; 32];
        let mut k: usize = 0;
        while k < 32
            invariant
                k <= 32,
                start == 32 * i,
                start + 32 <= self.data@.len(),
                forall|j: int| 0 <= j < k ==> w@[j] == self.data@[start + j],
            decreases 32 - k,
        {
            w[k] = self.data[start + k];
            k = k + 1;
        }
        assert(w@ =~= self.word(i as int));
        w
    }

    /// The address in data word `i`.
    pub fn read_address(&self, i: usize) -> (a: Address)
        requires
            32 * i + 32 <= self.data@.len(),
        ensures
            a.bytes@ == word_address(self.word(i as int)),
    {
        let w = self.read_word(i);
        Address::from_word(&w)
    }

    /// The address in topic `i`.
    pub fn read_topic_address(&self, i: usize) -> (a: Address)
        requires
            i < self.topics@.len(),
        ensures
            a.bytes@ == self.topic_address(i as int),
    {
        Address::from_word(&self.topics[i].bytes)
    }
}

} // verus!
