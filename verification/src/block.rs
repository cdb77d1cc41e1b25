//! Blocks of a proof-of-work chain: their canonical text, their hash, and
//! the test that makes a proof valid.

use vstd::prelude::*;
use vstd::string::*;
use vstd::utf8::encode_utf8;
use crate::hashing::{has_leading_zero_bits, sha256, sha256_digest, starts_with_zero_bits};
use crate::text::{decimal_text, hex_text, push_char, push_decimal, push_hex};

verus! {

/// One block of the chain. `proof` is `None` until the block is mined.
#[derive(Debug)]
pub struct Block {
    pub prev_hash: [u8; 32],
    pub generation: u64,
    pub difficulty: u8,
    pub data: String,
    pub proof: Option<u64>,
}

impl Clone for Block {
    fn clone(&self) -> (copy: Block)
        ensures
            copy == *self,
    {
        Block {
            prev_hash: self.prev_hash,
            generation: self.generation,
            difficulty: self.difficulty,
            data: self.data.clone(),
            proof: self.proof,
        }
    }
}

impl Block {
    /// The text that is hashed for `proof`: the predecessor's hash in
    /// hexadecimal, then generation, difficulty, data and proof, with a
    /// colon between each two.
    pub open spec fn spec_hash_string_for_proof(&self, proof: u64) -> Seq<char> {
        hex_text(self.prev_hash@) + seq![':'] + decimal_text(self.generation as nat) + seq![':']
            + decimal_text(self.difficulty as nat) + seq![':'] + self.data@ + seq![':']
            + decimal_text(proof as nat)
    }

    /// The hash that the block has under `proof`: the SHA-256 digest of the
    /// UTF-8 bytes of its text.
    pub open spec fn spec_hash_for_proof(&self, proof: u64) -> Seq<u8> {
        sha256(encode_utf8(self.spec_hash_string_for_proof(proof)))
    }

    /// Whether `proof` makes the block valid: its hash then starts with at
    /// least `difficulty` zero bits.
    pub open spec fn spec_is_valid_for_proof(&self, proof: u64) -> bool {
        has_leading_zero_bits(self.spec_hash_for_proof(proof), self.difficulty as nat)
    }

    /// Whether `self` and `other` are the same block, whatever their proofs.
    pub open spec fn same_content(&self, other: &Block) -> bool {
        &&& self.prev_hash == other.prev_hash
        &&& self.generation == other.generation
        &&& self.difficulty == other.difficulty
        &&& self.data == other.data
    }

    /// Whether `found` is what a scan of the proofs from `start` up to, not
    /// including, `end` finds: the least valid proof among them, or `None`
    /// where none of them is valid.
    pub open spec fn first_valid_is(&self, start: int, end: int, found: Option<u64>) -> bool {
        match found {
            Some(p) => {
                &&& start <= p < end
                &&& self.spec_is_valid_for_proof(p)
                &&& forall|q: u64| start <= q < p ==> !self.spec_is_valid_for_proof(q)
            },
            None => forall|q: u64| start <= q < end ==> !self.spec_is_valid_for_proof(q),
        }
    }

    /// The first block of a chain.
    pub fn initial(difficulty: u8) -> (b: Block)
        ensures
            b.prev_hash@ == Seq::new(32, |i: int| 0u8),
            b.generation == 0,
            b.difficulty == difficulty,
            b.data@ == Seq::<char>::empty(),
            b.proof is None,
    {
        let b = Block {
            prev_hash: [0u8;32],
            generation: 0,
            difficulty,
            data: String::new(),
            proof: None,
        };
        assert(b.prev_hash@ =~= Seq::new(32, |i: int| 0u8));
        b
    }

    /// A block that can follow the mined block `previous` in the chain.
    pub fn next(previous: &Block, data: String) -> (b: Block)
        requires
            previous.proof is Some,
            previous.generation < u64::MAX,
        ensures
            b.prev_hash@ == previous.spec_hash_for_proof(previous.proof.unwrap()),
            b.generation == previous.generation + 1,
            b.difficulty == previous.difficulty,
            b.data == data,
            b.proof is None,
    {
        Block {
            prev_hash: previous.hash(),
            generation: previous.generation + 1,
            difficulty: previous.difficulty,
            data,
            proof: None,
        }
    }

    /// The text that is hashed when the proof is set to `proof`.
    pub fn hash_string_for_proof(&self, proof: u64) -> (s: String)
        ensures
            s@ == self.spec_hash_string_for_proof(proof),
    {
        let mut s = String::new();
        push_hex(&mut s, self.prev_hash.as_slice());
        push_char(&mut s, ':');
        push_decimal(&mut s, self.generation);
        push_char(&mut s, ':');
        push_decimal(&mut s, self.difficulty as u64);
        push_char(&mut s, ':');
        s.append(self.data.as_str());
        push_char(&mut s, ':');
        push_decimal(&mut s, proof);
        assert(s@ =~= self.spec_hash_string_for_proof(proof));
        s
    }

    /// The text that is hashed for the block's own proof.
    pub fn hash_string(&self) -> (s: String)
        requires
            self.proof is Some,
        ensures
            s@ == self.spec_hash_string_for_proof(self.proof.unwrap()),
    {
        let p = self.proof.unwrap();
        self.hash_string_for_proof(p)
    }

    /// The block's hash as it is when the proof is set to `proof`.
    pub fn hash_for_proof(&self, proof: u64) -> (hash: [u8; 32])
        ensures
            hash@ == self.spec_hash_for_proof(proof),
    {
        let hash_str = self.hash_string_for_proof(proof);
        sha256_digest(hash_str.as_str().as_bytes())
    }

    /// The block's hash under its own proof.
    pub fn hash(&self) -> (hash: [u8; 32])
        requires
            self.proof is Some,
        ensures
            hash@ == self.spec_hash_for_proof(self.proof.unwrap()),
    {
        let p = self.proof.unwrap();
        self.hash_for_proof(p)
    }

    /// Sets the block's proof, valid or not.
    pub fn set_proof(&mut self, proof: u64)
        ensures
            final(self).proof == Some(proof),
            final(self).same_content(old(self)),
    {
        self.proof = Some(proof);
    }

    /// Whether the block is valid when the proof is set to `proof`.
    pub fn is_valid_for_proof(&self, proof: u64) -> (valid: bool)
        ensures
            valid == self.spec_is_valid_for_proof(proof),
    {
        let hash = self.hash_for_proof(proof);
        starts_with_zero_bits(&hash, self.difficulty)
    }

    /// Whether the block is mined and its proof is valid.
    pub fn is_valid(&self) -> (valid: bool)
        ensures
            valid == (self.proof is Some && self.spec_is_valid_for_proof(self.proof.unwrap())),
    {
        if self.proof.is_none() {
            return false;
        }
        self.is_valid_for_proof(self.proof.unwrap())
    }

    /// Scans the proofs from `start` up to, not including, `end`, in order,
    /// for the first valid one.
    pub fn first_valid_proof(&self, start: u64, end: u64) -> (found: Option<u64>)
        ensures
            self.first_valid_is(start as int, end as int, found),
    {
        let mut p: u64 = start;
        while p < end
            invariant
                start <= p,
                forall|q: u64| start <= q < p ==> !self.spec_is_valid_for_proof(q),
            decreases end - p,
        {
            if self.is_valid_for_proof(p) {
                return Some(p);
            }
            p += 1;
        }
        None
    }

    /// Mines by trying every proof in turn, from zero up. The block gets
    /// the least valid proof; it is left as it was if no proof is valid.
    pub fn mine_serial(&mut self)
        ensures
            final(self).same_content(old(self)),
            (exists|p: u64| old(self).spec_is_valid_for_proof(p)) ==> old(self).first_valid_is(
                0,
                u64::MAX + 1,
                final(self).proof,
            ),
            (forall|p: u64| !old(self).spec_is_valid_for_proof(p)) ==> final(self).proof == old(
                self,
            ).proof,
    {
        match self.first_valid_proof(0, u64::MAX) {
            Some(p) => {
                self.proof = Some(p);
            },
            None => {
                if self.is_valid_for_proof(u64::MAX) {
                    self.proof = Some(u64::MAX);
                }
            },
        }
    }
}

} // verus!
