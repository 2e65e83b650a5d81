//! Payment receipts: the escrow records that decouple paying from
//! redeeming.
//!
//! A receipt is identified by its (sender, receiver, payment mint) triple;
//! the environment stores at most one receipt per triple. `ReceiptBook`
//! models that store: a list of receipts with pairwise distinct triples.
//! A receipt enters the book when a payment is prepared and leaves it in
//! the same transition that redeems it, so it can be redeemed at most once.

use vstd::prelude::*;
use crate::pubkey::Pubkey;

verus! {

/// Which matching rule a redemption must use.
#[derive(Clone, Copy, Debug, PartialEq, Eq, Structural)]
pub enum ReceiptType {
    /// Redeemed by minting a membership for the sender.
    User,
    /// Redeemed by creating an issuer for the receiver.
    Community,
}

/// An escrow record proving a payment, consumed exactly once.
#[derive(Clone, Copy, Debug, PartialEq, Eq, Structural)]
pub struct Receipt {
    pub bump: u8,
    pub payment_type: ReceiptType,
    pub created_at: i64,
    pub payment_amount: u64,
    pub sender: Pubkey,
    pub receiver: Pubkey,
    pub sender_token_account: Pubkey,
    pub receiver_token_account: Pubkey,
    pub payment_mint: Pubkey,
}

impl Receipt {
    /// Serialized size: marker (8), type (2), bump (1), created_at (8),
    /// amount (8), and five addresses.
    pub open spec fn spec_size() -> int {
        (8 + 1 + 1 + 1 + 8 + 8 + 32 + 32 + 32 + 32 + 32) as int
    }

    pub fn size() -> (r: usize)
        ensures
            r == Receipt::spec_size(),
    {
        8 + 1 + 1 + 1 + 8 + 8 + 32 + 32 + 32 + 32 + 32
    }
}

/// The receipt binds exactly this (sender, receiver, payment mint) triple.
pub open spec fn spec_matches_triple(
    r: Receipt,
    sender: Pubkey,
    receiver: Pubkey,
    payment_mint: Pubkey,
) -> bool {
    r.sender == sender && r.receiver == receiver && r.payment_mint == payment_mint
}

/// No two receipts in the list share a triple.
pub open spec fn distinct_triples(s: Seq<Receipt>) -> bool {
    forall|i: int, j: int| 0 <= i < j < s.len() ==> !spec_matches_triple(
        s[j],
        s[i].sender,
        s[i].receiver,
        s[i].payment_mint,
    )
}

/// Some receipt in the list binds the triple.
pub open spec fn contains_triple_seq(
    s: Seq<Receipt>,
    sender: Pubkey,
    receiver: Pubkey,
    payment_mint: Pubkey,
) -> bool {
    exists|i: int| 0 <= i < s.len() && spec_matches_triple(s[i], sender, receiver, payment_mint)
}

/// The receipt a list with distinct triples holds for a triple; meaningful
/// only when one exists.
pub open spec fn spec_receipt_at(
    s: Seq<Receipt>,
    sender: Pubkey,
    receiver: Pubkey,
    payment_mint: Pubkey,
) -> Receipt {
    s[choose|i: int| 0 <= i < s.len() && spec_matches_triple(s[i], sender, receiver, payment_mint)]
}

/// Under distinct triples, any receipt in the list matching a triple is
/// the one `spec_receipt_at` names.
pub proof fn lemma_receipt_at_unique(
    s: Seq<Receipt>,
    i: int,
    sender: Pubkey,
    receiver: Pubkey,
    payment_mint: Pubkey,
)
    requires
        distinct_triples(s),
        0 <= i < s.len(),
        spec_matches_triple(s[i], sender, receiver, payment_mint),
    ensures
        s[i] == spec_receipt_at(s, sender, receiver, payment_mint),
{
    let j = choose|j: int| 0 <= j < s.len() && spec_matches_triple(
        s[j],
        sender,
        receiver,
        payment_mint,
    );
    if i < j {
        assert(spec_matches_triple(s[j], s[i].sender, s[i].receiver, s[i].payment_mint));
        assert(false);
    } else if j < i {
        assert(spec_matches_triple(s[i], s[j].sender, s[j].receiver, s[j].payment_mint));
        assert(false);
    }
}

/// The environment's store of live receipts: at most one per triple.
#[derive(Clone, Debug)]
pub struct ReceiptBook {
    pub receipts: Vec<Receipt>,
}

impl ReceiptBook {
    /// At most one receipt per (sender, receiver, payment mint) triple.
    pub open spec fn wf(self) -> bool {
        distinct_triples(self.receipts@)
    }

    /// Some live receipt binds the triple.
    pub open spec fn spec_contains_triple(
        self,
        sender: Pubkey,
        receiver: Pubkey,
        payment_mint: Pubkey,
    ) -> bool {
        contains_triple_seq(self.receipts@, sender, receiver, payment_mint)
    }

    /// An empty book.
    pub fn new() -> (r: ReceiptBook)
        ensures
            r.wf(),
            r.receipts@.len() == 0,
    {
        ReceiptBook { receipts: Vec::new() }
    }

    /// The position of the live receipt binding the triple, if any.
    fn find(&self, sender: &Pubkey, receiver: &Pubkey, payment_mint: &Pubkey) -> (r: Option<
        usize,
    >)
        ensures
            match r {
                Some(i) => i < self.receipts@.len() && spec_matches_triple(
                    self.receipts@[i as int],
                    *sender,
                    *receiver,
                    *payment_mint,
                ),
                None => !self.spec_contains_triple(*sender, *receiver, *payment_mint),
            },
    {
        let mut i: usize = 0;
        while i < self.receipts.len()
            invariant
                i <= self.receipts@.len(),
                forall|j: int| 0 <= j < i ==> !spec_matches_triple(
                    self.receipts@[j],
                    *sender,
                    *receiver,
                    *payment_mint,
                ),
            decreases self.receipts@.len() - i,
        {
            let r = &self.receipts[i];
            if r.sender == *sender && r.receiver == *receiver && r.payment_mint == *payment_mint {
                return Some(i);
            }
            i = i + 1;
        }
        None
    }

    /// The live receipt binding the triple, if any.
    pub fn lookup(&self, sender: &Pubkey, receiver: &Pubkey, payment_mint: &Pubkey) -> (r:
        Option<Receipt>)
        requires
            self.wf(),
        ensures
            match r {
                Some(rec) => self.spec_contains_triple(*sender, *receiver, *payment_mint)
                    && self.receipts@.contains(rec) && spec_matches_triple(
                    rec,
                    *sender,
                    *receiver,
                    *payment_mint,
                ) && rec == spec_receipt_at(self.receipts@, *sender, *receiver, *payment_mint),
                None => !self.spec_contains_triple(*sender, *receiver, *payment_mint),
            },
    {
        match self.find(sender, receiver, payment_mint) {
            Some(i) => {
                proof {
                    assert(self.receipts@[i as int] == self.receipts@.index(i as int));
                    lemma_receipt_at_unique(
                        self.receipts@,
                        i as int,
                        *sender,
                        *receiver,
                        *payment_mint,
                    );
                }
                Some(self.receipts[i])
            },
            None => None,
        }
    }

    /// Stores a new receipt. Fails, changing nothing, when a receipt for
    /// the same triple is already live.
    pub fn put(&mut self, receipt: Receipt) -> (r: bool)
        requires
            old(self).wf(),
        ensures
            final(self).wf(),
            r == !old(self).spec_contains_triple(
                receipt.sender,
                receipt.receiver,
                receipt.payment_mint,
            ),
            r ==> final(self).receipts@ == old(self).receipts@.push(receipt),
            !r ==> *final(self) == *old(self),
    {
        match self.find(&receipt.sender, &receipt.receiver, &receipt.payment_mint) {
            Some(_) => {
                proof {
                    let i = choose|i: int| 0 <= i < self.receipts@.len() && spec_matches_triple(
                        self.receipts@[i],
                        receipt.sender,
                        receipt.receiver,
                        receipt.payment_mint,
                    );
                }
                false
            },
            None => {
                self.receipts.push(receipt);
                proof {
                    let s = old(self).receipts@;
                    let t = self.receipts@;
                    assert forall|i: int, j: int| 0 <= i < j < t.len() implies
                        !spec_matches_triple(t[j], t[i].sender, t[i].receiver, t[i].payment_mint)
                    by {
                        if j < s.len() {
                            assert(t[i] == s[i] && t[j] == s[j]);
                        } else {
                            assert(t[j] == receipt);
                            assert(t[i] == s[i]);
                            if spec_matches_triple(
                                receipt,
                                s[i].sender,
                                s[i].receiver,
                                s[i].payment_mint,
                            ) {
                                assert(spec_matches_triple(
                                    s[i],
                                    receipt.sender,
                                    receipt.receiver,
                                    receipt.payment_mint,
                                ));
                            }
                        }
                    }
                }
                true
            },
        }
    }

    /// Removes and returns the live receipt binding the triple; afterwards
    /// no receipt binds it. Returns `None`, changing nothing, when no
    /// receipt binds the triple.
    pub fn take(&mut self, sender: &Pubkey, receiver: &Pubkey, payment_mint: &Pubkey) -> (r:
        Option<Receipt>)
        requires
            old(self).wf(),
        ensures
            final(self).wf(),
            match r {
                Some(rec) => {
                    &&& old(self).spec_contains_triple(*sender, *receiver, *payment_mint)
                    &&& spec_matches_triple(rec, *sender, *receiver, *payment_mint)
                    &&& rec == spec_receipt_at(old(self).receipts@, *sender, *receiver, *payment_mint)
                    &&& !final(self).spec_contains_triple(*sender, *receiver, *payment_mint)
                    &&& exists|k: int|
                        0 <= k < old(self).receipts@.len() && old(self).receipts@[k] == rec
                            && final(self).receipts@ == old(self).receipts@.remove(k)
                },
                None => {
                    &&& !old(self).spec_contains_triple(*sender, *receiver, *payment_mint)
                    &&& *final(self) == *old(self)
                },
            },
    {
        match self.find(sender, receiver, payment_mint) {
            Some(i) => {
                proof {
                    lemma_receipt_at_unique(
                        self.receipts@,
                        i as int,
                        *sender,
                        *receiver,
                        *payment_mint,
                    );
                }
                let rec = self.receipts.remove(i);
                proof {
                    let s = old(self).receipts@;
                    let t = self.receipts@;
                    assert(t == s.remove(i as int));
                    assert forall|a: int, b: int| 0 <= a < b < t.len() implies
                        !spec_matches_triple(t[b], t[a].sender, t[a].receiver, t[a].payment_mint)
                    by {
                        let a0: int = if a < i { a } else { a + 1 };
                        let b0: int = if b < i { b } else { b + 1 };
                        assert(t[a] == s[a0] && t[b] == s[b0]);
                    }
                    assert forall|k: int| 0 <= k < t.len() implies !spec_matches_triple(
                        t[k],
                        *sender,
                        *receiver,
                        *payment_mint,
                    ) by {
                        let k0: int = if k < i { k } else { k + 1 };
                        assert(t[k] == s[k0]);
                        if k0 < i {
                            assert(!spec_matches_triple(
                                s[i as int],
                                s[k0].sender,
                                s[k0].receiver,
                                s[k0].payment_mint,
                            ));
                        }
                    }
                    if contains_triple_seq(t, *sender, *receiver, *payment_mint) {
                        let k = choose|k: int| 0 <= k < t.len() && spec_matches_triple(
                            t[k],
                            *sender,
                            *receiver,
                            *payment_mint,
                        );
                        assert(false);
                    }
                }
                Some(rec)
            },
            None => None,
        }
    }
}

/// A receipt can be redeemed at most once: the transition that redeems a
/// triple removes its receipt, and afterwards no receipt binds the triple,
/// so a second redemption of the same triple finds nothing.
pub proof fn lemma_redeem_at_most_once(
    before: Seq<Receipt>,
    k: int,
    sender: Pubkey,
    receiver: Pubkey,
    payment_mint: Pubkey,
)
    requires
        distinct_triples(before),
        0 <= k < before.len(),
        spec_matches_triple(before[k], sender, receiver, payment_mint),
    ensures
        !contains_triple_seq(before.remove(k), sender, receiver, payment_mint),
{
    let t = before.remove(k);
    assert forall|j: int| 0 <= j < t.len() implies !spec_matches_triple(
        t[j],
        sender,
        receiver,
        payment_mint,
    ) by {
        let j0: int = if j < k { j } else { j + 1 };
        assert(t[j] == before[j0]);
        if j0 < k {
            assert(!spec_matches_triple(
                before[k],
                before[j0].sender,
                before[j0].receiver,
                before[j0].payment_mint,
            ));
        }
    }
    if contains_triple_seq(t, sender, receiver, payment_mint) {
        let j = choose|j: int| 0 <= j < t.len() && spec_matches_triple(
            t[j],
            sender,
            receiver,
            payment_mint,
        );
        assert(false);
    }
}

} // verus!
