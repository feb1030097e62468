//! Dispatch hashes: numeric keys that identify a function signature.
//!
//! A hash is a 64-bit FNV-1a fold over an optional namespace, the function
//! name and the number of parameters. Zero is never produced, so that callers
//! may keep zero for "not yet computed".

use vstd::prelude::*;
use vstd::string::StringSliceAdditionalSpecFns;

verus! {

/// Initial state of the 64-bit FNV-1a fold.
pub const FNV_OFFSET_BASIS: u64 = 0xcbf2_9ce4_8422_2325;

/// Multiplier of the 64-bit FNV-1a fold.
pub const FNV_PRIME: u64 = 0x0000_0100_0000_01b3;

/// Word that closes a namespace; no UTF-8 text holds it as a byte.
pub const NAMESPACE_END: u64 = 0xff;

/// Hash handed out in place of zero.
pub const ALT_ZERO_HASH: u64 = 42;

/// Name under which the index getter is registered.
pub const FN_IDX_GET: &'static str = "index$get$";

/// Name under which the index setter is registered.
pub const FN_IDX_SET: &'static str = "index$set$";

/// One FNV-1a step: mix a word into the running state.
pub open spec fn mix(state: u64, word: u64) -> u64 {
    ((state ^ word) as u64).wrapping_mul(FNV_PRIME)
}

/// FNV-1a fold of `bytes` starting from `state`.
pub open spec fn fold(state: u64, bytes: Seq<u8>) -> u64
    decreases bytes.len(),
{
    if bytes.len() == 0 {
        state
    } else {
        mix(fold(state, bytes.drop_last()), bytes.last() as u64)
    }
}

/// The state after the namespace part of a signature.
pub open spec fn namespace_state(namespace: Option<Seq<u8>>) -> u64 {
    match namespace {
        Some(bytes) => mix(fold(FNV_OFFSET_BASIS, bytes), NAMESPACE_END),
        None => FNV_OFFSET_BASIS,
    }
}

/// The dispatch hash of a signature, over the UTF-8 bytes of its texts.
pub open spec fn fn_hash(namespace: Option<Seq<u8>>, fn_name: Seq<u8>, num: usize) -> u64 {
    let raw = mix(fold(namespace_state(namespace), fn_name), num as u64);
    if raw == 0 {
        ALT_ZERO_HASH
    } else {
        raw
    }
}

/// The UTF-8 bytes of an optional text.
pub open spec fn opt_bytes(text: Option<&str>) -> Option<Seq<u8>> {
    match text {
        Some(s) => Some(s.spec_bytes()),
        None => None,
    }
}

/// The hash of the index getter: its registered name with two parameters.
pub open spec fn index_getter_hash() -> u64 {
    fn_hash(None, FN_IDX_GET.spec_bytes(), 2)
}

/// The hash of the index setter: its registered name with three parameters.
pub open spec fn index_setter_hash() -> u64 {
    fn_hash(None, FN_IDX_SET.spec_bytes(), 3)
}

/// A dispatch hash is never zero.
pub proof fn lemma_fn_hash_nonzero(namespace: Option<Seq<u8>>, fn_name: Seq<u8>, num: usize)
    ensures
        fn_hash(namespace, fn_name, num) != 0,
{
}

/// Fold a byte slice into a running FNV-1a state.
pub fn fold_bytes(state: u64, bytes: &[u8]) -> (res: u64)
    ensures
        res == fold(state, bytes@),
{
    let mut acc: u64 = state;
    let mut i: usize = 0;
    while i < bytes.len()
        invariant
            i <= bytes.len(),
            acc == fold(state, bytes@.take(i as int)),
        decreases bytes.len() - i,
    {
        proof {
            assert(bytes@.take(i + 1).drop_last() =~= bytes@.take(i as int));
        }
        acc = (acc ^ (bytes[i] as u64)).wrapping_mul(FNV_PRIME);
        i += 1;
    }
    proof {
        assert(bytes@.take(i as int) =~= bytes@);
    }
    acc
}

/// Compute the dispatch hash of a function signature: an optional namespace,
/// the function's name and its number of parameters.
pub fn calc_fn_hash(namespace: Option<&str>, fn_name: &str, num: usize) -> (hash: u64)
    ensures
        hash == fn_hash(opt_bytes(namespace), fn_name.spec_bytes(), num),
        hash != 0,
{
    let start: u64 = match namespace {
        Some(text) => {
            let folded: u64 = fold_bytes(FNV_OFFSET_BASIS, text.as_bytes());
            (folded ^ NAMESPACE_END).wrapping_mul(FNV_PRIME)
        },
        None => FNV_OFFSET_BASIS,
    };
    let named: u64 = fold_bytes(start, fn_name.as_bytes());
    let raw: u64 = (named ^ (num as u64)).wrapping_mul(FNV_PRIME);
    if raw == 0 {
        ALT_ZERO_HASH
    } else {
        raw
    }
}

/// The pair that stands for "no index hash was asked for yet".
pub open spec fn empty_pair() -> (u64, u64) {
    (0u64, 0u64)
}

/// The hashes of the index getter and the index setter.
pub open spec fn index_hash_pair() -> (u64, u64) {
    (index_getter_hash(), index_setter_hash())
}

/// What asking for an index hash does to the memo: afterwards it holds both
/// hashes, and it has changed only if it was empty.
pub open spec fn memo_step(before: (u64, u64), after: (u64, u64)) -> bool {
    after == index_hash_pair() && (before == empty_pair() || before == after)
}

/// The computed pair of index hashes is never taken for the empty pair.
pub proof fn lemma_index_hash_pair_not_empty()
    ensures
        index_hash_pair() != empty_pair(),
        index_getter_hash() != 0,
        index_setter_hash() != 0,
{
}

/// Asking for an index hash a second time finds the memo filled and leaves
/// it as it is: the hashes that the first request computed are final, for
/// the getter and for the setter alike.
pub proof fn lemma_index_hashes_memoized(before: (u64, u64), between: (u64, u64), after: (u64, u64))
    requires
        memo_step(before, between),
        memo_step(between, after),
    ensures
        between != empty_pair(),
        after == between,
        between.0 == index_getter_hash(),
        between.1 == index_setter_hash(),
{
}

/// Memo of the hashes of the index getter and the index setter.
///
/// Both hashes are computed together when one of them is first asked for.
/// They depend on nothing but the registered names and the numbers of
/// parameters, so a memo that is filled never changes again.
#[derive(Clone, Copy, Debug)]
pub struct IndexHashes {
    pair: (u64, u64),
}

impl View for IndexHashes {
    type V = (u64, u64);

    /// The pair that the memo holds: the empty pair or the index hashes.
    closed spec fn view(&self) -> (u64, u64) {
        self.pair
    }
}

impl IndexHashes {
    /// The memo is empty or holds exactly the two index hashes.
    #[verifier::type_invariant]
    spec fn empty_or_computed(self) -> bool {
        self.pair == empty_pair() || self.pair == index_hash_pair()
    }

    /// An empty memo.
    pub fn new() -> (memo: IndexHashes)
        ensures
            memo@ == empty_pair(),
    {
        IndexHashes { pair: (0, 0) }
    }

    /// The pair that the memo holds: the empty pair or the index hashes.
    pub fn pair(&self) -> (pair: (u64, u64))
        ensures
            pair == self@,
    {
        self.pair
    }

    /// Whether the hashes have been computed.
    pub fn is_computed(&self) -> (computed: bool)
        ensures
            computed == (self@ == index_hash_pair()),
            computed == (self@ != empty_pair()),
    {
        proof {
            use_type_invariant(self);
        }
        !(self.pair.0 == 0 && self.pair.1 == 0)
    }

    /// The pair of index hashes, computed on the first call and handed out
    /// as kept on every later one.
    fn ensure(&mut self) -> (pair: (u64, u64))
        ensures
            pair == index_hash_pair(),
            memo_step(old(self)@, final(self)@),
    {
        proof {
            use_type_invariant(&*self);
        }
        if self.pair.0 == 0 && self.pair.1 == 0 {
            let n1: u64 = calc_fn_hash(None, FN_IDX_GET, 2);
            let n2: u64 = calc_fn_hash(None, FN_IDX_SET, 3);
            *self = IndexHashes { pair: (n1, n2) };
        }
        self.pair
    }

    /// The hash of the index getter.
    pub fn getter(&mut self) -> (hash: u64)
        ensures
            hash == index_getter_hash(),
            hash != 0,
            memo_step(old(self)@, final(self)@),
    {
        self.ensure().0
    }

    /// The hash of the index setter.
    pub fn setter(&mut self) -> (hash: u64)
        ensures
            hash == index_setter_hash(),
            hash != 0,
            memo_step(old(self)@, final(self)@),
    {
        self.ensure().1
    }
}

} // verus!
