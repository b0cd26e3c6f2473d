//! The two fixed-width identifiers an address can hold, their byte order and
//! their rendering as text.

use vstd::prelude::*;
use vstd::std_specs::cmp::{PartialEqSpecImpl, PartialOrdSpecImpl};
use core::cmp::Ordering;

verus! {

/// The raw bytes of a hash under which a contract package is stored.
pub type HashAddr = [u8; 32];

/// Whether `i` is the first place at which `a` and `b` differ.
pub open spec fn first_differ_at(a: Seq<u8>, b: Seq<u8>, i: int) -> bool {
    &&& 0 <= i < a.len()
    &&& i < b.len()
    &&& a[i] != b[i]
    &&& forall|j: int| 0 <= j < i ==> a[j] == b[j]
}

/// `a` comes before `b` in byte order: at the first place where the two
/// differ, `a` holds the smaller byte. Meant for sequences of one length.
pub open spec fn precedes(a: Seq<u8>, b: Seq<u8>) -> bool {
    exists|i: int| #[trigger] first_differ_at(a, b, i) && a[i] < b[i]
}

/// How `a` stands to `b` in byte order.
pub open spec fn byte_order(a: Seq<u8>, b: Seq<u8>) -> Ordering {
    if a == b {
        Ordering::Equal
    } else if precedes(a, b) {
        Ordering::Less
    } else {
        Ordering::Greater
    }
}

/// Two sequences differ first at no more than one place, and it is the same
/// place whichever of the two is named first.
pub proof fn lemma_first_difference_unique(a: Seq<u8>, b: Seq<u8>)
    ensures
        forall|i: int, k: int|
            #[trigger] first_differ_at(a, b, i) && #[trigger] first_differ_at(a, b, k) ==> i == k,
        forall|i: int| #[trigger] first_differ_at(a, b, i) ==> first_differ_at(b, a, i),
{
}

/// Byte order never holds both ways.
pub proof fn lemma_precedes_asymmetric(a: Seq<u8>, b: Seq<u8>)
    ensures
        !(precedes(a, b) && precedes(b, a)),
{
    lemma_first_difference_unique(a, b);
    lemma_first_difference_unique(b, a);
}

/// Of two different sequences of one length, one comes before the other.
pub proof fn lemma_precedes_total(a: Seq<u8>, b: Seq<u8>)
    requires
        a.len() == b.len(),
        a != b,
    ensures
        precedes(a, b) || precedes(b, a),
{
    lemma_differ_after(a, b, 0);
    lemma_first_difference_unique(a, b);
}

/// Two different sequences of one length that agree on their first `n` places
/// differ first at a later one.
proof fn lemma_differ_after(a: Seq<u8>, b: Seq<u8>, n: int)
    requires
        a.len() == b.len(),
        a != b,
        0 <= n <= a.len(),
        forall|j: int| 0 <= j < n ==> a[j] == b[j],
    ensures
        exists|i: int| first_differ_at(a, b, i),
    decreases a.len() - n,
{
    if n == a.len() {
        assert(a =~= b);
    } else if a[n] != b[n] {
        assert(first_differ_at(a, b, n));
    } else {
        lemma_differ_after(a, b, n + 1);
    }
}

/// Byte order carries over: what comes before something that comes before a
/// third comes before the third.
pub proof fn lemma_precedes_transitive(a: Seq<u8>, b: Seq<u8>, c: Seq<u8>)
    requires
        precedes(a, b),
        precedes(b, c),
    ensures
        precedes(a, c),
{
    let i = choose|i: int| #[trigger] first_differ_at(a, b, i) && a[i] < b[i];
    let k = choose|k: int| #[trigger] first_differ_at(b, c, k) && b[k] < c[k];
    let m = if i <= k { i } else { k };
    assert(first_differ_at(a, c, m));
}

/// The first place at which two hashes differ, or 32 where they are equal.
pub fn first_difference(a: &[u8; 32], b: &[u8; 32]) -> (at: usize)
    ensures
        at <= 32,
        at == 32 ==> *a == *b,
        at < 32 ==> first_differ_at(a@, b@, at as int),
{
    let mut i: usize = 0;
    while i < 32
        invariant
            i <= 32,
            forall|j: int| 0 <= j < i ==> a@[j] == b@[j],
        decreases 32 - i,
    {
        if a[i] != b[i] {
            return i;
        }
        i += 1;
    }
    assert(*a =~= *b);
    i
}

/// How two hashes stand in byte order.
pub fn compare_bytes(a: &[u8; 32], b: &[u8; 32]) -> (order: Ordering)
    ensures
        order == byte_order(a@, b@),
{
    let at = first_difference(a, b);
    if at == 32 {
        Ordering::Equal
    } else if a[at] < b[at] {
        Ordering::Less
    } else {
        proof {
            lemma_first_difference_unique(a@, b@);
            lemma_precedes_asymmetric(a@, b@);
        }
        Ordering::Greater
    }
}

/// Whether two hashes hold the same bytes.
pub fn equal_bytes(a: &[u8; 32], b: &[u8; 32]) -> (equal: bool)
    ensures
        equal == (*a == *b),
{
    first_difference(a, b) == 32
}

/// The lower-case hexadecimal digit of a value below sixteen.
pub open spec fn hex_digit(nibble: int) -> char {
    seq!['0', '1', '2', '3', '4', '5', '6', '7', '8', '9', 'a', 'b', 'c', 'd', 'e', 'f'][nibble]
}

/// Bytes written out in lower-case hexadecimal: two digits for each byte,
/// the high half first.
pub open spec fn hex_lower(bytes: Seq<u8>) -> Seq<char> {
    Seq::new(
        2 * bytes.len(),
        |i: int|
            if i % 2 == 0 {
                hex_digit(bytes[i / 2] as int / 16)
            } else {
                hex_digit(bytes[i / 2] as int % 16)
            },
    )
}

/// The hash that names a user account: the 32 bytes that a
/// `casper_types::account::AccountHash` holds.
#[derive(Eq, Ord, Hash, Clone, Copy, Debug)]
pub struct AccountHash(pub [u8; 32]);

impl View for AccountHash {
    type V = Seq<u8>;

    open spec fn view(&self) -> Seq<u8> {
        self.0@
    }
}

impl AccountHash {
    /// Wraps the raw bytes of an account hash.
    pub fn new(value: [u8; 32]) -> (hash: AccountHash)
        ensures
            hash == AccountHash(value),
    {
        AccountHash(value)
    }

    /// The raw bytes of the hash.
    pub fn value(&self) -> (value: [u8; 32])
        ensures
            value == self.0,
    {
        self.0
    }

    /// The hash as text.
    ///
    /// Trusted: this makes a `casper_types::account::AccountHash` of the
    /// bytes and returns what `to_string` gives for it, that is what its
    /// `Display` implementation writes: the result of `base16::encode_lower`
    /// on the bytes, two lower-case hexadecimal digits for each byte, the
    /// high half first.
    #[verifier::external_body]
    pub(crate) fn to_hex(&self) -> (text: String)
        ensures
            text@ == hex_lower(self@),
    {
        casper_types::account::AccountHash::new(self.0).to_string()
    }
}

impl PartialEq for AccountHash {
    fn eq(&self, other: &Self) -> (equal: bool) {
        equal_bytes(&self.0, &other.0)
    }
}

impl PartialEqSpecImpl for AccountHash {
    open spec fn obeys_eq_spec() -> bool {
        true
    }

    open spec fn eq_spec(&self, other: &Self) -> bool {
        *self == *other
    }
}

impl PartialOrd for AccountHash {
    fn partial_cmp(&self, other: &Self) -> (order: Option<Ordering>) {
        Some(compare_bytes(&self.0, &other.0))
    }
}

impl PartialOrdSpecImpl for AccountHash {
    open spec fn obeys_partial_cmp_spec() -> bool {
        true
    }

    open spec fn partial_cmp_spec(&self, other: &Self) -> Option<Ordering> {
        Some(byte_order(self@, other@))
    }
}

/// The hash that names a contract package: the 32 bytes that a
/// `casper_types::ContractPackageHash` holds.
#[derive(Eq, Ord, Hash, Clone, Copy, Debug)]
pub struct ContractPackageHash(pub [u8; 32]);

impl View for ContractPackageHash {
    type V = Seq<u8>;

    open spec fn view(&self) -> Seq<u8> {
        self.0@
    }
}

impl ContractPackageHash {
    /// Wraps the raw bytes of a contract package hash.
    pub fn new(value: HashAddr) -> (hash: ContractPackageHash)
        ensures
            hash == ContractPackageHash(value),
    {
        ContractPackageHash(value)
    }

    /// The raw bytes of the hash.
    pub fn value(&self) -> (value: HashAddr)
        ensures
            value == self.0,
    {
        self.0
    }

    /// The hash as text.
    ///
    /// Trusted: this makes a `casper_types::ContractPackageHash` of the bytes
    /// and returns what `to_string` gives for it, that is what its `Display`
    /// implementation writes: the result of `base16::encode_lower` on the
    /// bytes, two lower-case hexadecimal digits for each byte, the high half
    /// first.
    #[verifier::external_body]
    pub(crate) fn to_hex(&self) -> (text: String)
        ensures
            text@ == hex_lower(self@),
    {
        casper_types::ContractPackageHash::new(self.0).to_string()
    }
}

impl PartialEq for ContractPackageHash {
    fn eq(&self, other: &Self) -> (equal: bool) {
        equal_bytes(&self.0, &other.0)
    }
}

impl PartialEqSpecImpl for ContractPackageHash {
    open spec fn obeys_eq_spec() -> bool {
        true
    }

    open spec fn eq_spec(&self, other: &Self) -> bool {
        *self == *other
    }
}

impl PartialOrd for ContractPackageHash {
    fn partial_cmp(&self, other: &Self) -> (order: Option<Ordering>) {
        Some(compare_bytes(&self.0, &other.0))
    }
}

impl PartialOrdSpecImpl for ContractPackageHash {
    open spec fn obeys_partial_cmp_spec() -> bool {
        true
    }

    open spec fn partial_cmp_spec(&self, other: &Self) -> Option<Ordering> {
        Some(byte_order(self@, other@))
    }
}

} // verus!
