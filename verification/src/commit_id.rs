//! Commit identities: the twenty raw bytes of a SHA-1 object id.
use vstd::prelude::*;

verus! {

/// The content-addressed identity of a commit.
#[derive(Debug, Clone, Copy, PartialEq, Eq, Hash)]
pub struct CommitId {
    /// The raw bytes of the object id.
    pub bytes: [u8; 20],
}

impl View for CommitId {
    type V = Seq<u8>;

    open spec fn view(&self) -> Seq<u8> {
        self.bytes@
    }
}

/// The lower-case hexadecimal digit of a value below sixteen.
pub open spec fn hex_digit(nibble: int) -> char {
    seq!['0', '1', '2', '3', '4', '5', '6', '7', '8', '9', 'a', 'b', 'c', 'd', 'e', 'f'][nibble]
}

/// The hexadecimal text of a byte string: two lower-case digits for each byte,
/// the high half first.
pub open spec fn hex_text(bytes: Seq<u8>) -> Seq<char> {
    Seq::new(
        2 * bytes.len(),
        |i: int|
            if i % 2 == 0 {
                hex_digit(bytes[i / 2] as int / 16)
            } else {
                hex_digit(bytes[i / 2] as int % 16)
            },
    )
}

/// Wraps `git2::Oid::from_bytes` followed by the `Display` of `git2::Oid`.
/// `from_bytes` accepts every slice of twenty bytes and keeps them as they
/// are; `Display` hex-encodes them through libgit2's `git_oid_tostr`, which
/// writes two lower-case digits for each byte and the high half first.
#[verifier::external_body]
fn oid_hex(bytes: &[u8; 20]) -> (text: String)
    ensures
        text@ == hex_text(bytes@),
{
    match git2::Oid::from_bytes(bytes) {
        Ok(oid) => oid.to_string(),
        Err(_) => String::new(),
    }
}

impl CommitId {
    /// The identity with the given raw bytes.
    pub fn new(bytes: [u8; 20]) -> (id: CommitId)
        ensures
            id@ == bytes@,
    {
        CommitId { bytes }
    }

    /// Whether two identities name the same commit.
    pub fn same(&self, other: &CommitId) -> (equal: bool)
        ensures
            equal == (self@ == other@),
    {
        let mut i: usize = 0;
        while i < 20
            invariant
                i <= 20,
                forall|j: int| 0 <= j < i ==> self.bytes@[j] == other.bytes@[j],
            decreases 20 - i,
        {
            if self.bytes[i] != other.bytes[i] {
                return false;
            }
            i += 1;
        }
        assert(self@ =~= other@);
        true
    }

    /// The identity as forty lower-case hexadecimal digits.
    pub fn hex(&self) -> (text: String)
        ensures
            text@ == hex_text(self@),
            text@.len() == 40,
    {
        oid_hex(&self.bytes)
    }
}

} // verus!
