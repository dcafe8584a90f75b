//! Extension chains: the bytes that follow a DIF or a VIF while the top bit of
//! the byte before says that one more follows.
use crate::bits::{extension_flag, has_extension};
use crate::inline_bytes::{bytes_of, new_bytes, push_byte};
use arrayvec::ArrayVec;
use vstd::prelude::*;

verus! {

/// Most extension bytes that may follow a DIF or a VIF.
pub const MAX_EXTENSIONS: usize = 10;

/// Why an extension chain could not be read.
#[derive(Debug, Clone, Copy, PartialEq, Eq, Structural)]
pub enum ChainError {
    /// The tenth extension byte asks for an eleventh.
    TooLong,
    /// The bytes end before a byte without the extension flag is reached.
    Truncated,
}

/// How many bytes from index `i` on carry the extension flag, before the first
/// that does not or the end of `s`.
pub open spec fn flagged_run(s: Seq<u8>, i: int) -> nat
    decreases s.len() - i,
{
    if 0 <= i < s.len() && has_extension(s[i]) {
        1 + flagged_run(s, i + 1)
    } else {
        0
    }
}

/// The length of the extension chain whose first byte is at `first`, given that
/// the byte before it announced an extension: the flagged bytes and the one
/// byte without flag that ends the chain. The chain may have `most` bytes.
pub open spec fn chain_len(s: Seq<u8>, first: int, most: nat) -> Result<nat, ChainError> {
    let run = flagged_run(s, first);
    if run >= most {
        Err(ChainError::TooLong)
    } else if first + run >= s.len() {
        Err(ChainError::Truncated)
    } else {
        Ok(run + 1)
    }
}

/// The length of the chain behind a field byte `field`, whose extensions, if it
/// announces any, begin at `first`.
pub open spec fn chain_len_after(field: u8, s: Seq<u8>, first: int, most: nat) -> Result<
    nat,
    ChainError,
> {
    if has_extension(field) {
        chain_len(s, first, most)
    } else {
        Ok(0)
    }
}

/// A chain of `n` bytes at `first`: all but the last carry the flag, the last
/// does not, and there are at most `most`.
pub open spec fn is_chain(s: Seq<u8>, first: int, n: nat, most: nat) -> bool {
    &&& 1 <= n <= most
    &&& 0 <= first
    &&& first + n <= s.len()
    &&& forall|k: int| first <= k < first + n - 1 ==> has_extension(#[trigger] s[k])
    &&& !has_extension(s[first + n - 1])
}

/// A run of flagged bytes from `i` to `j` is part of the run counted from `i`.
pub proof fn lemma_flagged_run_split(s: Seq<u8>, i: int, j: int)
    requires
        0 <= i <= j <= s.len(),
        forall|k: int| i <= k < j ==> has_extension(#[trigger] s[k]),
    ensures
        flagged_run(s, i) == (j - i) + flagged_run(s, j),
    decreases j - i,
{
    if i < j {
        lemma_flagged_run_split(s, i + 1, j);
    }
}

/// Every byte inside the run counted from `i` carries the flag, and the byte
/// behind the run, if there is one, does not.
pub proof fn lemma_flagged_run_all(s: Seq<u8>, i: int)
    requires
        0 <= i,
    ensures
        i + flagged_run(s, i) <= s.len() || flagged_run(s, i) == 0,
        forall|k: int| i <= k < i + flagged_run(s, i) ==> has_extension(#[trigger] s[k]),
        i + flagged_run(s, i) < s.len() ==> !has_extension(s[i + flagged_run(s, i)]),
    decreases s.len() - i,
{
    if i < s.len() && has_extension(s[i]) {
        lemma_flagged_run_all(s, i + 1);
    }
}

/// Whether `s` and `t` hold the same first `n` bytes.
pub open spec fn same_start(s: Seq<u8>, t: Seq<u8>, n: int) -> bool {
    &&& 0 <= n <= s.len()
    &&& n <= t.len()
    &&& forall|k: int| 0 <= k < n ==> s[k] == t[k]
}

/// Sequences with the same start have the same parts within it.
pub proof fn lemma_same_start_same_parts(s: Seq<u8>, t: Seq<u8>, n: int, from: int, to: int)
    requires
        same_start(s, t, n),
        0 <= from <= to <= n,
    ensures
        s.subrange(from, to) == t.subrange(from, to),
{
    assert(s.subrange(from, to) =~= t.subrange(from, to));
}

/// A run that ends within the bytes that two sequences share is the same run
/// in both.
pub proof fn lemma_flagged_run_agrees(s: Seq<u8>, t: Seq<u8>, i: int, n: int)
    requires
        same_start(s, t, n),
        0 <= i,
        i + flagged_run(s, i) < n,
    ensures
        flagged_run(t, i) == flagged_run(s, i),
    decreases n - i,
{
    if i < s.len() && has_extension(s[i]) {
        lemma_flagged_run_agrees(s, t, i + 1, n);
    }
}

/// A chain that lies within the bytes that two sequences share is the same
/// chain in both.
pub proof fn lemma_chain_agrees(s: Seq<u8>, t: Seq<u8>, first: int, most: nat, n: int)
    requires
        same_start(s, t, n),
        0 <= first,
        chain_len(s, first, most) matches Ok(len) && first + len <= n,
    ensures
        chain_len(t, first, most) == chain_len(s, first, most),
{
    lemma_flagged_run_agrees(s, t, first, n);
}

/// `chain_len` finds a chain exactly where there is one.
pub proof fn lemma_chain_len_is_chain(s: Seq<u8>, first: int, n: nat, most: nat)
    requires
        0 <= first,
    ensures
        chain_len(s, first, most) == Ok::<nat, ChainError>(n) <==> is_chain(s, first, n, most),
{
    if is_chain(s, first, n, most) {
        lemma_flagged_run_split(s, first, first + n - 1);
    }
    if chain_len(s, first, most) == Ok::<nat, ChainError>(n) {
        lemma_flagged_run_all(s, first);
    }
}

/// As many flagged bytes in a row as a chain may have bytes are no chain: the
/// last of them asks for one byte too many, whatever follows.
pub proof fn lemma_flagged_extensions_too_long(s: Seq<u8>, first: int, most: nat)
    requires
        0 <= first,
        first + most <= s.len(),
        forall|k: int| first <= k < first + most ==> has_extension(#[trigger] s[k]),
    ensures
        chain_len(s, first, most) == Err::<nat, ChainError>(ChainError::TooLong),
{
    lemma_flagged_run_split(s, first, first + most);
}

/// Reads the extension chain of at most `most` bytes that begins at `first`.
///
/// On success the result holds the chain's bytes in wire order.
pub(crate) fn read_chain_of(data: &[u8], first: usize, most: usize) -> (r: Result<
    ArrayVec<u8, 10>,
    ChainError,
>)
    requires
        most <= MAX_EXTENSIONS,
    ensures
        match r {
            Ok(chain) => {
                &&& chain_len(data@, first as int, most as nat) == Ok::<nat, ChainError>(
                    bytes_of(chain).len(),
                )
                &&& first + bytes_of(chain).len() <= data@.len()
                &&& bytes_of(chain) == data@.subrange(
                    first as int,
                    first + bytes_of(chain).len(),
                )
            },
            Err(e) => chain_len(data@, first as int, most as nat) == Err::<nat, ChainError>(e),
        },
{
    if most == 0 {
        return Err(ChainError::TooLong);
    }
    if first > data.len() {
        return Err(ChainError::Truncated);
    }
    let mut chain = new_bytes();
    let mut count: usize = 0;
    loop
        invariant
            0 <= count <= most <= MAX_EXTENSIONS,
            first + count <= data@.len(),
            bytes_of(chain) == data@.subrange(first as int, first + count),
            forall|k: int| first <= k < first + count ==> has_extension(#[trigger] data@[k]),
        decreases most - count,
    {
        proof {
            lemma_flagged_run_split(data@, first as int, first + count);
        }
        if count == most {
            return Err(ChainError::TooLong);
        }
        if count >= data.len() - first {
            return Err(ChainError::Truncated);
        }
        let byte = data[first + count];
        push_byte(&mut chain, byte);
        assert(data@.subrange(first as int, first + count).push(byte) == data@.subrange(
            first as int,
            first + count + 1,
        ));
        count = count + 1;
        if !extension_flag(byte) {
            return Ok(chain);
        }
    }
}

/// Reads the extension chain of at most ten bytes that begins at `first`.
///
/// On success the result holds the chain's bytes in wire order.
pub fn read_chain(data: &[u8], first: usize) -> (r: Result<ArrayVec<u8, 10>, ChainError>)
    ensures
        match r {
            Ok(chain) => {
                &&& chain_len(data@, first as int, MAX_EXTENSIONS as nat) == Ok::<
                    nat,
                    ChainError,
                >(bytes_of(chain).len())
                &&& bytes_of(chain) == data@.subrange(
                    first as int,
                    first + bytes_of(chain).len(),
                )
            },
            Err(e) => chain_len(data@, first as int, MAX_EXTENSIONS as nat) == Err::<
                nat,
                ChainError,
            >(e),
        },
{
    read_chain_of(data, first, MAX_EXTENSIONS)
}

} // verus!
